use std::io::{Cursor, Write};

use book_bot::books::{BookFormat, EpubMetadata, FileType, MetadataEntry, UploadError};

const CONTAINER: &str = r#"<?xml version="1.0" encoding="UTF-8"?>
<container version="1.0" xmlns="urn:oasis:names:tc:opendocument:xmlns:container">
  <rootfiles>
    <rootfile full-path="OEBPS/content.opf" media-type="application/oebps-package+xml"/>
  </rootfiles>
</container>"#;

fn package(metadata: &str) -> String {
    format!(
        r#"<?xml version="1.0" encoding="UTF-8"?>
<package xmlns="http://www.idpf.org/2007/opf" version="2.0" unique-identifier="bookid">
  <metadata xmlns:dc="http://purl.org/dc/elements/1.1/">
{}
  </metadata>
  <manifest>
    <item id="chapter1" href="chapter1.xhtml" media-type="application/xhtml+xml"/>
  </manifest>
  <spine>
    <itemref idref="chapter1"/>
  </spine>
</package>"#,
        metadata
    )
}

/// The bytes of a small e-book whose package document holds `metadata`.
fn epub_bytes(metadata: &str) -> Vec<u8> {
    let mut zip = zip::ZipWriter::new(Cursor::new(Vec::new()));
    let options = zip::write::FileOptions::default().compression_method(zip::CompressionMethod::Stored);
    zip.start_file("mimetype", options).unwrap();
    zip.write_all(b"application/epub+zip").unwrap();
    zip.start_file("META-INF/container.xml", options).unwrap();
    zip.write_all(CONTAINER.as_bytes()).unwrap();
    zip.start_file("OEBPS/content.opf", options).unwrap();
    zip.write_all(package(metadata).as_bytes()).unwrap();
    zip.start_file("OEBPS/chapter1.xhtml", options).unwrap();
    zip.write_all(b"<html><body><p>One</p></body></html>").unwrap();
    zip.finish().unwrap().into_inner()
}

/// The metadata the `epub` crate reads from `bytes`, as the bot hands it to the library.
fn metadata_of(bytes: Vec<u8>) -> EpubMetadata {
    let doc = epub::doc::EpubDoc::from_reader(Cursor::new(bytes)).unwrap();
    EpubMetadata {
        entries: doc
            .metadata
            .iter()
            .map(|(name, values)| MetadataEntry { name: name.clone(), values: values.clone() })
            .collect(),
    }
}

const ARTISTS_WAY: &str = r#"
    <dc:title>The Artist's Way</dc:title>
    <dc:creator>Julia Cameron</dc:creator>
    <dc:subject>Self Help</dc:subject>
    <dc:subject>Creativity</dc:subject>
    <dc:subject>Nonfiction</dc:subject>
    <dc:language>en</dc:language>
    <dc:identifier id="bookid">artists-way</dc:identifier>"#;

#[test]
fn parse_epub() {
    const PATH: &str = "./books/The_Artists_Way_Julia_Cameron.epub";
    let meta = metadata_of(epub_bytes(ARTISTS_WAY));
    let result = FileType::parse_epub(&meta, PATH).unwrap();
    let author = "Julia Cameron".to_string();
    let title = "The Artist's Way".to_string();
    let genres = vec!["Self Help".to_string(), "Creativity".to_string(), "Nonfiction".to_string()];

    assert_eq!(result.author, author);
    assert_eq!(result.title, title);
    assert_eq!(result.genres, genres);
}

#[test]
fn parse_epub_fills_the_other_fields() {
    let path = "./books/way.epub";
    let book = FileType::parse_epub(&metadata_of(epub_bytes(ARTISTS_WAY)), path).unwrap();
    assert_eq!(book.book_path, path);
    assert_eq!(book.download_count, 0);
    assert_eq!(book.language, "en");
    assert_eq!(book.description, "");
}

#[test]
fn parse_epub_defaults_missing_tags() {
    let book = FileType::parse_epub(&metadata_of(epub_bytes("<dc:title>Only a title</dc:title>")), "b.epub").unwrap();
    assert_eq!(book.title, "Only a title");
    assert_eq!(book.author, "");
    assert_eq!(book.description, "");
    assert_eq!(book.language, "");
    assert!(book.genres.is_empty());
}

#[test]
fn parse_epub_first_title_wins() {
    let book = FileType::parse_epub(
        &metadata_of(epub_bytes(
            "<dc:title>First</dc:title><dc:title>Second</dc:title><dc:creator>A</dc:creator><dc:creator>B</dc:creator>",
        )),
        "b.epub",
    )
    .unwrap();
    assert_eq!(book.title, "First");
    assert_eq!(book.author, "A");
}

#[test]
fn parse_epub_without_title() {
    let r = FileType::parse_epub(&metadata_of(epub_bytes("<dc:creator>Nobody</dc:creator>")), "b.epub");
    assert!(r.is_none());
}

fn entry(name: &str, values: &[&str]) -> MetadataEntry {
    MetadataEntry { name: name.to_string(), values: values.iter().map(|v| v.to_string()).collect() }
}

#[test]
fn parse_tag_reads_the_first_value() {
    let meta = EpubMetadata {
        entries: vec![entry("creator", &["Ann", "Bob"]), entry("title", &["T"]), entry("subject", &[])],
    };
    assert_eq!(FileType::parse_tag(&meta, "creator"), Some("Ann".to_string()));
    assert_eq!(FileType::parse_tag(&meta, "title"), Some("T".to_string()));
    assert_eq!(FileType::parse_tag(&meta, "subject"), None);
    assert_eq!(FileType::parse_tag(&meta, "language"), None);
}

#[test]
fn parse_tags_reads_every_value() {
    let meta = EpubMetadata { entries: vec![entry("subject", &["x", "y"]), entry("subject", &["z"])] };
    assert_eq!(FileType::parse_tags(&meta, "subject"), Some(vec!["x".to_string(), "y".to_string()]));
    assert_eq!(FileType::parse_tags(&meta, "title"), None);
}

#[test]
fn book_from_metadata_builds_the_book() {
    let meta = EpubMetadata {
        entries: vec![
            entry("title", &["Dune"]),
            entry("description", &["Sand"]),
            entry("subject", &["SF", "Classic"]),
        ],
    };
    let book = FileType::book_from_metadata(&meta, "./books/dune.epub");
    assert!(FileType::parse_epub(&meta, "./books/dune.epub").is_some());
    assert_eq!(book.title, "Dune");
    assert_eq!(book.author, "");
    assert_eq!(book.description, "Sand");
    assert_eq!(book.language, "");
    assert_eq!(book.genres, vec!["SF".to_string(), "Classic".to_string()]);
    assert_eq!(book.book_path, "./books/dune.epub");
    assert_eq!(book.download_count, 0);
}

#[test]
fn from_extension_takes_only_epub() {
    assert_eq!(FileType::from_extension(Some("epub")), Ok(BookFormat::Epub));
    assert_eq!(FileType::from_extension(Some("pdf")), Err(UploadError::Unsupported));
    assert_eq!(FileType::from_extension(Some("EPUB")), Err(UploadError::Unsupported));
    assert_eq!(FileType::from_extension(None), Err(UploadError::NoExtension));
}

#[test]
fn parse_judges_the_path() {
    assert_eq!(FileType::parse("./books/a.epub"), Ok(BookFormat::Epub));
    assert_eq!(FileType::parse("./books/a.tar.epub"), Ok(BookFormat::Epub));
    assert_eq!(FileType::parse("./books/a.fb2"), Err(UploadError::Unsupported));
    assert_eq!(FileType::parse("./books/epub"), Err(UploadError::NoExtension));
    assert_eq!(FileType::parse("./books/.epub"), Err(UploadError::NoExtension));
    assert_eq!(FileType::parse("./books/book.fb2"), Err(UploadError::Unsupported));
    assert_eq!(FileType::parse("./books/a.epub.txt"), Err(UploadError::Unsupported));
    assert_eq!(FileType::parse("./books/a."), Err(UploadError::Unsupported));
    assert_eq!(FileType::parse("./books/a.epub/"), Ok(BookFormat::Epub));
    assert_eq!(FileType::parse("./books/a.epub/."), Ok(BookFormat::Epub));
    assert_eq!(FileType::parse("./books/.."), Err(UploadError::NoExtension));
    assert_eq!(FileType::parse("./books.d/name"), Err(UploadError::NoExtension));
    assert_eq!(FileType::parse(""), Err(UploadError::NoExtension));
    assert_eq!(FileType::parse("./books/Dune: Messiah.epub"), Ok(BookFormat::Epub));
    assert_eq!(FileType::parse("./books/x.epub: notes.pdf"), Err(UploadError::Unsupported));
}

#[test]
fn upload_error_messages() {
    assert_eq!(UploadError::NoExtension.message(), "Couln't get file extension");
    assert_eq!(UploadError::Unsupported.message(), "ERRORRRR");
}
