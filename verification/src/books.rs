use vstd::prelude::*;

verus! {

/// A book as the bot stores and lists it.
#[derive(Debug)]
pub struct Book {
    pub title: String,
    pub author: String,
    pub book_path: String,
    pub description: String,
    pub download_count: i32,
    pub language: String,
    pub genres: Vec<String>,
}

/// The mathematical value of a [`Book`]: its texts as character sequences.
pub struct BookView {
    pub title: Seq<char>,
    pub author: Seq<char>,
    pub book_path: Seq<char>,
    pub description: Seq<char>,
    pub download_count: int,
    pub language: Seq<char>,
    pub genres: Seq<Seq<char>>,
}

impl View for Book {
    type V = BookView;

    open spec fn view(&self) -> BookView {
        BookView {
            title: self.title@,
            author: self.author@,
            book_path: self.book_path@,
            description: self.description@,
            download_count: self.download_count as int,
            language: self.language@,
            genres: self.genres.deep_view(),
        }
    }
}

/// One named entry of an e-book's metadata (`title`, `creator`, `subject`, ...)
/// with every value the package document gives it, in document order.
#[derive(Debug)]
pub struct MetadataEntry {
    pub name: String,
    pub values: Vec<String>,
}

/// The metadata of an e-book, one entry per name.
#[derive(Debug)]
pub struct EpubMetadata {
    pub entries: Vec<MetadataEntry>,
}

/// The metadata as a map from a name to its values; an earlier entry wins over a
/// later one with the same name.
pub open spec fn metadata_map(entries: Seq<MetadataEntry>) -> Map<Seq<char>, Seq<Seq<char>>>
    decreases entries.len(),
{
    if entries.len() == 0 {
        Map::empty()
    } else {
        metadata_map(entries.drop_first()).insert(entries[0].name@, entries[0].values.deep_view())
    }
}

/// The values recorded under `name`, if the metadata has that name.
pub open spec fn values_of(m: Map<Seq<char>, Seq<Seq<char>>>, name: Seq<char>) -> Option<Seq<Seq<char>>> {
    if m.dom().contains(name) {
        Some(m[name])
    } else {
        None
    }
}

/// The first value recorded under `name`, if there is one.
pub open spec fn first_value(m: Map<Seq<char>, Seq<Seq<char>>>, name: Seq<char>) -> Option<Seq<char>> {
    match values_of(m, name) {
        Some(vs) => if vs.len() > 0 {
            Some(vs[0])
        } else {
            None
        },
        None => None,
    }
}

/// The book described by metadata `m`, read from the file at `path`: the first title,
/// creator, description and language (an absent one reads as empty), every subject
/// as a genre, and no downloads yet.
pub open spec fn book_from_metadata(m: Map<Seq<char>, Seq<Seq<char>>>, path: Seq<char>) -> BookView {
    BookView {
        title: first_value(m, "title"@).unwrap(),
        author: first_value(m, "creator"@).unwrap_or(Seq::empty()),
        book_path: path,
        description: first_value(m, "description"@).unwrap_or(Seq::empty()),
        download_count: 0,
        language: first_value(m, "language"@).unwrap_or(Seq::empty()),
        genres: values_of(m, "subject"@).unwrap_or(Seq::empty()),
    }
}

/// The formats the bot reads books from.
#[derive(Clone, Copy, Debug, PartialEq, Eq, Structural)]
pub enum BookFormat {
    Epub,
}

/// Why an uploaded file is not taken as a book.
#[derive(Clone, Copy, Debug, PartialEq, Eq, Structural)]
pub enum UploadError {
    /// The file name has no extension.
    NoExtension,
    /// The extension is not one of a supported format.
    Unsupported,
}

impl UploadError {
    /// The text the error is reported with.
    pub fn message(&self) -> (text: &'static str)
        ensures
            text@ == (match self {
                UploadError::NoExtension => "Couln't get file extension"@,
                UploadError::Unsupported => "ERRORRRR"@,
            }),
    {
        match self {
            UploadError::NoExtension => "Couln't get file extension",
            UploadError::Unsupported => "ERRORRRR",
        }
    }
}

/// `s` occurs as a contiguous part of `t`.
pub open spec fn is_infix(s: Seq<char>, t: Seq<char>) -> bool {
    exists|i: int| 0 <= i && i + s.len() <= t.len() && #[trigger] t.subrange(i, i + s.len()) == s
}

/// The format an extension stands for.
pub open spec fn format_of_extension(ext: Option<Seq<char>>) -> Result<BookFormat, UploadError> {
    match ext {
        None => Err(UploadError::NoExtension),
        Some(e) => if e == "epub"@ {
            Ok(BookFormat::Epub)
        } else {
            Err(UploadError::Unsupported)
        },
    }
}

/// A path that std splits into the same parts on every platform: it holds no `\`, has
/// no `:` as its second character (a drive prefix such as `C:` on Windows), and does
/// not start with `//` (a UNC prefix on Windows). Every other Windows prefix starts with
/// `\\`.
pub open spec fn is_portable_path(p: Seq<char>) -> bool {
    !p.contains('\\') && !(p.len() >= 2 && p[1] == ':') && !(p.len() >= 2 && p[0] == '/'
        && p[1] == '/')
}

/// The path without what `Path::components` drops at its end: trailing separators and
/// trailing `.` parts.
pub open spec fn trim_path_end(p: Seq<char>) -> Seq<char>
    decreases p.len(),
{
    if p.len() == 0 {
        p
    } else if p.last() == '/' {
        trim_path_end(p.drop_last())
    } else if p == seq!['.'] {
        Seq::empty()
    } else if p.len() >= 2 && p.last() == '.' && p[p.len() - 2] == '/' {
        trim_path_end(p.drop_last().drop_last())
    } else {
        p
    }
}

/// The text after the last `/`.
pub open spec fn last_part(p: Seq<char>) -> Seq<char>
    decreases p.len(),
{
    if p.len() == 0 {
        p
    } else if p.last() == '/' {
        Seq::empty()
    } else {
        last_part(p.drop_last()).push(p.last())
    }
}

/// `Path::file_name` of a portable path: its last part, unless that is `..` or there is none.
pub open spec fn file_name_of(p: Seq<char>) -> Option<Seq<char>> {
    let name = last_part(trim_path_end(p));
    if name.len() == 0 || name == seq!['.', '.'] {
        None
    } else {
        Some(name)
    }
}

/// The position of the last `.` in `s`.
pub open spec fn last_dot(s: Seq<char>) -> Option<int>
    decreases s.len(),
{
    if s.len() == 0 {
        None
    } else if s.last() == '.' {
        Some(s.len() - 1)
    } else {
        last_dot(s.drop_last())
    }
}

/// The extension of a file name: what follows its last `.`, unless there is no `.` or
/// the only one starts the name.
pub open spec fn extension_of_name(name: Seq<char>) -> Option<Seq<char>> {
    match last_dot(name) {
        Some(i) => if i == 0 {
            None
        } else {
            Some(name.subrange(i + 1, name.len() as int))
        },
        None => None,
    }
}

/// `Path::extension` of a portable path.
pub open spec fn portable_extension(p: Seq<char>) -> Option<Seq<char>> {
    match file_name_of(p) {
        Some(name) => extension_of_name(name),
        None => None,
    }
}

pub open spec fn opt_text(s: Option<String>) -> Option<Seq<char>> {
    match s {
        Some(t) => Some(t@),
        None => None,
    }
}

/// The extension of the file name in `path`, by `std::path::Path::extension`.
///
/// Trusted, as std documents `extension`, `file_name` and `components`: the extension is
/// the part of the file name after its final `.` (none if there is no `.`, or the only
/// one begins the name), the file name is the last component (none if it is `..`), and
/// repeated separators, trailing separators and `.` components are dropped. For a path
/// that every platform splits alike this fixes the result; for any path, an extension
/// holds no `.` and follows a `.` somewhere in the path.
#[verifier::external_body]
fn file_extension(path: &str) -> (ext: Option<String>)
    ensures
        is_portable_path(path@) ==> opt_text(ext) == portable_extension(path@),
        ext matches Some(e) ==> !e@.contains('.') && is_infix(seq!['.'] + e@, path@),
{
    std::path::Path::new(path).extension().map(|e| e.to_string_lossy().into_owned())
}

/// Recognises uploaded files and reads books out of them.
pub struct FileType {}

impl FileType {
    /// The format of a file with extension `ext`: only `epub` is read.
    pub fn from_extension(ext: Option<&str>) -> (r: Result<BookFormat, UploadError>)
        ensures
            r == format_of_extension(match ext {
                Some(e) => Some(e@),
                None => None,
            }),
    {
        match ext {
            None => Err(UploadError::NoExtension),
            Some(e) => {
                let e = String::from_str(e);
                let epub = String::from_str("epub");
                if e == epub {
                    Ok(BookFormat::Epub)
                } else {
                    Err(UploadError::Unsupported)
                }
            },
        }
    }

    /// The format of the uploaded file at `path`, judged by its extension.
    pub fn parse(path: &str) -> (r: Result<BookFormat, UploadError>)
        ensures
            exists|ext: Option<Seq<char>>|
                {
                    &&& r == format_of_extension(ext)
                    &&& ext matches Some(e) ==> is_infix(seq!['.'] + e, path@)
                },
            r is Ok ==> is_infix(".epub"@, path@),
            is_portable_path(path@) ==> r == format_of_extension(portable_extension(path@)),
    {
        let ext = file_extension(path);
        let r = match &ext {
            Some(e) => FileType::from_extension(Some(e.as_str())),
            None => FileType::from_extension(None),
        };
        proof {
            let ev: Option<Seq<char>> = match ext {
                Some(e) => Some(e@),
                None => None,
            };
            assert(r == format_of_extension(ev));
            if r is Ok {
                reveal_strlit(".epub");
                reveal_strlit("epub");
                assert(seq!['.'] + "epub"@ =~= ".epub"@);
            }
        }
        r
    }

    /// The first value of the metadata named `tag`.
    pub fn parse_tag(meta: &EpubMetadata, tag: &str) -> (r: Option<String>)
        ensures
            r matches Some(v) ==> first_value(metadata_map(meta.entries@), tag@) == Some(v@),
            r is None ==> first_value(metadata_map(meta.entries@), tag@) is None,
    {
        match FileType::parse_tags(meta, tag) {
            Some(values) => {
                if values.len() > 0 {
                    let v = values[0].clone();
                    Some(v)
                } else {
                    None
                }
            },
            None => None,
        }
    }

    /// Every value of the metadata named `tag`.
    pub fn parse_tags(meta: &EpubMetadata, tag: &str) -> (r: Option<Vec<String>>)
        ensures
            r matches Some(vs) ==> values_of(metadata_map(meta.entries@), tag@) == Some(vs.deep_view()),
            r is None ==> values_of(metadata_map(meta.entries@), tag@) is None,
    {
        let name = String::from_str(tag);
        let n = meta.entries.len();
        let mut i: usize = 0;
        assert(meta.entries@.skip(0) =~= meta.entries@);
        while i < n
            invariant
                n == meta.entries.len(),
                i <= n,
                name@ == tag@,
                values_of(metadata_map(meta.entries@), tag@) == values_of(metadata_map(meta.entries@.skip(i as int)), tag@),
            decreases n - i,
        {
            let entry = &meta.entries[i];
            proof {
                let rest = meta.entries@.skip(i as int);
                assert(rest[0] == meta.entries@[i as int]);
                assert(rest.drop_first() =~= meta.entries@.skip(i + 1));
            }
            if entry.name == name {
                let values = entry.values.clone();
                proof {
                    assert(values.deep_view() =~= entry.values.deep_view());
                }
                return Some(values);
            }
            i = i + 1;
        }
        proof {
            assert(meta.entries@.skip(n as int) =~= Seq::<MetadataEntry>::empty());
        }
        None
    }

    /// The book described by `meta`, stored at `book_path`.
    pub fn book_from_metadata(meta: &EpubMetadata, book_path: &str) -> (book: Book)
        requires
            first_value(metadata_map(meta.entries@), "title"@) is Some,
        ensures
            book@ == book_from_metadata(metadata_map(meta.entries@), book_path@),
            book.title@ == first_value(metadata_map(meta.entries@), "title"@)->Some_0,
            book.author@ == first_value(metadata_map(meta.entries@), "creator"@).unwrap_or(Seq::empty()),
            book.description@ == first_value(metadata_map(meta.entries@), "description"@).unwrap_or(
                Seq::empty(),
            ),
            book.language@ == first_value(metadata_map(meta.entries@), "language"@).unwrap_or(
                Seq::empty(),
            ),
            book.genres.deep_view() == values_of(metadata_map(meta.entries@), "subject"@).unwrap_or(
                Seq::empty(),
            ),
            book.book_path@ == book_path@,
            book.download_count == 0,
    {
        let title = FileType::parse_tag(meta, "title").unwrap();
        let author = match FileType::parse_tag(meta, "creator") {
            Some(v) => v,
            None => String::new(),
        };
        let description = match FileType::parse_tag(meta, "description") {
            Some(v) => v,
            None => String::new(),
        };
        let language = match FileType::parse_tag(meta, "language") {
            Some(v) => v,
            None => String::new(),
        };
        let genres = match FileType::parse_tags(meta, "subject") {
            Some(v) => v,
            None => Vec::new(),
        };
        let book = Book {
            title,
            author,
            book_path: String::from_str(book_path),
            description,
            download_count: 0,
            language,
            genres,
        };
        proof {
            assert(book.genres.deep_view() =~= book_from_metadata(
                metadata_map(meta.entries@),
                book_path@,
            ).genres);
        }
        book
    }

    /// Reads the book an e-book's metadata describes, for the file at `book_path`;
    /// `None` when the metadata names no title.
    pub fn parse_epub(meta: &EpubMetadata, book_path: &str) -> (r: Option<Book>)
        ensures
            r is Some <==> first_value(metadata_map(meta.entries@), "title"@) is Some,
            r matches Some(book) ==> book@ == book_from_metadata(metadata_map(meta.entries@), book_path@),
            r matches Some(book) ==> {
                let m = metadata_map(meta.entries@);
                &&& book.title@ == first_value(m, "title"@)->Some_0
                &&& book.author@ == first_value(m, "creator"@).unwrap_or(Seq::empty())
                &&& book.description@ == first_value(m, "description"@).unwrap_or(Seq::empty())
                &&& book.language@ == first_value(m, "language"@).unwrap_or(Seq::empty())
                &&& book.genres.deep_view() == values_of(m, "subject"@).unwrap_or(Seq::empty())
                &&& book.book_path@ == book_path@
                &&& book.download_count == 0
            },
    {
        if FileType::parse_tag(meta, "title").is_none() {
            None
        } else {
            Some(FileType::book_from_metadata(meta, book_path))
        }
    }
}


/// The book read from metadata takes each field from its own tag, whatever the other
/// tags hold: the first title, the first creator, description and language (empty when
/// absent), every subject as a genre, the given path, and no downloads.
pub proof fn book_fields_come_from_their_tags(m: Map<Seq<char>, Seq<Seq<char>>>, path: Seq<char>)
    ensures
        book_from_metadata(m, path).title == first_value(m, "title"@)->Some_0,
        book_from_metadata(m, path).author == first_value(m, "creator"@).unwrap_or(Seq::empty()),
        book_from_metadata(m, path).description == first_value(m, "description"@).unwrap_or(
            Seq::empty(),
        ),
        book_from_metadata(m, path).language == first_value(m, "language"@).unwrap_or(Seq::empty()),
        book_from_metadata(m, path).genres == values_of(m, "subject"@).unwrap_or(Seq::empty()),
        book_from_metadata(m, path).book_path == path,
        book_from_metadata(m, path).download_count == 0,
{
}

/// Looking a name up in the metadata finds the values of the first entry with that
/// name, and nothing when no entry has it.
pub proof fn metadata_lookup_finds_first_entry(entries: Seq<MetadataEntry>, name: Seq<char>)
    ensures
        (forall|j: int| 0 <= j < entries.len() ==> #[trigger] entries[j].name@ != name) ==> values_of(
            metadata_map(entries),
            name,
        ) is None,
        forall|i: int|
            0 <= i < entries.len() && #[trigger] entries[i].name@ == name && (forall|j: int|
                0 <= j < i ==> #[trigger] entries[j].name@ != name) ==> values_of(metadata_map(entries), name)
                == Some(entries[i].values.deep_view()),
    decreases entries.len(),
{
    if entries.len() > 0 {
        let rest = entries.drop_first();
        metadata_lookup_finds_first_entry(rest, name);
        assert forall|i: int|
            0 <= i < entries.len() && #[trigger] entries[i].name@ == name && (forall|j: int|
                0 <= j < i ==> #[trigger] entries[j].name@ != name) implies values_of(
            metadata_map(entries),
            name,
        ) == Some(entries[i].values.deep_view()) by {
            if i > 0 {
                assert(rest[i - 1] == entries[i]);
                assert forall|j: int| 0 <= j < i - 1 implies #[trigger] rest[j].name@ != name by {
                    assert(rest[j] == entries[j + 1]);
                }
            }
        }
        if forall|j: int| 0 <= j < entries.len() ==> #[trigger] entries[j].name@ != name {
            assert(entries[0].name@ != name);
            assert forall|j: int| 0 <= j < rest.len() implies #[trigger] rest[j].name@ != name by {
                assert(rest[j] == entries[j + 1]);
            }
        }
    }
}

/// Only the extension `epub` is read as a book; no extension and any other extension
/// are refused, each with its own error.
pub proof fn only_epub_is_read(ext: Option<Seq<char>>)
    ensures
        format_of_extension(ext) is Ok <==> ext == Some("epub"@),
        format_of_extension(ext) == Err::<BookFormat, UploadError>(UploadError::NoExtension) <==> ext is None,
        format_of_extension(ext) == Err::<BookFormat, UploadError>(UploadError::Unsupported) <==> (ext is Some
            && ext != Some("epub"@)),
{
}


/// The first value of a name is the first of its values, and there is none when the
/// name is absent or has no value.
pub proof fn first_value_is_the_first_of_the_values(m: Map<Seq<char>, Seq<Seq<char>>>, name: Seq<char>)
    ensures
        m.dom().contains(name) && m[name].len() > 0 ==> first_value(m, name) == Some(m[name][0]),
        !m.dom().contains(name) || m[name].len() == 0 ==> first_value(m, name) is None,
        values_of(m, name) == if m.dom().contains(name) {
            Some(m[name])
        } else {
            None
        },
{
}


proof fn last_part_after_slash(q: Seq<char>, name: Seq<char>)
    requires
        !name.contains('/'),
    ensures
        last_part(q + seq!['/'] + name) == name,
    decreases name.len(),
{
    let p = q + seq!['/'] + name;
    if name.len() == 0 {
        assert(p.last() == '/');
    } else {
        assert(p.drop_last() =~= q + seq!['/'] + name.drop_last());
        assert(!name.drop_last().contains('/')) by {
            if name.drop_last().contains('/') {
                let k = choose|k: int| 0 <= k < name.drop_last().len() && name.drop_last()[k] == '/';
                assert(name[k] == '/');
            }
        }
        last_part_after_slash(q, name.drop_last());
        assert(p.last() == name.last());
        assert(name.last() != '/') by {
            assert(name[name.len() - 1] == name.last());
        }
        assert(name.drop_last().push(name.last()) =~= name);
    }
}

proof fn last_dot_before_suffix(stem: Seq<char>, ext: Seq<char>)
    requires
        !ext.contains('.'),
    ensures
        last_dot(stem + seq!['.'] + ext) == Some(stem.len() as int),
    decreases ext.len(),
{
    let s = stem + seq!['.'] + ext;
    if ext.len() == 0 {
        assert(s.last() == '.');
    } else {
        assert(s.drop_last() =~= stem + seq!['.'] + ext.drop_last());
        assert(!ext.drop_last().contains('.')) by {
            if ext.drop_last().contains('.') {
                let k = choose|k: int| 0 <= k < ext.drop_last().len() && ext.drop_last()[k] == '.';
                assert(ext[k] == '.');
            }
        }
        last_dot_before_suffix(stem, ext.drop_last());
        assert(s.last() == ext[ext.len() - 1]);
    }
}

/// The extension of a path whose last part is a file name `stem.ext` (after a `/`, with
/// a nonempty stem) is `ext`, when `ext` has no `.`: the path is read as a book exactly
/// when `ext` is `epub`.
pub proof fn extension_of_a_file_in_a_directory(dir: Seq<char>, stem: Seq<char>, ext: Seq<char>)
    requires
        stem.len() > 0,
        !stem.contains('/'),
        !ext.contains('.'),
        !ext.contains('/'),
        ext.len() > 0,
    ensures
        portable_extension(dir + seq!['/'] + (stem + seq!['.'] + ext)) == Some(ext),
        format_of_extension(portable_extension(dir + seq!['/'] + (stem + seq!['.'] + ext))) is Ok
            <==> ext == "epub"@,
{
    let name = stem + seq!['.'] + ext;
    let p = dir + seq!['/'] + name;
    assert(!name.contains('/')) by {
        if name.contains('/') {
            let k = choose|k: int| 0 <= k < name.len() && name[k] == '/';
            if k < stem.len() {
                assert(stem[k] == '/');
            } else if k > stem.len() {
                assert(ext[k - stem.len() - 1] == '/');
            }
        }
    }
    // the path ends in the last character of `ext`, which is neither `/` nor `.`
    assert(p.last() == ext[ext.len() - 1]);
    assert(ext[ext.len() - 1] != '/' && ext[ext.len() - 1] != '.');
    assert(trim_path_end(p) == p);
    last_part_after_slash(dir, name);
    assert(name.len() > 2);
    assert(name != seq!['.', '.']);
    last_dot_before_suffix(stem, ext);
    assert(name.subrange(stem.len() as int + 1, name.len() as int) =~= ext);
}

} // verus!
