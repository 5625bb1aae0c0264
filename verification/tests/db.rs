use book_bot::books::Book;
use book_bot::db::{BookColumn, BookRow, Usr, DB};

fn full_row(title: &str) -> BookRow {
    BookRow {
        title: Some(title.to_string()),
        author: Some("Author".to_string()),
        book_path: Some(format!("./books/{}.epub", title)),
        description: Some("About".to_string()),
        download_count: Some(7),
        language: Some("en".to_string()),
        genre: Some(vec!["Drama".to_string(), "Poetry".to_string()]),
    }
}

#[test]
fn row_book_reads_every_column() {
    let book = Book::row_book(&full_row("Odes")).unwrap();
    assert_eq!(book.title, "Odes");
    assert_eq!(book.author, "Author");
    assert_eq!(book.book_path, "./books/Odes.epub");
    assert_eq!(book.description, "About");
    assert_eq!(book.download_count, 7);
    assert_eq!(book.language, "en");
    assert_eq!(book.genres, vec!["Drama".to_string(), "Poetry".to_string()]);
}

#[test]
fn row_book_names_the_first_missing_column() {
    let mut row = full_row("x");
    row.genre = None;
    assert_eq!(Book::row_book(&row).unwrap_err(), BookColumn::Genre);
    row.language = None;
    assert_eq!(Book::row_book(&row).unwrap_err(), BookColumn::Language);
    row.download_count = None;
    assert_eq!(Book::row_book(&row).unwrap_err(), BookColumn::DownloadCount);
    row.description = None;
    assert_eq!(Book::row_book(&row).unwrap_err(), BookColumn::Description);
    row.book_path = None;
    assert_eq!(Book::row_book(&row).unwrap_err(), BookColumn::BookPath);
    row.author = None;
    assert_eq!(Book::row_book(&row).unwrap_err(), BookColumn::Author);
    row.title = None;
    assert_eq!(Book::row_book(&row).unwrap_err(), BookColumn::Title);
}

#[test]
fn collect_books_skips_broken_rows_in_order() {
    let mut broken = full_row("broken");
    broken.author = None;
    let mut broken_too = full_row("also broken");
    broken_too.genre = None;
    let rows = vec![full_row("a"), broken, full_row("b"), broken_too, full_row("c")];
    let (books, failures) = DB::collect_books(&rows);
    let titles: Vec<&str> = books.iter().map(|b| b.title.as_str()).collect();
    assert_eq!(titles, vec!["a", "b", "c"]);
    assert_eq!(failures, vec![BookColumn::Author, BookColumn::Genre]);
}

#[test]
fn collect_books_of_nothing() {
    let (books, failures) = DB::collect_books(&Vec::new());
    assert!(books.is_empty());
    assert!(failures.is_empty());
}

#[test]
fn column_names() {
    assert_eq!(BookColumn::Title.name(), "title");
    assert_eq!(BookColumn::Author.name(), "author");
    assert_eq!(BookColumn::BookPath.name(), "book_path");
    assert_eq!(BookColumn::Description.name(), "description");
    assert_eq!(BookColumn::DownloadCount.name(), "download_count");
    assert_eq!(BookColumn::Language.name(), "language");
    assert_eq!(BookColumn::Genre.name(), "genre");
}

#[test]
fn only_unknown_users_are_inserted() {
    assert!(Usr::create_new_user(false));
    assert!(!Usr::create_new_user(true));
}
