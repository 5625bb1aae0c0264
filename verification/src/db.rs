use vstd::prelude::*;

use crate::books::{Book, BookView};

verus! {

/// The columns a book is read from, in the order they are read.
#[derive(Clone, Copy, Debug, PartialEq, Eq, Structural)]
pub enum BookColumn {
    Title,
    Author,
    BookPath,
    Description,
    DownloadCount,
    Language,
    Genre,
}

impl BookColumn {
    /// The column's name in the `books` table.
    pub fn name(&self) -> (name: &'static str)
        ensures
            name@ == (match self {
                BookColumn::Title => "title"@,
                BookColumn::Author => "author"@,
                BookColumn::BookPath => "book_path"@,
                BookColumn::Description => "description"@,
                BookColumn::DownloadCount => "download_count"@,
                BookColumn::Language => "language"@,
                BookColumn::Genre => "genre"@,
            }),
    {
        match self {
            BookColumn::Title => "title",
            BookColumn::Author => "author",
            BookColumn::BookPath => "book_path",
            BookColumn::Description => "description",
            BookColumn::DownloadCount => "download_count",
            BookColumn::Language => "language",
            BookColumn::Genre => "genre",
        }
    }
}

/// A row of the `books` table as the database handed it over: each column's value,
/// or `None` where the column is missing or does not decode to its type.
#[derive(Debug)]
pub struct BookRow {
    pub title: Option<String>,
    pub author: Option<String>,
    pub book_path: Option<String>,
    pub description: Option<String>,
    pub download_count: Option<i32>,
    pub language: Option<String>,
    pub genre: Option<Vec<String>>,
}

/// The book a row holds, or the first column (in reading order) that it lacks.
pub open spec fn row_result(row: BookRow) -> Result<BookView, BookColumn> {
    if row.title is None {
        Err(BookColumn::Title)
    } else if row.author is None {
        Err(BookColumn::Author)
    } else if row.book_path is None {
        Err(BookColumn::BookPath)
    } else if row.description is None {
        Err(BookColumn::Description)
    } else if row.download_count is None {
        Err(BookColumn::DownloadCount)
    } else if row.language is None {
        Err(BookColumn::Language)
    } else if row.genre is None {
        Err(BookColumn::Genre)
    } else {
        Ok(
            BookView {
                title: row.title->Some_0@,
                author: row.author->Some_0@,
                book_path: row.book_path->Some_0@,
                description: row.description->Some_0@,
                download_count: row.download_count->Some_0 as int,
                language: row.language->Some_0@,
                genres: row.genre->Some_0.deep_view(),
            },
        )
    }
}

/// Every column of the row is present.
pub open spec fn row_is_complete(row: BookRow) -> bool {
    &&& row.title is Some
    &&& row.author is Some
    &&& row.book_path is Some
    &&& row.description is Some
    &&& row.download_count is Some
    &&& row.language is Some
    &&& row.genre is Some
}

/// A row reads as a book exactly when every column is present, whatever the values
/// (an empty genre list included); the book holds the columns' values. Otherwise the
/// error names the first missing column in reading order.
pub proof fn row_reading_takes_each_column(row: BookRow)
    ensures
        row_result(row) is Ok <==> row_is_complete(row),
        row.title is None ==> row_result(row) == Err::<BookView, BookColumn>(BookColumn::Title),
        row.title is Some && row.author is None ==> row_result(row) == Err::<BookView, BookColumn>(
            BookColumn::Author,
        ),
        row.title is Some && row.author is Some && row.book_path is None ==> row_result(row) == Err::<
            BookView,
            BookColumn,
        >(BookColumn::BookPath),
        row.title is Some && row.author is Some && row.book_path is Some && row.description is None
            ==> row_result(row) == Err::<BookView, BookColumn>(BookColumn::Description),
        row.title is Some && row.author is Some && row.book_path is Some && row.description is Some
            && row.download_count is None ==> row_result(row) == Err::<BookView, BookColumn>(
            BookColumn::DownloadCount,
        ),
        row.title is Some && row.author is Some && row.book_path is Some && row.description is Some
            && row.download_count is Some && row.language is None ==> row_result(row) == Err::<
            BookView,
            BookColumn,
        >(BookColumn::Language),
        row.title is Some && row.author is Some && row.book_path is Some && row.description is Some
            && row.download_count is Some && row.language is Some && row.genre is None ==> row_result(row)
            == Err::<BookView, BookColumn>(BookColumn::Genre),
        row_result(row) matches Ok(b) ==> {
            &&& b.title == row.title->Some_0@
            &&& b.author == row.author->Some_0@
            &&& b.book_path == row.book_path->Some_0@
            &&& b.description == row.description->Some_0@
            &&& b.download_count == row.download_count->Some_0 as int
            &&& b.language == row.language->Some_0@
            &&& b.genres == row.genre->Some_0.deep_view()
        },
{
}

/// The books that the rows hold, in row order; rows lacking a column are left out.
pub open spec fn books_of_rows(rows: Seq<BookRow>) -> Seq<BookView>
    decreases rows.len(),
{
    if rows.len() == 0 {
        Seq::empty()
    } else {
        let before = books_of_rows(rows.drop_last());
        match row_result(rows.last()) {
            Ok(b) => before.push(b),
            Err(_) => before,
        }
    }
}

/// For each row that lacks a column, in row order, the first column it lacks.
pub open spec fn failures_of_rows(rows: Seq<BookRow>) -> Seq<BookColumn>
    decreases rows.len(),
{
    if rows.len() == 0 {
        Seq::empty()
    } else {
        let before = failures_of_rows(rows.drop_last());
        match row_result(rows.last()) {
            Ok(_) => before,
            Err(c) => before.push(c),
        }
    }
}


/// Collecting rows loses none: each row gives either a book or a failure.
pub proof fn every_row_is_accounted_for(rows: Seq<BookRow>)
    ensures
        books_of_rows(rows).len() + failures_of_rows(rows).len() == rows.len(),
    decreases rows.len(),
{
    if rows.len() > 0 {
        every_row_is_accounted_for(rows.drop_last());
    }
}

/// One more row adds its book at the end of the books when it reads as one, and its
/// missing column at the end of the failures otherwise.
pub proof fn each_row_adds_its_book(rows: Seq<BookRow>, row: BookRow)
    ensures
        row_result(row) matches Ok(b) ==> books_of_rows(rows.push(row)) == books_of_rows(rows).push(b)
            && failures_of_rows(rows.push(row)) == failures_of_rows(rows),
        row_result(row) matches Err(c) ==> books_of_rows(rows.push(row)) == books_of_rows(rows)
            && failures_of_rows(rows.push(row)) == failures_of_rows(rows).push(c),
{
    assert(rows.push(row).drop_last() =~= rows);
}

/// The books collected from rows that all read as books are those rows' books, in order.
pub proof fn complete_rows_are_all_kept(rows: Seq<BookRow>)
    requires
        forall|i: int| 0 <= i < rows.len() ==> row_is_complete(#[trigger] rows[i]),
    ensures
        books_of_rows(rows).len() == rows.len(),
        failures_of_rows(rows).len() == 0,
        forall|i: int| 0 <= i < rows.len() ==> row_result(#[trigger] rows[i]) == Ok::<BookView, BookColumn>(
            books_of_rows(rows)[i],
        ),
    decreases rows.len(),
{
    if rows.len() > 0 {
        let before = rows.drop_last();
        assert forall|i: int| 0 <= i < before.len() implies row_is_complete(#[trigger] before[i]) by {
            assert(before[i] == rows[i]);
        }
        complete_rows_are_all_kept(before);
        row_reading_takes_each_column(rows.last());
        assert forall|i: int| 0 <= i < rows.len() implies row_result(#[trigger] rows[i]) == Ok::<
            BookView,
            BookColumn,
        >(books_of_rows(rows)[i]) by {
            if i < before.len() {
                assert(before[i] == rows[i]);
            }
        }
    }
}

fn copy_text(s: &Option<String>) -> (r: Option<String>)
    ensures
        r is Some == s is Some,
        r is Some ==> r->Some_0@ == s->Some_0@,
{
    match s {
        Some(t) => Some(t.clone()),
        None => None,
    }
}

impl Book {
    /// Reads a book out of a row of the `books` table, column by column; the first
    /// column that is missing or does not decode is the error.
    pub fn row_book(row: &BookRow) -> (r: Result<Book, BookColumn>)
        ensures
            match (r, row_result(*row)) {
                (Ok(b), Ok(v)) => b@ == v,
                (Err(c), Err(d)) => c == d,
                _ => false,
            },
            r is Ok <==> row_is_complete(*row),
            r matches Ok(b) ==> {
                &&& b.title@ == row.title->Some_0@
                &&& b.author@ == row.author->Some_0@
                &&& b.book_path@ == row.book_path->Some_0@
                &&& b.description@ == row.description->Some_0@
                &&& b.download_count == row.download_count->Some_0
                &&& b.language@ == row.language->Some_0@
                &&& b.genres.deep_view() == row.genre->Some_0.deep_view()
            },
    {
        proof {
            row_reading_takes_each_column(*row);
        }
        let title = match copy_text(&row.title) {
            Some(t) => t,
            None => return Err(BookColumn::Title),
        };
        let author = match copy_text(&row.author) {
            Some(t) => t,
            None => return Err(BookColumn::Author),
        };
        let book_path = match copy_text(&row.book_path) {
            Some(t) => t,
            None => return Err(BookColumn::BookPath),
        };
        let description = match copy_text(&row.description) {
            Some(t) => t,
            None => return Err(BookColumn::Description),
        };
        let download_count = match row.download_count {
            Some(n) => n,
            None => return Err(BookColumn::DownloadCount),
        };
        let language = match copy_text(&row.language) {
            Some(t) => t,
            None => return Err(BookColumn::Language),
        };
        let genres = match &row.genre {
            Some(g) => g.clone(),
            None => return Err(BookColumn::Genre),
        };
        let book = Book { title, author, book_path, description, download_count, language, genres };
        proof {
            assert(book.genres.deep_view() =~= row.genre->Some_0.deep_view());
        }
        Ok(book)
    }
}

/// Operations on the `books` table.
pub struct DB;

impl DB {
    /// Turns the rows a query returned into books, keeping row order. Rows that lack
    /// a column are left out; the second result names, per such row, the column it lacked.
    pub fn collect_books(rows: &Vec<BookRow>) -> (r: (Vec<Book>, Vec<BookColumn>))
        ensures
            r.0@.map_values(|b: Book| b@) == books_of_rows(rows@),
            r.1@ == failures_of_rows(rows@),
            r.0.len() + r.1.len() == rows.len(),
    {
        proof {
            every_row_is_accounted_for(rows@);
        }
        let mut books: Vec<Book> = Vec::new();
        let mut failures: Vec<BookColumn> = Vec::new();
        let n = rows.len();
        let mut i: usize = 0;
        while i < n
            invariant
                n == rows.len(),
                i <= n,
                books@.map_values(|b: Book| b@) == books_of_rows(rows@.take(i as int)),
                failures@ == failures_of_rows(rows@.take(i as int)),
            decreases n - i,
        {
            proof {
                assert(rows@.take(i + 1).drop_last() =~= rows@.take(i as int));
                assert(rows@.take(i + 1).last() == rows@[i as int]);
            }
            match Book::row_book(&rows[i]) {
                Ok(book) => {
                    let ghost before = books@;
                    books.push(book);
                    proof {
                        assert(books@.map_values(|b: Book| b@) =~= before.map_values(|b: Book| b@).push(
                            book@,
                        ));
                    }
                },
                Err(column) => {
                    failures.push(column);
                },
            }
            i = i + 1;
        }
        proof {
            assert(rows@.take(n as int) =~= rows@);
        }
        (books, failures)
    }
}

/// Operations on the `users` table.
pub struct Usr;

impl Usr {
    /// Whether registering a chat inserts a new user: only when no user of that chat
    /// is stored yet.
    pub fn create_new_user(already_stored: bool) -> (insert: bool)
        ensures
            insert == !already_stored,
            forall|stored: Set<i64>, chat: i64|
                stored.contains(chat) == already_stored ==> #[trigger] users_after_registration(
                    stored,
                    chat,
                ) == if insert {
                    stored.insert(chat)
                } else {
                    stored
                },
    {
        !already_stored
    }
}

/// The chats with a stored user after registering `chat`, where the `users` table holds
/// the chats in `stored`: a user is inserted only when `Usr::create_new_user` says so,
/// and an insert stores the chat.
pub open spec fn users_after_registration(stored: Set<i64>, chat: i64) -> Set<i64> {
    if !stored.contains(chat) {
        stored.insert(chat)
    } else {
        stored
    }
}

/// Registering is idempotent: after one registration the chat is stored, and
/// registering it again changes nothing.
pub proof fn registering_twice_changes_nothing(stored: Set<i64>, chat: i64)
    ensures
        users_after_registration(stored, chat).contains(chat),
        users_after_registration(users_after_registration(stored, chat), chat)
            == users_after_registration(stored, chat),
        stored.contains(chat) ==> users_after_registration(stored, chat) == stored,
{
}

} // verus!
