//! The logic of a Telegram bot that shares e-books: which handler an update goes to,
//! what each handler answers and how the dialogue moves on, the steps of an upload with
//! its limit, reading a book out of an uploaded e-book, and reading books out of
//! database rows. The bot itself (Telegram, the database, files) drives this logic.

pub mod books;
pub mod db;
pub mod dialogue;
pub mod routing;
pub mod upload;
pub mod users;
