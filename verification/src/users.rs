use vstd::prelude::*;

verus! {

/// A person talking to the bot, identified by the chat it writes from.
#[derive(Debug)]
pub struct User {
    /// Database identifier; absent until the user has been stored.
    pub user_id: Option<i64>,
    /// How many books this user has uploaded.
    pub books_created: i32,
    /// The Telegram chat the user writes from.
    pub chat_id: i64,
    /// Whether the user may administer the bot.
    pub is_admin: bool,
}

impl User {
    /// A fresh user of the given chat: not yet stored, no uploads, no admin rights.
    pub fn new(chat_id: i64) -> (user: User)
        ensures
            user.user_id is None,
            user.books_created == 0,
            user.chat_id == chat_id,
            !user.is_admin,
    {
        User { user_id: None, books_created: 0, chat_id, is_admin: false }
    }
}

} // verus!
