# book_bot

A Telegram bot that shares e-books: admins upload EPUB files (at most five each),
search books by title, list the five most downloaded ones and download or delete them.

The decisions of the bot are a Verus-verified library under `src/`:

- `routing`: which handler an update goes to, given the chat's dialogue state.
- `dialogue`: what each handler answers and how the dialogue moves on, as a list of
  actions (messages, dialogue changes, outside work to do).
- `upload`: the upload of a book as a state machine, with its limit, and the local path
  an upload is saved to.
- `books`: books, the book an EPUB's metadata describes, and recognising uploads by
  their extension.
- `db`: reading books out of rows of the `books` table.
- `users`: the users of the bot.

`app/` is the bot itself: it talks to Telegram (teloxide) and PostgreSQL (sqlx),
opens uploaded EPUBs (epub), runs the library's handlers and performs the actions
they return.
