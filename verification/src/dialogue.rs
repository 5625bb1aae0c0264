use vstd::prelude::*;

use crate::books::{Book, BookView};

verus! {

// ---------------------------------------------------------------------------
// What the bot says
// ---------------------------------------------------------------------------

pub const ACCOUNT_CREATED: &'static str = "Your account has been created!!!\n";

pub const START_FAILED: &'static str = "Something went wrong :(\nCancelling the dialogue";

pub const CANCELLING: &'static str = "Cancelling the dialogue.";

pub const ENTER_BOOK_NAME: &'static str = "Enter a book's name";

pub const UPLOAD_PROMPT: &'static str = "Upload a book.\nUnfortunately only .epub format is supported right now.";

pub const ADMINS_ONLY: &'static str = "Uploading a book is for admins only.";

pub const NO_BOOKS_WERE_FOUND: &'static str = "No books were found.";

pub const NO_BOOKS_FOUND: &'static str = "No books found :(";

pub const SELECT_BOOK: &'static str = "Select a book:";

pub const SERVER_ERROR: &'static str = "Server error :(.";

pub const DB_ERROR: &'static str = "Some error with db";

pub const ACTION_CANCELLED: &'static str = "Action cancelled";

pub const BOOK_REMOVED: &'static str = "Successfully removed your book";

pub const REMOVE_FILE_ERROR: &'static str = "Error removing file :(";

pub const DELETE_BOOK_ERROR: &'static str = "ERROR deleting book from db :(";

pub const INVALID_STATE: &'static str = "Unable to handle the message. Type /help to see the usage.";

// ---------------------------------------------------------------------------
// Dialogue states and commands
// ---------------------------------------------------------------------------

/// The stage a chat's dialogue is in.
#[derive(Clone, Copy, Debug, PartialEq, Eq, Structural)]
pub enum State {
    Start,
    UploadBook,
    SearchBook,
    ReceiveBookChoice,
    ReceiveBookDelete,
}

impl Default for State {
    /// A chat without a stored dialogue is at the start.
    fn default() -> (s: State)
        ensures
            s == State::Start,
    {
        State::Start
    }
}

/// The commands the bot understands.
#[derive(Clone, Copy, Debug, PartialEq, Eq, Structural)]
pub enum Command {
    Start,
    Help,
    Cancel,
    SearchBook,
    UploadBook,
    TopFive,
}

/// What happens to a chat's dialogue.
#[derive(Clone, Copy, Debug, PartialEq, Eq, Structural)]
pub enum DialogueOp {
    /// Store this state.
    Update(State),
    /// Leave the dialogue (its stored state is dropped).
    Exit,
    /// Put the dialogue back to its default state.
    Reset,
}

/// The state a chat is in after `op`: an exited or reset dialogue starts over.
pub open spec fn state_after_op(op: DialogueOp) -> State {
    match op {
        DialogueOp::Update(s) => s,
        DialogueOp::Exit => State::Start,
        DialogueOp::Reset => State::Start,
    }
}

// ---------------------------------------------------------------------------
// What the bot does
// ---------------------------------------------------------------------------

/// A button of an inline keyboard: the text shown and the data sent back when pressed.
#[derive(Debug, PartialEq, Eq)]
pub struct Button {
    pub label: String,
    pub data: String,
}

/// A message the bot sends to the chat.
#[derive(Debug, PartialEq, Eq)]
pub enum Reply {
    /// A text message.
    Text(String),
    /// A text message with one row of buttons.
    Choice(String, Vec<Button>),
    /// The file at this path, as a document.
    Document(String),
}

/// One step of work for the caller: a message, a dialogue change, or outside work whose
/// outcome is to be handed back.
#[derive(Debug, PartialEq, Eq)]
pub enum Action {
    Send(Reply),
    Dialogue(DialogueOp),
    /// Look up how many books the chat's user has uploaded.
    LoadUploadCount,
    /// Ask Telegram for the file with this id.
    FetchFile(String),
    /// Create the local file at the second path and download the Telegram file at the
    /// first path into it.
    Download(String, String),
    /// Read the book in the file at this path and store it for the chat's user.
    StoreBook(String),
    /// Remove the local file at this path.
    RemoveFile(String),
    /// Search the books whose title looks like this name.
    SearchBooks(String),
    /// Look up the path of the book with exactly this title (counting a download).
    LookUpBookPath(String),
    /// Delete the chat's book stored at this path.
    DeleteBook(String),
    /// Give up: the handler cannot go on.
    Abort,
}

pub struct ButtonView {
    pub label: Seq<char>,
    pub data: Seq<char>,
}

pub enum ReplyView {
    Text(Seq<char>),
    Choice(Seq<char>, Seq<ButtonView>),
    Document(Seq<char>),
}

pub enum ActionView {
    Send(ReplyView),
    Dialogue(DialogueOp),
    LoadUploadCount,
    FetchFile(Seq<char>),
    Download(Seq<char>, Seq<char>),
    StoreBook(Seq<char>),
    RemoveFile(Seq<char>),
    SearchBooks(Seq<char>),
    LookUpBookPath(Seq<char>),
    DeleteBook(Seq<char>),
    Abort,
}

impl View for Button {
    type V = ButtonView;

    open spec fn view(&self) -> ButtonView {
        ButtonView { label: self.label@, data: self.data@ }
    }
}

impl View for Reply {
    type V = ReplyView;

    open spec fn view(&self) -> ReplyView {
        match self {
            Reply::Text(t) => ReplyView::Text(t@),
            Reply::Choice(t, bs) => ReplyView::Choice(t@, bs@.map_values(|b: Button| b@)),
            Reply::Document(p) => ReplyView::Document(p@),
        }
    }
}

impl View for Action {
    type V = ActionView;

    open spec fn view(&self) -> ActionView {
        match self {
            Action::Send(r) => ActionView::Send(r@),
            Action::Dialogue(op) => ActionView::Dialogue(*op),
            Action::LoadUploadCount => ActionView::LoadUploadCount,
            Action::FetchFile(id) => ActionView::FetchFile(id@),
            Action::Download(from, to) => ActionView::Download(from@, to@),
            Action::StoreBook(p) => ActionView::StoreBook(p@),
            Action::RemoveFile(p) => ActionView::RemoveFile(p@),
            Action::SearchBooks(n) => ActionView::SearchBooks(n@),
            Action::LookUpBookPath(t) => ActionView::LookUpBookPath(t@),
            Action::DeleteBook(p) => ActionView::DeleteBook(p@),
            Action::Abort => ActionView::Abort,
        }
    }
}

pub open spec fn actions_view(acts: Seq<Action>) -> Seq<ActionView> {
    acts.map_values(|a: Action| a@)
}

/// Sending a text.
pub open spec fn say(text: Seq<char>) -> ActionView {
    ActionView::Send(ReplyView::Text(text))
}

/// Storing a dialogue state.
pub open spec fn go_to(s: State) -> ActionView {
    ActionView::Dialogue(DialogueOp::Update(s))
}

/// The state a chat in `s` is in after the actions: the last dialogue change wins.
pub open spec fn state_after(s: State, acts: Seq<ActionView>) -> State
    decreases acts.len(),
{
    if acts.len() == 0 {
        s
    } else {
        let before = state_after(s, acts.drop_last());
        match acts.last() {
            ActionView::Dialogue(op) => state_after_op(op),
            _ => before,
        }
    }
}

/// The last dialogue change decides the state: a stored state is kept, an exited or
/// reset dialogue starts over; messages and outside work leave the state as it was.
pub proof fn last_dialogue_change_decides(s: State, acts: Seq<ActionView>, a: ActionView)
    ensures
        a matches ActionView::Dialogue(op) ==> state_after(s, acts.push(a)) == match op {
            DialogueOp::Update(t) => t,
            DialogueOp::Exit => State::Start,
            DialogueOp::Reset => State::Start,
        },
        !(a is Dialogue) ==> state_after(s, acts.push(a)) == state_after(s, acts),
        state_after(s, Seq::<ActionView>::empty()) == s,
{
    assert(acts.push(a).drop_last() =~= acts);
}

pub(crate) fn text_action(text: &str) -> (a: Action)
    ensures
        a@ == say(text@),
{
    Action::Send(Reply::Text(String::from_str(text)))
}

pub(crate) fn one(a: Action) -> (v: Vec<Action>)
    ensures
        actions_view(v@) == seq![a@],
{
    let mut v = Vec::new();
    v.push(a);
    proof {
        assert(actions_view(v@) =~= seq![a@]);
    }
    v
}

pub(crate) fn two(a: Action, b: Action) -> (v: Vec<Action>)
    ensures
        actions_view(v@) == seq![a@, b@],
{
    let mut v = Vec::new();
    v.push(a);
    v.push(b);
    proof {
        assert(actions_view(v@) =~= seq![a@, b@]);
    }
    v
}

/// Sends `text`, then stores state `s`.
pub(crate) fn say_then(text: &str, s: State) -> (v: Vec<Action>)
    ensures
        actions_view(v@) == seq![say(text@), go_to(s)],
{
    two(text_action(text), Action::Dialogue(DialogueOp::Update(s)))
}

// ---------------------------------------------------------------------------
// Lists of books
// ---------------------------------------------------------------------------

/// One button per book, in order, showing its title and sending it back.
pub open spec fn buttons_of(books: Seq<BookView>) -> Seq<ButtonView> {
    books.map_values(|b: BookView| ButtonView { label: b.title, data: b.title })
}

/// The answer to a list of found books: a choice between their titles, or `empty_text`
/// and back to the start when there is none.
pub open spec fn book_list_actions(books: Seq<BookView>, empty_text: Seq<char>) -> Seq<ActionView> {
    if books.len() == 0 {
        seq![say(empty_text), go_to(State::Start)]
    } else {
        seq![
            ActionView::Send(ReplyView::Choice(SELECT_BOOK@, buttons_of(books))),
            go_to(State::ReceiveBookChoice),
        ]
    }
}

/// A book list gets one button per book, in order, showing the book's title and sending
/// the title back.
pub proof fn one_button_per_book(books: Seq<BookView>)
    ensures
        buttons_of(books).len() == books.len(),
        forall|i: int|
            0 <= i < books.len() ==> (#[trigger] buttons_of(books)[i]).label == books[i].title
                && buttons_of(books)[i].data == books[i].title,
{
}

/// Found books are offered as a choice between all of them, moving the dialogue to the
/// choice; when none was found the user is told so and the dialogue is back at the start.
pub proof fn found_books_are_offered(books: Seq<BookView>, empty_text: Seq<char>)
    ensures
        books.len() > 0 ==> book_list_actions(books, empty_text) == seq![
            ActionView::Send(ReplyView::Choice(SELECT_BOOK@, buttons_of(books))),
            go_to(State::ReceiveBookChoice),
        ],
        books.len() == 0 ==> book_list_actions(books, empty_text) == seq![
            say(empty_text),
            go_to(State::Start),
        ],
{
}

pub open spec fn books_view(books: Seq<Book>) -> Seq<BookView> {
    books.map_values(|b: Book| b@)
}

/// One button per book, labelled with its title and carrying the title as its data.
pub fn book_buttons(books: &Vec<Book>) -> (buttons: Vec<Button>)
    ensures
        buttons@.map_values(|b: Button| b@) == buttons_of(books_view(books@)),
        buttons.len() == books.len(),
        forall|i: int|
            0 <= i < books.len() ==> (#[trigger] buttons@[i]).label@ == books@[i].title@
                && buttons@[i].data@ == books@[i].title@,
{
    let mut buttons: Vec<Button> = Vec::new();
    let n = books.len();
    let mut i: usize = 0;
    while i < n
        invariant
            n == books.len(),
            i <= n,
            buttons@.map_values(|b: Button| b@) == buttons_of(books_view(books@.take(i as int))),
        decreases n - i,
    {
        let title = &books[i].title;
        let button = Button { label: title.clone(), data: title.clone() };
        let ghost before = buttons@;
        buttons.push(button);
        proof {
            let bv = ButtonView { label: books@[i as int].title@, data: books@[i as int].title@ };
            assert(button@ == bv);
            assert(buttons@.map_values(|b: Button| b@) =~= before.map_values(|b: Button| b@).push(bv));
            assert(books@.take(i + 1) =~= books@.take(i as int).push(books@[i as int]));
            assert(buttons_of(books_view(books@.take(i + 1))) =~= buttons_of(
                books_view(books@.take(i as int)),
            ).push(bv));
        }
        i = i + 1;
    }
    proof {
        assert(books@.take(n as int) =~= books@);
        one_button_per_book(books_view(books@));
        assert forall|i: int| 0 <= i < books.len() implies (#[trigger] buttons@[i]).label@
            == books@[i].title@ && buttons@[i].data@ == books@[i].title@ by {
            assert(buttons@.map_values(|b: Button| b@)[i] == buttons@[i]@);
            assert(books_view(books@)[i] == books@[i]@);
        }
    }
    buttons
}

fn book_list(books: &Vec<Book>, empty_text: &str) -> (acts: Vec<Action>)
    ensures
        actions_view(acts@) == book_list_actions(books_view(books@), empty_text@),
{
    if books.len() == 0 {
        say_then(empty_text, State::Start)
    } else {
        let buttons = book_buttons(books);
        let choice = Action::Send(Reply::Choice(String::from_str(SELECT_BOOK), buttons));
        two(choice, Action::Dialogue(DialogueOp::Update(State::ReceiveBookChoice)))
    }
}

// ---------------------------------------------------------------------------
// Command handlers
// ---------------------------------------------------------------------------

/// The answer to `/uploadbook` for a user who is an admin (`Some(true)`), is not, or is
/// not stored (`None`).
pub open spec fn upload_command_actions(admin: Option<bool>) -> Seq<ActionView> {
    if admin == Some(true) {
        seq![say(UPLOAD_PROMPT@), go_to(State::UploadBook)]
    } else {
        seq![say(ADMINS_ONLY@), go_to(State::Start)]
    }
}

/// Uploading is for admins only: `/uploadbook` asks for a file, and moves the dialogue
/// to uploading, exactly when the user is an admin.
pub proof fn uploads_are_for_admins_only(s: State, admin: Option<bool>)
    ensures
        state_after(s, upload_command_actions(admin)) == State::UploadBook <==> admin == Some(true),
        upload_command_actions(admin).contains(say(UPLOAD_PROMPT@)) <==> admin == Some(true),
{
    let acts = upload_command_actions(admin);
    assert(acts.drop_last().drop_last() =~= Seq::<ActionView>::empty());
    if admin != Some(true) {
        reveal_strlit("Uploading a book is for admins only.");
        reveal_strlit("Upload a book.\nUnfortunately only .epub format is supported right now.");
        assert(acts[0] != say(UPLOAD_PROMPT@)) by {
            assert(ADMINS_ONLY@.len() != UPLOAD_PROMPT@.len());
        }
        assert(acts[1] != say(UPLOAD_PROMPT@));
        assert(!acts.contains(say(UPLOAD_PROMPT@)));
    } else {
        assert(acts[0] == say(UPLOAD_PROMPT@));
    }
}

impl Command {
    /// `/start`, once the chat's user has been registered (`registered`) or that failed.
    /// `descriptions` is the list of commands.
    pub fn start(registered: bool, descriptions: &str) -> (acts: Vec<Action>)
        ensures
            actions_view(acts@) == if registered {
                seq![say(ACCOUNT_CREATED@ + descriptions@), go_to(State::Start)]
            } else {
                seq![say(START_FAILED@), ActionView::Dialogue(DialogueOp::Reset)]
            },
    {
        if registered {
            let text = String::from_str(ACCOUNT_CREATED).concat(descriptions);
            two(Action::Send(Reply::Text(text)), Action::Dialogue(DialogueOp::Update(State::Start)))
        } else {
            two(text_action(START_FAILED), Action::Dialogue(DialogueOp::Reset))
        }
    }

    /// `/help`: the list of commands, back at the start.
    pub fn help(descriptions: &str) -> (acts: Vec<Action>)
        ensures
            actions_view(acts@) == seq![say(descriptions@), go_to(State::Start)],
    {
        say_then(descriptions, State::Start)
    }

    /// `/cancel`: leaves the dialogue.
    pub fn cancel() -> (acts: Vec<Action>)
        ensures
            actions_view(acts@) == seq![say(CANCELLING@), ActionView::Dialogue(DialogueOp::Exit)],
    {
        two(text_action(CANCELLING), Action::Dialogue(DialogueOp::Exit))
    }

    /// `/searchbook`: asks for a name.
    pub fn search_book() -> (acts: Vec<Action>)
        ensures
            actions_view(acts@) == seq![say(ENTER_BOOK_NAME@), go_to(State::SearchBook)],
    {
        say_then(ENTER_BOOK_NAME, State::SearchBook)
    }

    /// `/uploadbook`: uploading is for admins only. `admin` is whether the chat's user is
    /// an admin (`None`: no user is stored for the chat). An admin is asked for a file;
    /// anyone else is told that uploads are for admins and stays at the start.
    pub fn upload_book(admin: Option<bool>) -> (acts: Vec<Action>)
        ensures
            actions_view(acts@) == upload_command_actions(admin),
    {
        match admin {
            Some(true) => say_then(UPLOAD_PROMPT, State::UploadBook),
            _ => say_then(ADMINS_ONLY, State::Start),
        }
    }

    /// `/topfive`, once the most downloaded books were loaded (`None`: the query failed).
    pub fn get_top_five(found: Option<&Vec<Book>>) -> (acts: Vec<Action>)
        ensures
            actions_view(acts@) == match found {
                Some(books) => book_list_actions(books_view(books@), NO_BOOKS_WERE_FOUND@),
                None => seq![say(SERVER_ERROR@), go_to(State::Start)],
            },
    {
        match found {
            Some(books) => book_list(books, NO_BOOKS_WERE_FOUND),
            None => say_then(SERVER_ERROR, State::Start),
        }
    }
}

// ---------------------------------------------------------------------------
// State handlers
// ---------------------------------------------------------------------------

impl State {
    /// A message while searching: its text is the name to search for; a message
    /// without text cancels.
    pub fn searching_book(text: Option<&str>) -> (acts: Vec<Action>)
        ensures
            actions_view(acts@) == match text {
                Some(name) => seq![ActionView::SearchBooks(name@)],
                None => seq![say(ACTION_CANCELLED@), go_to(State::Start)],
            },
    {
        match text {
            Some(name) => one(Action::SearchBooks(String::from_str(name))),
            None => say_then(ACTION_CANCELLED, State::Start),
        }
    }

    /// The answer to a search (`None`: the query failed).
    pub fn search_results(found: Option<&Vec<Book>>) -> (acts: Vec<Action>)
        ensures
            actions_view(acts@) == match found {
                Some(books) => book_list_actions(books_view(books@), NO_BOOKS_FOUND@),
                None => seq![say(DB_ERROR@), go_to(State::Start)],
            },
    {
        match found {
            Some(books) => book_list(books, NO_BOOKS_FOUND),
            None => say_then(DB_ERROR, State::Start),
        }
    }
}

// ---------------------------------------------------------------------------
// Button presses
// ---------------------------------------------------------------------------

/// A pressed book button: look up the book with that exact title. A press without
/// data does nothing.
pub fn receive_book_choice(data: Option<&str>) -> (acts: Vec<Action>)
    ensures
        actions_view(acts@) == match data {
            Some(title) => seq![ActionView::LookUpBookPath(title@)],
            None => Seq::<ActionView>::empty(),
        },
{
    match data {
        Some(title) => one(Action::LookUpBookPath(String::from_str(title))),
        None => {
            let v: Vec<Action> = Vec::new();
            proof {
                assert(actions_view(v@) =~= Seq::<ActionView>::empty());
            }
            v
        },
    }
}

/// The chosen book's path was found (`Some`) or not: send the file, and leave.
pub fn book_path_found(path: Option<&str>) -> (acts: Vec<Action>)
    ensures
        actions_view(acts@) == match path {
            Some(p) => seq![
                ActionView::Send(ReplyView::Document(p@)),
                ActionView::Dialogue(DialogueOp::Exit),
            ],
            None => seq![ActionView::Dialogue(DialogueOp::Exit)],
        },
{
    match path {
        Some(p) => two(
            Action::Send(Reply::Document(String::from_str(p))),
            Action::Dialogue(DialogueOp::Exit),
        ),
        None => one(Action::Dialogue(DialogueOp::Exit)),
    }
}

/// A pressed delete button: its data is the path of the book to delete. A press
/// without data does nothing.
pub fn receive_book_delete(data: Option<&str>) -> (acts: Vec<Action>)
    ensures
        actions_view(acts@) == match data {
            Some(path) => seq![ActionView::DeleteBook(path@)],
            None => Seq::<ActionView>::empty(),
        },
{
    match data {
        Some(path) => one(Action::DeleteBook(String::from_str(path))),
        None => {
            let v: Vec<Action> = Vec::new();
            proof {
                assert(actions_view(v@) =~= Seq::<ActionView>::empty());
            }
            v
        },
    }
}

/// The book at `path` was deleted from the database (`deleted`) or not: then remove
/// its file, or report the failure.
pub fn book_deleted(path: &str, deleted: bool) -> (acts: Vec<Action>)
    ensures
        actions_view(acts@) == if deleted {
            seq![ActionView::RemoveFile(path@)]
        } else {
            seq![say(DELETE_BOOK_ERROR@), go_to(State::Start)]
        },
{
    if deleted {
        one(Action::RemoveFile(String::from_str(path)))
    } else {
        say_then(DELETE_BOOK_ERROR, State::Start)
    }
}

/// The deleted book's file was removed (`removed`) or not; either way the dialogue ends.
pub fn book_file_removed(removed: bool) -> (acts: Vec<Action>)
    ensures
        actions_view(acts@) == seq![
            say(if removed { BOOK_REMOVED@ } else { REMOVE_FILE_ERROR@ }),
            ActionView::Dialogue(DialogueOp::Exit),
        ],
{
    let text = if removed { BOOK_REMOVED } else { REMOVE_FILE_ERROR };
    two(text_action(text), Action::Dialogue(DialogueOp::Exit))
}

/// A message that no handler takes.
pub fn invalid_state() -> (acts: Vec<Action>)
    ensures
        actions_view(acts@) == seq![say(INVALID_STATE@), ActionView::Dialogue(DialogueOp::Exit)],
{
    two(text_action(INVALID_STATE), Action::Dialogue(DialogueOp::Exit))
}

} // verus!
