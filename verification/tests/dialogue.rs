use book_bot::books::Book;
use book_bot::dialogue::{
    book_buttons, book_deleted, book_file_removed, book_path_found, invalid_state,
    receive_book_choice, receive_book_delete, Action, Button, Command, DialogueOp, Reply, State,
};

fn book(title: &str) -> Book {
    Book {
        title: title.to_string(),
        author: String::new(),
        book_path: format!("./books/{}.epub", title),
        description: String::new(),
        download_count: 0,
        language: String::new(),
        genres: Vec::new(),
    }
}

fn text(t: &str) -> Action {
    Action::Send(Reply::Text(t.to_string()))
}

fn to(s: State) -> Action {
    Action::Dialogue(DialogueOp::Update(s))
}

fn button(t: &str) -> Button {
    Button { label: t.to_string(), data: t.to_string() }
}

#[test]
fn default_state_is_start() {
    assert_eq!(State::default(), State::Start);
}

#[test]
fn start_after_registration() {
    let acts = Command::start(true, "/help - Display this text.");
    assert_eq!(
        acts,
        vec![text("Your account has been created!!!\n/help - Display this text."), to(State::Start)]
    );
}

#[test]
fn start_when_registration_fails() {
    let acts = Command::start(false, "ignored");
    assert_eq!(
        acts,
        vec![text("Something went wrong :(\nCancelling the dialogue"), Action::Dialogue(DialogueOp::Reset)]
    );
}

#[test]
fn help_lists_commands() {
    assert_eq!(Command::help("list"), vec![text("list"), to(State::Start)]);
}

#[test]
fn cancel_leaves() {
    assert_eq!(
        Command::cancel(),
        vec![text("Cancelling the dialogue."), Action::Dialogue(DialogueOp::Exit)]
    );
}

#[test]
fn search_book_asks_for_a_name() {
    assert_eq!(Command::search_book(), vec![text("Enter a book's name"), to(State::SearchBook)]);
}

#[test]
fn upload_book_asks_an_admin_for_a_file() {
    assert_eq!(
        Command::upload_book(Some(true)),
        vec![
            text("Upload a book.\nUnfortunately only .epub format is supported right now."),
            to(State::UploadBook)
        ]
    );
}

#[test]
fn upload_book_refuses_others() {
    let refusal = vec![text("Uploading a book is for admins only."), to(State::Start)];
    assert_eq!(Command::upload_book(Some(false)), refusal);
    assert_eq!(Command::upload_book(None), refusal);
}

#[test]
fn top_five_offers_the_titles() {
    let books = vec![book("A"), book("B")];
    assert_eq!(
        Command::get_top_five(Some(&books)),
        vec![
            Action::Send(Reply::Choice("Select a book:".to_string(), vec![button("A"), button("B")])),
            to(State::ReceiveBookChoice)
        ]
    );
}

#[test]
fn top_five_without_books() {
    assert_eq!(
        Command::get_top_five(Some(&Vec::new())),
        vec![text("No books were found."), to(State::Start)]
    );
}

#[test]
fn top_five_on_server_error() {
    assert_eq!(Command::get_top_five(None), vec![text("Server error :(."), to(State::Start)]);
}

#[test]
fn searching_book_searches_the_text() {
    assert_eq!(
        State::searching_book(Some("dune")),
        vec![Action::SearchBooks("dune".to_string())]
    );
    assert_eq!(State::searching_book(None), vec![text("Action cancelled"), to(State::Start)]);
}

#[test]
fn search_results_answers() {
    let books = vec![book("Dune")];
    assert_eq!(
        State::search_results(Some(&books)),
        vec![
            Action::Send(Reply::Choice("Select a book:".to_string(), vec![button("Dune")])),
            to(State::ReceiveBookChoice)
        ]
    );
    assert_eq!(State::search_results(Some(&Vec::new())), vec![text("No books found :("), to(State::Start)]);
    assert_eq!(State::search_results(None), vec![text("Some error with db"), to(State::Start)]);
}

#[test]
fn book_buttons_carry_titles() {
    let books = vec![book("X"), book("Y"), book("Z")];
    assert_eq!(book_buttons(&books), vec![button("X"), button("Y"), button("Z")]);
    assert!(book_buttons(&Vec::new()).is_empty());
}

#[test]
fn choosing_a_book_sends_it() {
    assert_eq!(receive_book_choice(Some("Dune")), vec![Action::LookUpBookPath("Dune".to_string())]);
    assert!(receive_book_choice(None).is_empty());
    assert_eq!(
        book_path_found(Some("./books/dune.epub")),
        vec![
            Action::Send(Reply::Document("./books/dune.epub".to_string())),
            Action::Dialogue(DialogueOp::Exit)
        ]
    );
    assert_eq!(book_path_found(None), vec![Action::Dialogue(DialogueOp::Exit)]);
}

#[test]
fn deleting_a_book() {
    assert_eq!(receive_book_delete(Some("./books/a.epub")), vec![Action::DeleteBook("./books/a.epub".to_string())]);
    assert!(receive_book_delete(None).is_empty());
    assert_eq!(book_deleted("./books/a.epub", true), vec![Action::RemoveFile("./books/a.epub".to_string())]);
    assert_eq!(
        book_deleted("./books/a.epub", false),
        vec![text("ERROR deleting book from db :("), to(State::Start)]
    );
    assert_eq!(
        book_file_removed(true),
        vec![text("Successfully removed your book"), Action::Dialogue(DialogueOp::Exit)]
    );
    assert_eq!(
        book_file_removed(false),
        vec![text("Error removing file :("), Action::Dialogue(DialogueOp::Exit)]
    );
}

#[test]
fn invalid_state_points_to_help() {
    assert_eq!(
        invalid_state(),
        vec![
            text("Unable to handle the message. Type /help to see the usage."),
            Action::Dialogue(DialogueOp::Exit)
        ]
    );
}
