use book_bot::dialogue::{Command, State};
use book_bot::routing::{route, Endpoint, Incoming};

const ALL_STATES: [State; 5] = [
    State::Start,
    State::UploadBook,
    State::SearchBook,
    State::ReceiveBookChoice,
    State::ReceiveBookDelete,
];

const ALL_COMMANDS: [Command; 6] = [
    Command::Start,
    Command::Help,
    Command::Cancel,
    Command::SearchBook,
    Command::UploadBook,
    Command::TopFive,
];

#[test]
fn commands_at_start() {
    for c in ALL_COMMANDS {
        assert_eq!(route(State::Start, Incoming::Message(Some(c))), Endpoint::Command(c));
    }
}

#[test]
fn cancel_everywhere() {
    for s in ALL_STATES {
        assert_eq!(route(s, Incoming::Message(Some(Command::Cancel))), Endpoint::Command(Command::Cancel));
    }
}

#[test]
fn commands_elsewhere_are_plain_messages() {
    assert_eq!(route(State::SearchBook, Incoming::Message(Some(Command::Help))), Endpoint::SearchingBook);
    assert_eq!(route(State::UploadBook, Incoming::Message(Some(Command::TopFive))), Endpoint::UploadBook);
    assert_eq!(
        route(State::ReceiveBookChoice, Incoming::Message(Some(Command::Start))),
        Endpoint::InvalidState
    );
}

#[test]
fn messages_by_state() {
    assert_eq!(route(State::Start, Incoming::Message(None)), Endpoint::InvalidState);
    assert_eq!(route(State::SearchBook, Incoming::Message(None)), Endpoint::SearchingBook);
    assert_eq!(route(State::UploadBook, Incoming::Message(None)), Endpoint::UploadBook);
    assert_eq!(route(State::ReceiveBookChoice, Incoming::Message(None)), Endpoint::InvalidState);
    assert_eq!(route(State::ReceiveBookDelete, Incoming::Message(None)), Endpoint::InvalidState);
}

#[test]
fn button_presses() {
    assert_eq!(route(State::ReceiveBookChoice, Incoming::CallbackQuery), Endpoint::ReceiveBookChoice);
    assert_eq!(route(State::ReceiveBookDelete, Incoming::CallbackQuery), Endpoint::ReceiveBookDelete);
    assert_eq!(route(State::Start, Incoming::CallbackQuery), Endpoint::Unhandled);
    assert_eq!(route(State::SearchBook, Incoming::CallbackQuery), Endpoint::Unhandled);
}

#[test]
fn other_updates_are_ignored() {
    for s in ALL_STATES {
        assert_eq!(route(s, Incoming::Other), Endpoint::Unhandled);
    }
}
