use vstd::prelude::*;

use crate::dialogue::{
    ActionView, CANCELLING, Command, DialogueOp, State, say, state_after,
};

verus! {

/// An update from Telegram, as far as the choice of its handler goes.
#[derive(Clone, Copy, Debug, PartialEq, Eq, Structural)]
pub enum Incoming {
    /// A message, with the command its text parses to, if any.
    Message(Option<Command>),
    /// A press of an inline keyboard button.
    CallbackQuery,
    /// Any other kind of update.
    Other,
}

/// The handler an update goes to.
#[derive(Clone, Copy, Debug, PartialEq, Eq, Structural)]
pub enum Endpoint {
    /// The handler of this command.
    Command(Command),
    /// A message read as the name of a book to search for.
    SearchingBook,
    /// A message that should carry a book to upload.
    UploadBook,
    /// A message no handler takes.
    InvalidState,
    /// A press of a book button, choosing the book to download.
    ReceiveBookChoice,
    /// A press of a book button, choosing the book to delete.
    ReceiveBookDelete,
    /// The update is ignored.
    Unhandled,
}

/// Where an update goes, given the chat's dialogue state.
///
/// Messages: a command is handled only at the start, except `/cancel`, which is handled
/// in every state; any other message goes to the handler of the state (searching or
/// uploading), or is answered as not understood. Button presses are handled only
/// while a book is being chosen. Other updates are ignored.
pub open spec fn route_of(state: State, incoming: Incoming) -> Endpoint {
    match incoming {
        Incoming::Message(cmd) => {
            if cmd == Some(Command::Cancel) {
                Endpoint::Command(Command::Cancel)
            } else if state == State::Start && cmd is Some {
                Endpoint::Command(cmd->Some_0)
            } else {
                match state {
                    State::SearchBook => Endpoint::SearchingBook,
                    State::UploadBook => Endpoint::UploadBook,
                    _ => Endpoint::InvalidState,
                }
            }
        },
        Incoming::CallbackQuery => match state {
            State::ReceiveBookChoice => Endpoint::ReceiveBookChoice,
            State::ReceiveBookDelete => Endpoint::ReceiveBookDelete,
            _ => Endpoint::Unhandled,
        },
        Incoming::Other => Endpoint::Unhandled,
    }
}

/// Chooses the handler of an update in a chat whose dialogue is in `state`.
pub fn route(state: State, incoming: Incoming) -> (e: Endpoint)
    ensures
        e == route_of(state, incoming),
{
    match incoming {
        Incoming::Message(cmd) => {
            match cmd {
                Some(Command::Cancel) => Endpoint::Command(Command::Cancel),
                Some(c) if state == State::Start => Endpoint::Command(c),
                _ => match state {
                    State::SearchBook => Endpoint::SearchingBook,
                    State::UploadBook => Endpoint::UploadBook,
                    _ => Endpoint::InvalidState,
                },
            }
        },
        Incoming::CallbackQuery => match state {
            State::ReceiveBookChoice => Endpoint::ReceiveBookChoice,
            State::ReceiveBookDelete => Endpoint::ReceiveBookDelete,
            _ => Endpoint::Unhandled,
        },
        Incoming::Other => Endpoint::Unhandled,
    }
}

/// `/cancel` works in every state: it reaches its handler, whose answer leaves the
/// chat at the start.
pub proof fn cancel_works_in_every_state(s: State)
    ensures
        route_of(s, Incoming::Message(Some(Command::Cancel))) == Endpoint::Command(Command::Cancel),
        state_after(s, seq![say(CANCELLING@), ActionView::Dialogue(DialogueOp::Exit)])
            == State::Start,
{
    let acts = seq![say(CANCELLING@), ActionView::Dialogue(DialogueOp::Exit)];
    assert(acts.drop_last().drop_last() =~= Seq::<ActionView>::empty());
}

/// Away from the start, a command other than `/cancel` is not run: the message goes to
/// the state's own handler, like any other text.
pub proof fn commands_run_only_at_start(s: State, c: Command)
    requires
        s != State::Start,
        c != Command::Cancel,
    ensures
        route_of(s, Incoming::Message(Some(c))) == route_of(s, Incoming::Message(None)),
        !(route_of(s, Incoming::Message(Some(c))) is Command),
{
}

/// At the start, every command reaches its own handler.
pub proof fn commands_run_at_start(c: Command)
    ensures
        route_of(State::Start, Incoming::Message(Some(c))) == Endpoint::Command(c),
{
}

/// A button press is handled only while a book is being chosen, by the handler of
/// that choice.
pub proof fn button_presses_only_while_choosing(s: State)
    ensures
        route_of(s, Incoming::CallbackQuery) != Endpoint::Unhandled <==> (s == State::ReceiveBookChoice
            || s == State::ReceiveBookDelete),
        route_of(s, Incoming::CallbackQuery) == Endpoint::ReceiveBookChoice ==> s
            == State::ReceiveBookChoice,
        route_of(s, Incoming::CallbackQuery) == Endpoint::ReceiveBookDelete ==> s
            == State::ReceiveBookDelete,
{
}


/// A message that is no command goes to the handler of the dialogue's state: while
/// searching it is the name to search for, while uploading it carries the upload, and
/// in any other state it is not understood.
pub proof fn plain_messages_go_to_their_state(s: State)
    ensures
        route_of(s, Incoming::Message(None)) == match s {
            State::SearchBook => Endpoint::SearchingBook,
            State::UploadBook => Endpoint::UploadBook,
            _ => Endpoint::InvalidState,
        },
        route_of(s, Incoming::Other) == Endpoint::Unhandled,
{
}

} // verus!
