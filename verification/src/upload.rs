use vstd::prelude::*;

use crate::books::is_portable_path;
use crate::dialogue::{
    Action, ActionView, DialogueOp, Reply, State, actions_view, go_to, one, say, say_then,
    state_after, text_action, two,
};

verus! {

/// Where uploaded books are kept.
pub const BOOKS_DIR_PATH: &'static str = "./books/";

/// A user who has uploaded this many books may upload no more.
pub const MAX_UPLOADS: i32 = 5;

pub const UPLOAD_LIMIT_REACHED: &'static str = "You can't upload more than 5 books.\nDelete some";

pub const NO_DOCUMENT: &'static str = "No documents were found :(";

pub const NO_FILE_NAME: &'static str = "Cannot get the name of the book :(";

pub const BOOK_CREATED: &'static str = "Book created :)\nNow you can search for it";

pub const STORE_FAILED: &'static str = "Some error happened";

pub const DOWNLOAD_FAILED: &'static str = "Error downlaoding the file :(";

/// A document attached to a message: its Telegram file id and, if sent, its file name.
#[derive(Debug, PartialEq, Eq)]
pub struct Document {
    pub file_id: String,
    pub file_name: Option<String>,
}

pub struct DocumentView {
    pub file_id: Seq<char>,
    pub file_name: Option<Seq<char>>,
}

impl View for Document {
    type V = DocumentView;

    open spec fn view(&self) -> DocumentView {
        DocumentView {
            file_id: self.file_id@,
            file_name: match self.file_name {
                Some(n) => Some(n@),
                None => None,
            },
        }
    }
}

/// Where an upload stands: what it waits for next.
#[derive(Debug, PartialEq, Eq)]
pub enum UploadFlow {
    /// The number of books the user has uploaded; the message's document, if any.
    AwaitingCount(Option<Document>),
    /// The Telegram file; the local path it goes to.
    AwaitingFile(String),
    /// The download into the local path.
    AwaitingDownload(String),
    /// Reading and storing the downloaded book.
    AwaitingStore,
    /// Removing the local file after a failed download.
    AwaitingRemoval,
    /// Nothing: the upload is over.
    Finished,
}

/// The outcome of the outside work an upload asked for.
#[derive(Debug, PartialEq, Eq)]
pub enum UploadEvent {
    /// How many books the user has uploaded.
    Count(i32),
    /// The Telegram path of the fetched file.
    FileFetched(String),
    /// Whether the download succeeded.
    Downloaded(bool),
    /// Whether the book was read and stored.
    Stored(bool),
    /// Whether the local file was removed.
    Removed(bool),
}

pub enum UploadFlowView {
    AwaitingCount(Option<DocumentView>),
    AwaitingFile(Seq<char>),
    AwaitingDownload(Seq<char>),
    AwaitingStore,
    AwaitingRemoval,
    Finished,
}

pub enum UploadEventView {
    Count(int),
    FileFetched(Seq<char>),
    Downloaded(bool),
    Stored(bool),
    Removed(bool),
}

impl View for UploadFlow {
    type V = UploadFlowView;

    open spec fn view(&self) -> UploadFlowView {
        match self {
            UploadFlow::AwaitingCount(d) => UploadFlowView::AwaitingCount(
                match d {
                    Some(doc) => Some(doc@),
                    None => None,
                },
            ),
            UploadFlow::AwaitingFile(t) => UploadFlowView::AwaitingFile(t@),
            UploadFlow::AwaitingDownload(t) => UploadFlowView::AwaitingDownload(t@),
            UploadFlow::AwaitingStore => UploadFlowView::AwaitingStore,
            UploadFlow::AwaitingRemoval => UploadFlowView::AwaitingRemoval,
            UploadFlow::Finished => UploadFlowView::Finished,
        }
    }
}

impl View for UploadEvent {
    type V = UploadEventView;

    open spec fn view(&self) -> UploadEventView {
        match self {
            UploadEvent::Count(n) => UploadEventView::Count(*n as int),
            UploadEvent::FileFetched(p) => UploadEventView::FileFetched(p@),
            UploadEvent::Downloaded(ok) => UploadEventView::Downloaded(*ok),
            UploadEvent::Stored(ok) => UploadEventView::Stored(*ok),
            UploadEvent::Removed(ok) => UploadEventView::Removed(*ok),
        }
    }
}

/// One step of an upload: from where it stands and what came back, to where it stands
/// next and what to do. `target` is the local path a named document is saved to.
/// An event the flow does not wait for changes nothing.
pub open spec fn upload_step(flow: UploadFlowView, event: UploadEventView, target: Seq<char>) -> (
    UploadFlowView,
    Seq<ActionView>,
) {
    match flow {
        UploadFlowView::AwaitingCount(doc) => match event {
            UploadEventView::Count(n) => if n >= MAX_UPLOADS {
                (UploadFlowView::Finished, seq![say(UPLOAD_LIMIT_REACHED@), go_to(State::Start)])
            } else {
                match doc {
                    None => (UploadFlowView::Finished, seq![say(NO_DOCUMENT@), go_to(State::Start)]),
                    Some(d) => match d.file_name {
                        None => (
                            UploadFlowView::Finished,
                            seq![say(NO_FILE_NAME@), go_to(State::Start), ActionView::Abort],
                        ),
                        Some(_) => (
                            UploadFlowView::AwaitingFile(target),
                            seq![ActionView::FetchFile(d.file_id)],
                        ),
                    },
                }
            },
            _ => (flow, Seq::empty()),
        },
        UploadFlowView::AwaitingFile(t) => match event {
            UploadEventView::FileFetched(source) => (
                UploadFlowView::AwaitingDownload(t),
                seq![ActionView::Download(source, t)],
            ),
            _ => (flow, Seq::empty()),
        },
        UploadFlowView::AwaitingDownload(t) => match event {
            UploadEventView::Downloaded(ok) => if ok {
                (UploadFlowView::AwaitingStore, seq![ActionView::StoreBook(t)])
            } else {
                (UploadFlowView::AwaitingRemoval, seq![ActionView::RemoveFile(t)])
            },
            _ => (flow, Seq::empty()),
        },
        UploadFlowView::AwaitingStore => match event {
            UploadEventView::Stored(ok) => (
                UploadFlowView::Finished,
                seq![say(if ok { BOOK_CREATED@ } else { STORE_FAILED@ }), go_to(State::Start)],
            ),
            _ => (flow, Seq::empty()),
        },
        UploadFlowView::AwaitingRemoval => match event {
            UploadEventView::Removed(ok) => (
                UploadFlowView::Finished,
                if ok {
                    seq![say(DOWNLOAD_FAILED@), go_to(State::Start)]
                } else {
                    seq![go_to(State::Start)]
                },
            ),
            _ => (flow, Seq::empty()),
        },
        UploadFlowView::Finished => (flow, Seq::empty()),
    }
}

/// The name of the document this step saves, when the step is the one that decides
/// where it goes.
pub open spec fn saved_name(flow: UploadFlowView, event: UploadEventView) -> Option<Seq<char>> {
    match (flow, event) {
        (UploadFlowView::AwaitingCount(Some(d)), UploadEventView::Count(n)) => if n < MAX_UPLOADS {
            d.file_name
        } else {
            None
        },
        _ => None,
    }
}

/// The local path an upload waiting for its Telegram file will save it to.
pub open spec fn pending_target(flow: UploadFlowView) -> Seq<char> {
    match flow {
        UploadFlowView::AwaitingFile(t) => t,
        _ => Seq::empty(),
    }
}

/// A name that every platform takes as a relative path, to be appended to a directory:
/// portable, and not starting with `/`.
pub open spec fn is_relative_name(name: Seq<char>) -> bool {
    is_portable_path(name) && !(name.len() > 0 && name[0] == '/')
}

/// A directory path that every platform extends by appending: portable (so without a
/// Windows verbatim prefix, the one case where `push` rewrites the path), and ending in
/// a separator.
pub open spec fn is_appendable_dir(dir: Seq<char>) -> bool {
    is_portable_path(dir) && dir.len() > 0 && dir.last() == '/'
}

/// The path of `name` inside directory `dir`, by `std::path::Path::join`.
///
/// Trusted, as std documents `join` and `PathBuf::push`: a relative path is appended,
/// with no separator added after a directory that ends in one; only a base with a
/// verbatim prefix is normalised. Not stated: the result for a directory with `\`, a
/// drive prefix or a leading `//`, or for a name that a platform takes as absolute or prefixed.
#[verifier::external_body]
fn join_path(dir: &str, name: &str) -> (path: String)
    ensures
        is_appendable_dir(dir@) && is_relative_name(name@) ==> path@ == dir@ + name@,
{
    std::path::Path::new(dir).join(name).to_string_lossy().into_owned()
}

/// The local path an uploaded file named `name` is saved to.
pub fn upload_target(name: &str) -> (path: String)
    ensures
        is_relative_name(name@) ==> path@ == BOOKS_DIR_PATH@ + name@,
{
    proof {
        reveal_strlit("./books/");
        let d = BOOKS_DIR_PATH@;
        assert(d.len() == 8);
        assert(!d.contains('\\')) by {
            assert forall|k: int| 0 <= k < d.len() implies d[k] != '\\' by {}
        }
        assert(is_appendable_dir(d));
    }
    join_path(BOOKS_DIR_PATH, name)
}


impl State {
    /// A message while uploading: the upload starts by counting the user's books.
    pub fn upload_book(document: Option<Document>) -> (r: (UploadFlow, Vec<Action>))
        ensures
            r.0@ == UploadFlowView::AwaitingCount(
                match document {
                    Some(d) => Some(d@),
                    None => None,
                },
            ),
            actions_view(r.1@) == seq![ActionView::LoadUploadCount],
    {
        (UploadFlow::AwaitingCount(document), one(Action::LoadUploadCount))
    }
}

impl UploadFlow {
    /// Takes the outcome of the work last asked for, and says what to do next.
    pub fn step(self, event: UploadEvent) -> (r: (UploadFlow, Vec<Action>))
        ensures
            (r.0@, actions_view(r.1@)) == upload_step(self@, event@, pending_target(r.0@)),
            saved_name(self@, event@) matches Some(name) ==> (is_relative_name(name)
                ==> pending_target(r.0@) == BOOKS_DIR_PATH@ + name),
            self@ matches UploadFlowView::AwaitingCount(Some(d)) ==> (event@ matches UploadEventView::Count(
                n,
            ) ==> (n < MAX_UPLOADS && d.file_name is Some ==> actions_view(r.1@) == seq![
                ActionView::FetchFile(d.file_id),
            ] && r.0@ is AwaitingFile)),
            self@ matches UploadFlowView::AwaitingCount(_) ==> (event@ matches UploadEventView::Count(n) ==> (n
                >= MAX_UPLOADS ==> actions_view(r.1@) == seq![
                say(UPLOAD_LIMIT_REACHED@),
                go_to(State::Start),
            ] && r.0@ is Finished)),
            self@ matches UploadFlowView::AwaitingDownload(t) ==> (event@ matches UploadEventView::Downloaded(
                ok,
            ) ==> actions_view(r.1@) == if ok {
                seq![ActionView::StoreBook(t)]
            } else {
                seq![ActionView::RemoveFile(t)]
            }),
            self@ matches UploadFlowView::AwaitingFile(t) ==> (event@ matches UploadEventView::FileFetched(
                source,
            ) ==> actions_view(r.1@) == seq![ActionView::Download(source, t)] && r.0@
                == UploadFlowView::AwaitingDownload(t)),
    {
        let ghost old_flow = self@;
        let ghost ev = event@;
        match self {
            UploadFlow::AwaitingCount(document) => match event {
                UploadEvent::Count(n) => {
                    if n >= MAX_UPLOADS {
                        (UploadFlow::Finished, say_then(UPLOAD_LIMIT_REACHED, State::Start))
                    } else {
                        match document {
                            None => (UploadFlow::Finished, say_then(NO_DOCUMENT, State::Start)),
                            Some(doc) => match &doc.file_name {
                                None => {
                                    let mut acts = say_then(NO_FILE_NAME, State::Start);
                                    let ghost before = acts@;
                                    acts.push(Action::Abort);
                                    proof {
                                        assert(actions_view(acts@) =~= actions_view(before).push(
                                            ActionView::Abort,
                                        ));
                                    }
                                    (UploadFlow::Finished, acts)
                                },
                                Some(name) => {
                                    let target = upload_target(name.as_str());
                                    let fetch = one(Action::FetchFile(doc.file_id));
                                    (UploadFlow::AwaitingFile(target), fetch)
                                },
                            },
                        }
                    }
                },
                other => {
                    let acts: Vec<Action> = Vec::new();
                    proof {
                        assert(actions_view(acts@) =~= Seq::<ActionView>::empty());
                    }
                    (UploadFlow::AwaitingCount(document), acts)
                },
            },
            UploadFlow::AwaitingFile(target) => match event {
                UploadEvent::FileFetched(source) => {
                    let copy = target.clone();
                    (UploadFlow::AwaitingDownload(target), one(Action::Download(source, copy)))
                },
                other => {
                    let acts: Vec<Action> = Vec::new();
                    proof {
                        assert(actions_view(acts@) =~= Seq::<ActionView>::empty());
                    }
                    (UploadFlow::AwaitingFile(target), acts)
                },
            },
            UploadFlow::AwaitingDownload(target) => match event {
                UploadEvent::Downloaded(ok) => {
                    if ok {
                        (UploadFlow::AwaitingStore, one(Action::StoreBook(target)))
                    } else {
                        (UploadFlow::AwaitingRemoval, one(Action::RemoveFile(target)))
                    }
                },
                other => {
                    let acts: Vec<Action> = Vec::new();
                    proof {
                        assert(actions_view(acts@) =~= Seq::<ActionView>::empty());
                    }
                    (UploadFlow::AwaitingDownload(target), acts)
                },
            },
            UploadFlow::AwaitingStore => match event {
                UploadEvent::Stored(ok) => {
                    let text = if ok { BOOK_CREATED } else { STORE_FAILED };
                    (UploadFlow::Finished, say_then(text, State::Start))
                },
                other => {
                    let acts: Vec<Action> = Vec::new();
                    proof {
                        assert(actions_view(acts@) =~= Seq::<ActionView>::empty());
                    }
                    (UploadFlow::AwaitingStore, acts)
                },
            },
            UploadFlow::AwaitingRemoval => match event {
                UploadEvent::Removed(ok) => {
                    if ok {
                        (UploadFlow::Finished, say_then(DOWNLOAD_FAILED, State::Start))
                    } else {
                        (UploadFlow::Finished, one(Action::Dialogue(DialogueOp::Update(State::Start))))
                    }
                },
                other => {
                    let acts: Vec<Action> = Vec::new();
                    proof {
                        assert(actions_view(acts@) =~= Seq::<ActionView>::empty());
                    }
                    (UploadFlow::AwaitingRemoval, acts)
                },
            },
            UploadFlow::Finished => {
                let acts: Vec<Action> = Vec::new();
                proof {
                    assert(actions_view(acts@) =~= Seq::<ActionView>::empty());
                }
                (UploadFlow::Finished, acts)
            },
        }
    }

    /// Whether the upload is over.
    pub fn is_finished(&self) -> (done: bool)
        ensures
            done == (self@ is Finished),
    {
        match self {
            UploadFlow::Finished => true,
            _ => false,
        }
    }
}

// ---------------------------------------------------------------------------
// Laws of uploads
// ---------------------------------------------------------------------------

/// The upload after the events, one after the other (`targets[i]` is the path step `i`
/// saves a named document to), and every action asked for on the way.
pub open spec fn upload_run(
    flow: UploadFlowView,
    events: Seq<UploadEventView>,
    targets: Seq<Seq<char>>,
) -> (UploadFlowView, Seq<ActionView>)
    decreases events.len(),
{
    if events.len() == 0 {
        (flow, Seq::empty())
    } else {
        let (next, first) = upload_step(flow, events[0], targets[0]);
        let (last, rest) = upload_run(next, events.drop_first(), targets.drop_first());
        (last, first + rest)
    }
}

/// A finished upload stays finished and asks for nothing more.
pub proof fn finished_upload_stays_finished(events: Seq<UploadEventView>, targets: Seq<Seq<char>>)
    ensures
        upload_run(UploadFlowView::Finished, events, targets) == (
            UploadFlowView::Finished,
            Seq::<ActionView>::empty(),
        ),
    decreases events.len(),
{
    if events.len() > 0 {
        finished_upload_stays_finished(events.drop_first(), targets.drop_first());
        assert(Seq::<ActionView>::empty() + Seq::<ActionView>::empty() =~= Seq::<ActionView>::empty());
    }
}

/// A user who has uploaded `MAX_UPLOADS` books or more is told so and sent back to the
/// start, and nothing is fetched, downloaded or stored, whatever comes after.
pub proof fn upload_limit_holds(
    document: Option<DocumentView>,
    count: int,
    events: Seq<UploadEventView>,
    targets: Seq<Seq<char>>,
)
    requires
        count >= MAX_UPLOADS,
        events.len() > 0,
        events[0] == UploadEventView::Count(count),
    ensures
        upload_run(UploadFlowView::AwaitingCount(document), events, targets) == (
            UploadFlowView::Finished,
            seq![say(UPLOAD_LIMIT_REACHED@), go_to(State::Start)],
        ),
{
    finished_upload_stays_finished(events.drop_first(), targets.drop_first());
    assert(seq![say(UPLOAD_LIMIT_REACHED@), go_to(State::Start)] + Seq::<ActionView>::empty()
        =~= seq![say(UPLOAD_LIMIT_REACHED@), go_to(State::Start)]);
}

/// The state after two runs of actions is that after the second, started from the
/// state the first left.
pub proof fn state_after_append(s: State, a: Seq<ActionView>, b: Seq<ActionView>)
    ensures
        state_after(s, a + b) == state_after(state_after(s, a), b),
    decreases b.len(),
{
    if b.len() == 0 {
        assert(a + b =~= a);
    } else {
        assert((a + b).drop_last() =~= a + b.drop_last());
        state_after_append(s, a, b.drop_last());
    }
}

/// An upload that comes to its end leaves the chat at the start, whatever state it was
/// in before.
pub proof fn finished_upload_returns_to_start(
    s: State,
    flow: UploadFlowView,
    events: Seq<UploadEventView>,
    targets: Seq<Seq<char>>,
)
    requires
        !(flow is Finished),
        upload_run(flow, events, targets).0 is Finished,
    ensures
        state_after(s, upload_run(flow, events, targets).1) == State::Start,
    decreases events.len(),
{
    let (next, first) = upload_step(flow, events[0], targets[0]);
    let rest = upload_run(next, events.drop_first(), targets.drop_first()).1;
    state_after_append(s, first, rest);
    if next is Finished {
        finished_upload_stays_finished(events.drop_first(), targets.drop_first());
        assert(first + rest =~= first);
        if first.len() == 3 {
            assert(first.drop_last().last() == go_to(State::Start));
            assert(state_after(s, first) == state_after(s, first.drop_last()));
        } else if first.len() == 2 {
            assert(first.last() == go_to(State::Start));
        } else {
            assert(first.last() == go_to(State::Start));
        }
    } else {
        finished_upload_returns_to_start(state_after(s, first), next, events.drop_first(), targets.drop_first());
    }
}

/// The local file an action writes, reads or removes, if any.
pub open spec fn file_touched(a: ActionView) -> Option<Seq<char>> {
    match a {
        ActionView::Download(_, p) => Some(p),
        ActionView::StoreBook(p) => Some(p),
        ActionView::RemoveFile(p) => Some(p),
        _ => None,
    }
}

/// Every local file the actions touch is `path`.
pub open spec fn touches_only(acts: Seq<ActionView>, path: Seq<char>) -> bool {
    forall|i: int| 0 <= i < acts.len() && (#[trigger] file_touched(acts[i])) is Some ==> file_touched(
        acts[i],
    )->Some_0 == path
}

/// Every book stored is stored after a download.
pub open spec fn stores_after_download(acts: Seq<ActionView>) -> bool {
    forall|i: int|
        0 <= i < acts.len() && #[trigger] acts[i] is StoreBook ==> exists|j: int|
            0 <= j < i && #[trigger] acts[j] is Download
}

proof fn run_touches_only(
    flow: UploadFlowView,
    events: Seq<UploadEventView>,
    targets: Seq<Seq<char>>,
    path: Seq<char>,
)
    requires
        match flow {
            UploadFlowView::AwaitingCount(_) => false,
            UploadFlowView::AwaitingFile(t) => t == path,
            UploadFlowView::AwaitingDownload(t) => t == path,
            _ => true,
        },
    ensures
        touches_only(upload_run(flow, events, targets).1, path),
    decreases events.len(),
{
    if events.len() > 0 {
        let (next, first) = upload_step(flow, events[0], targets[0]);
        let rest = upload_run(next, events.drop_first(), targets.drop_first()).1;
        run_touches_only(next, events.drop_first(), targets.drop_first(), path);
        assert(touches_only(first, path));
        assert forall|i: int|
            0 <= i < (first + rest).len() && (#[trigger] file_touched((first + rest)[i])) is Some implies file_touched(
            (first + rest)[i],
        )->Some_0 == path by {
            if i >= first.len() {
                assert((first + rest)[i] == rest[i - first.len()]);
            }
        }
    }
}

/// An upload touches one local file only: every file it downloads to, stores a book
/// from or removes is the path chosen for the document when the count came.
pub proof fn upload_touches_one_file(
    document: Option<DocumentView>,
    events: Seq<UploadEventView>,
    targets: Seq<Seq<char>>,
)
    requires
        events.len() > 0,
        events[0] is Count,
    ensures
        touches_only(upload_run(UploadFlowView::AwaitingCount(document), events, targets).1, targets[0]),
{
    let flow = UploadFlowView::AwaitingCount(document);
    let (next, first) = upload_step(flow, events[0], targets[0]);
    let rest = upload_run(next, events.drop_first(), targets.drop_first()).1;
    run_touches_only(next, events.drop_first(), targets.drop_first(), targets[0]);
    assert forall|i: int|
        0 <= i < (first + rest).len() && (#[trigger] file_touched((first + rest)[i])) is Some implies file_touched(
        (first + rest)[i],
    )->Some_0 == targets[0] by {
        if i >= first.len() {
            assert((first + rest)[i] == rest[i - first.len()]);
        }
    }
}

proof fn run_stores_after_download(
    flow: UploadFlowView,
    events: Seq<UploadEventView>,
    targets: Seq<Seq<char>>,
    prev: Seq<ActionView>,
)
    requires
        stores_after_download(prev),
        flow is AwaitingDownload ==> exists|j: int| 0 <= j < prev.len() && #[trigger] prev[j] is Download,
    ensures
        stores_after_download(prev + upload_run(flow, events, targets).1),
    decreases events.len(),
{
    if events.len() == 0 {
        assert(prev + upload_run(flow, events, targets).1 =~= prev);
    } else {
        let (next, first) = upload_step(flow, events[0], targets[0]);
        let rest = upload_run(next, events.drop_first(), targets.drop_first()).1;
        let prev2 = prev + first;
        assert(stores_after_download(prev2)) by {
            assert forall|i: int| 0 <= i < prev2.len() && #[trigger] prev2[i] is StoreBook implies exists|j: int|
                0 <= j < i && #[trigger] prev2[j] is Download by {
                if i < prev.len() {
                    assert(prev2[i] == prev[i]);
                    let j = choose|j: int| 0 <= j < i && #[trigger] prev[j] is Download;
                    assert(prev2[j] == prev[j]);
                } else {
                    assert(prev2[i] == first[i - prev.len()]);
                    assert(flow is AwaitingDownload);
                    let j = choose|j: int| 0 <= j < prev.len() && #[trigger] prev[j] is Download;
                    assert(prev2[j] == prev[j]);
                }
            }
        }
        if next is AwaitingDownload {
            if flow is AwaitingDownload {
                let j = choose|j: int| 0 <= j < prev.len() && #[trigger] prev[j] is Download;
                assert(prev2[j] == prev[j]);
            } else {
                assert(first.len() == 1 && first[0] is Download);
                assert(prev2[prev.len() as int] == first[0]);
            }
        }
        run_stores_after_download(next, events.drop_first(), targets.drop_first(), prev2);
        assert(prev2 + rest =~= prev + (first + rest));
    }
}

/// An upload asks to store a book only after it has asked to download the file.
pub proof fn upload_stores_only_after_download(
    document: Option<DocumentView>,
    events: Seq<UploadEventView>,
    targets: Seq<Seq<char>>,
)
    ensures
        stores_after_download(upload_run(UploadFlowView::AwaitingCount(document), events, targets).1),
{
    let acts = upload_run(UploadFlowView::AwaitingCount(document), events, targets).1;
    run_stores_after_download(UploadFlowView::AwaitingCount(document), events, targets, Seq::empty());
    assert(Seq::<ActionView>::empty() + acts =~= acts);
}


/// How many books the actions ask to store.
pub open spec fn stores(acts: Seq<ActionView>) -> nat
    decreases acts.len(),
{
    if acts.len() == 0 {
        0
    } else {
        stores(acts.drop_last()) + if acts.last() is StoreBook {
            1nat
        } else {
            0nat
        }
    }
}

proof fn no_stores(acts: Seq<ActionView>)
    requires
        forall|i: int| 0 <= i < acts.len() ==> !(#[trigger] acts[i] is StoreBook),
    ensures
        stores(acts) == 0,
    decreases acts.len(),
{
    if acts.len() > 0 {
        no_stores(acts.drop_last());
    }
}

proof fn stores_append(a: Seq<ActionView>, b: Seq<ActionView>)
    ensures
        stores(a + b) == stores(a) + stores(b),
    decreases b.len(),
{
    if b.len() == 0 {
        assert(a + b =~= a);
    } else {
        assert((a + b).drop_last() =~= a + b.drop_last());
        stores_append(a, b.drop_last());
    }
}

/// How many more books an upload standing at `flow` may still ask to store.
pub open spec fn stores_left(flow: UploadFlowView) -> nat {
    match flow {
        UploadFlowView::AwaitingStore => 0,
        UploadFlowView::AwaitingRemoval => 0,
        UploadFlowView::Finished => 0,
        _ => 1,
    }
}

proof fn run_stores_at_most(flow: UploadFlowView, events: Seq<UploadEventView>, targets: Seq<Seq<char>>)
    ensures
        stores(upload_run(flow, events, targets).1) <= stores_left(flow),
    decreases events.len(),
{
    if events.len() > 0 {
        let (next, first) = upload_step(flow, events[0], targets[0]);
        let rest = upload_run(next, events.drop_first(), targets.drop_first()).1;
        run_stores_at_most(next, events.drop_first(), targets.drop_first());
        stores_append(first, rest);
        if flow is AwaitingDownload && events[0] == UploadEventView::Downloaded(true) {
            assert(first.len() == 1 && first.last() is StoreBook);
            assert(first.drop_last() =~= Seq::<ActionView>::empty());
            assert(stores(Seq::<ActionView>::empty()) == 0);
            assert(stores(first) == 1);
        } else {
            no_stores(first);
        }
        assert(stores(first) + stores_left(next) <= stores_left(flow));
    }
}

/// One upload stores at most one book, and only when the user had uploaded fewer than
/// `MAX_UPLOADS`. So a user whose count of uploaded books is at most `MAX_UPLOADS`
/// still has at most `MAX_UPLOADS` once the upload's book is counted.
pub proof fn upload_stores_at_most_one_book(
    document: Option<DocumentView>,
    count: int,
    events: Seq<UploadEventView>,
    targets: Seq<Seq<char>>,
)
    requires
        events.len() > 0,
        events[0] == UploadEventView::Count(count),
    ensures
        stores(upload_run(UploadFlowView::AwaitingCount(document), events, targets).1) <= 1,
        stores(upload_run(UploadFlowView::AwaitingCount(document), events, targets).1) > 0
            ==> count < MAX_UPLOADS,
        count <= MAX_UPLOADS ==> count + stores(
            upload_run(UploadFlowView::AwaitingCount(document), events, targets).1,
        ) <= MAX_UPLOADS,
{
    let flow = UploadFlowView::AwaitingCount(document);
    run_stores_at_most(flow, events, targets);
    if count >= MAX_UPLOADS {
        upload_limit_holds(document, count, events, targets);
        let acts = seq![say(UPLOAD_LIMIT_REACHED@), go_to(State::Start)];
        no_stores(acts);
    }
}


/// Below the limit, the upload of a named document goes on: it waits for that
/// document's file, to be saved at the chosen path, and asks Telegram for exactly that
/// document's file.
pub proof fn upload_goes_on_below_limit(d: DocumentView, count: int, target: Seq<char>)
    requires
        count < MAX_UPLOADS,
        d.file_name is Some,
    ensures
        upload_step(UploadFlowView::AwaitingCount(Some(d)), UploadEventView::Count(count), target)
            == (UploadFlowView::AwaitingFile(target), seq![ActionView::FetchFile(d.file_id)]),
{
}

/// Below the limit, an upload without a document, or of a document without a name,
/// ends at the start with the matching message (and gives up after the latter).
pub proof fn upload_needs_a_named_document(document: Option<DocumentView>, count: int, target: Seq<char>)
    requires
        count < MAX_UPLOADS,
    ensures
        document is None ==> upload_step(
            UploadFlowView::AwaitingCount(document),
            UploadEventView::Count(count),
            target,
        ) == (UploadFlowView::Finished, seq![say(NO_DOCUMENT@), go_to(State::Start)]),
        document matches Some(d) ==> (d.file_name is None ==> upload_step(
            UploadFlowView::AwaitingCount(document),
            UploadEventView::Count(count),
            target,
        ) == (
            UploadFlowView::Finished,
            seq![say(NO_FILE_NAME@), go_to(State::Start), ActionView::Abort],
        )),
{
}

/// At the limit or above, the user is told so and the upload ends at the start.
pub proof fn upload_refused_at_limit(document: Option<DocumentView>, count: int, target: Seq<char>)
    requires
        count >= MAX_UPLOADS,
    ensures
        upload_step(UploadFlowView::AwaitingCount(document), UploadEventView::Count(count), target)
            == (UploadFlowView::Finished, seq![say(UPLOAD_LIMIT_REACHED@), go_to(State::Start)]),
{
}

/// The fetched Telegram file is downloaded into the chosen path; a completed download
/// is stored from that path, a failed one has that path removed.
pub proof fn upload_downloads_then_stores_or_removes(
    path: Seq<char>,
    source: Seq<char>,
    ok: bool,
    target: Seq<char>,
)
    ensures
        upload_step(UploadFlowView::AwaitingFile(path), UploadEventView::FileFetched(source), target)
            == (UploadFlowView::AwaitingDownload(path), seq![ActionView::Download(source, path)]),
        upload_step(UploadFlowView::AwaitingDownload(path), UploadEventView::Downloaded(ok), target)
            == if ok {
            (UploadFlowView::AwaitingStore, seq![ActionView::StoreBook(path)])
        } else {
            (UploadFlowView::AwaitingRemoval, seq![ActionView::RemoveFile(path)])
        },
{
}

/// The end of an upload: after storing, the user learns whether the book was created;
/// after removing a failed download, whether the download failed (when the file could
/// be removed); either way the dialogue goes back to the start.
pub proof fn upload_ends_with_its_outcome(ok: bool, target: Seq<char>)
    ensures
        upload_step(UploadFlowView::AwaitingStore, UploadEventView::Stored(ok), target) == (
            UploadFlowView::Finished,
            seq![say(if ok { BOOK_CREATED@ } else { STORE_FAILED@ }), go_to(State::Start)],
        ),
        upload_step(UploadFlowView::AwaitingRemoval, UploadEventView::Removed(ok), target) == (
            UploadFlowView::Finished,
            if ok {
                seq![say(DOWNLOAD_FAILED@), go_to(State::Start)]
            } else {
                seq![go_to(State::Start)]
            },
        ),
{
}

/// An event the upload does not wait for changes nothing and asks for nothing.
pub proof fn unexpected_events_change_nothing(
    flow: UploadFlowView,
    event: UploadEventView,
    target: Seq<char>,
)
    requires
        !(match (flow, event) {
            (UploadFlowView::AwaitingCount(_), UploadEventView::Count(_)) => true,
            (UploadFlowView::AwaitingFile(_), UploadEventView::FileFetched(_)) => true,
            (UploadFlowView::AwaitingDownload(_), UploadEventView::Downloaded(_)) => true,
            (UploadFlowView::AwaitingStore, UploadEventView::Stored(_)) => true,
            (UploadFlowView::AwaitingRemoval, UploadEventView::Removed(_)) => true,
            _ => false,
        }),
    ensures
        upload_step(flow, event, target) == (flow, Seq::<ActionView>::empty()),
{
}

} // verus!
