use book_bot::dialogue::{Action, DialogueOp, Reply, State};
use book_bot::upload::{upload_target, Document, UploadEvent, UploadFlow};

fn text(t: &str) -> Action {
    Action::Send(Reply::Text(t.to_string()))
}

fn to_start() -> Action {
    Action::Dialogue(DialogueOp::Update(State::Start))
}

fn document(name: Option<&str>) -> Option<Document> {
    Some(Document { file_id: "file-1".to_string(), file_name: name.map(|n| n.to_string()) })
}

#[test]
fn upload_starts_by_counting() {
    let (flow, acts) = State::upload_book(document(Some("a.epub")));
    assert_eq!(acts, vec![Action::LoadUploadCount]);
    assert_eq!(flow, UploadFlow::AwaitingCount(document(Some("a.epub"))));
}

#[test]
fn successful_upload() {
    let (flow, _) = State::upload_book(document(Some("dune.epub")));
    let (flow, acts) = flow.step(UploadEvent::Count(4));
    assert_eq!(acts, vec![Action::FetchFile("file-1".to_string())]);
    let (flow, acts) = flow.step(UploadEvent::FileFetched("documents/file_1.epub".to_string()));
    assert_eq!(
        acts,
        vec![Action::Download("documents/file_1.epub".to_string(), "./books/dune.epub".to_string())]
    );
    let (flow, acts) = flow.step(UploadEvent::Downloaded(true));
    assert_eq!(acts, vec![Action::StoreBook("./books/dune.epub".to_string())]);
    let (flow, acts) = flow.step(UploadEvent::Stored(true));
    assert_eq!(acts, vec![text("Book created :)\nNow you can search for it"), to_start()]);
    assert!(flow.is_finished());
}

#[test]
fn upload_limit() {
    let (flow, _) = State::upload_book(document(Some("dune.epub")));
    let (flow, acts) = flow.step(UploadEvent::Count(5));
    assert_eq!(acts, vec![text("You can't upload more than 5 books.\nDelete some"), to_start()]);
    assert!(flow.is_finished());
    let (flow, acts) = flow.step(UploadEvent::FileFetched("x".to_string()));
    assert!(acts.is_empty());
    assert!(flow.is_finished());
}

#[test]
fn upload_limit_above_five() {
    let (flow, _) = State::upload_book(document(Some("e.epub")));
    let (flow, acts) = flow.step(UploadEvent::Count(9));
    assert_eq!(acts, vec![text("You can't upload more than 5 books.\nDelete some"), to_start()]);
    assert!(flow.is_finished());
}

#[test]
fn upload_without_document() {
    let (flow, _) = State::upload_book(None);
    let (flow, acts) = flow.step(UploadEvent::Count(0));
    assert_eq!(acts, vec![text("No documents were found :("), to_start()]);
    assert!(flow.is_finished());
}

#[test]
fn upload_without_file_name() {
    let (flow, _) = State::upload_book(document(None));
    let (flow, acts) = flow.step(UploadEvent::Count(0));
    assert_eq!(acts, vec![text("Cannot get the name of the book :("), to_start(), Action::Abort]);
    assert!(flow.is_finished());
}

#[test]
fn failed_store() {
    let (flow, _) = State::upload_book(document(Some("b.pdf")));
    let (flow, _) = flow.step(UploadEvent::Count(1));
    let (flow, _) = flow.step(UploadEvent::FileFetched("p".to_string()));
    let (flow, _) = flow.step(UploadEvent::Downloaded(true));
    let (flow, acts) = flow.step(UploadEvent::Stored(false));
    assert_eq!(acts, vec![text("Some error happened"), to_start()]);
    assert!(flow.is_finished());
}

#[test]
fn failed_download_removes_the_file() {
    let (flow, _) = State::upload_book(document(Some("c.epub")));
    let (flow, _) = flow.step(UploadEvent::Count(2));
    let (flow, _) = flow.step(UploadEvent::FileFetched("p".to_string()));
    let (flow, acts) = flow.step(UploadEvent::Downloaded(false));
    assert_eq!(acts, vec![Action::RemoveFile("./books/c.epub".to_string())]);
    let (done, acts) = flow.step(UploadEvent::Removed(true));
    assert_eq!(acts, vec![text("Error downlaoding the file :("), to_start()]);
    assert!(done.is_finished());
}

#[test]
fn failed_removal_still_returns_to_start() {
    let flow = UploadFlow::AwaitingRemoval;
    let (flow, acts) = flow.step(UploadEvent::Removed(false));
    assert_eq!(acts, vec![to_start()]);
    assert!(flow.is_finished());
}

#[test]
fn unexpected_events_change_nothing() {
    let flow = UploadFlow::AwaitingDownload("./books/x.epub".to_string());
    let (flow, acts) = flow.step(UploadEvent::Count(1));
    assert!(acts.is_empty());
    assert_eq!(flow, UploadFlow::AwaitingDownload("./books/x.epub".to_string()));
}

#[test]
fn targets_live_in_the_books_directory() {
    assert_eq!(upload_target("The_Artists_Way.epub"), "./books/The_Artists_Way.epub");
    assert_eq!(upload_target(""), "./books/");
    assert_eq!(upload_target("sub/x.epub"), "./books/sub/x.epub");
    assert_eq!(upload_target("Dune: Messiah.epub"), "./books/Dune: Messiah.epub");
}
