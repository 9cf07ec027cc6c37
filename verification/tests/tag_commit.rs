use tag_commit::command::CommandBlocking;
use tag_commit::command::CommandInfo;
use tag_commit::commit_id::CommitId;
use tag_commit::events::InputEvent;
use tag_commit::events::InternalEvent;
use tag_commit::events::KeyCode;
use tag_commit::events::NeedsUpdate;
use tag_commit::queue::Queue;
use tag_commit::tag_commit::TagCommitComponent;

fn fresh() -> TagCommitComponent {
    TagCommitComponent::new(Queue::new())
}

fn key(code: KeyCode) -> InputEvent {
    InputEvent::Key(code)
}

fn type_text(c: &mut TagCommitComponent, text: &str) {
    for ch in text.chars() {
        assert_eq!(c.event(key(KeyCode::Char(ch))), Ok(true));
    }
}

#[test]
fn open_makes_visible() {
    let mut c = fresh();
    assert!(!c.is_visible());
    let r = c.open(CommitId::new(String::from("abc123")));
    assert!(r.is_ok());
    assert!(c.is_visible());
}

#[test]
fn typing_edits_the_captured_text() {
    let mut c = fresh();
    c.open(CommitId::new(String::from("abc123"))).unwrap();
    type_text(&mut c, "v1.0");
    assert_eq!(c.get_text().as_str(), "v1.0");
    assert_eq!(c.event(key(KeyCode::Backspace)), Ok(true));
    assert_eq!(c.get_text().as_str(), "v1.");
    assert_eq!(c.pop_event(), None);
}

#[test]
fn successful_confirmation_clears_hides_and_queues_one_refresh() {
    let mut c = fresh();
    c.open(CommitId::new(String::from("abc123"))).unwrap();
    type_text(&mut c, "v1.0");
    c.tag_outcome(Ok(()));
    assert_eq!(c.get_text().as_str(), "");
    assert!(!c.is_visible());
    assert_eq!(c.pop_event(), Some(InternalEvent::Update(NeedsUpdate::All)));
    assert_eq!(c.pop_event(), None);
}

#[test]
fn failed_confirmation_hides_and_queues_one_error() {
    let mut c = fresh();
    c.open(CommitId::new(String::from("abc123"))).unwrap();
    type_text(&mut c, "v1.0");
    c.tag_outcome(Err(String::from("tag already exists")));
    assert!(!c.is_visible());
    assert_eq!(
        c.pop_event(),
        Some(InternalEvent::ShowErrorMsg(String::from(
            "tag error:\ntag already exists"
        )))
    );
    assert_eq!(c.pop_event(), None);
    assert_eq!(c.get_text().as_str(), "v1.0");
}

#[test]
fn confirmation_without_a_target_does_nothing() {
    let mut c = fresh();
    c.tag();
    assert_eq!(c.pop_event(), None);
    assert!(!c.is_visible());
}

#[test]
fn enter_while_never_opened_is_not_consumed_and_queues_nothing() {
    let mut c = fresh();
    assert_eq!(c.event(key(KeyCode::Enter)), Ok(false));
    assert_eq!(c.pop_event(), None);
}

#[test]
fn enter_with_an_unparsable_target_reports_one_error() {
    let mut c = fresh();
    c.open(CommitId::new(String::from("not-a-hex-id"))).unwrap();
    type_text(&mut c, "v1.0");
    assert_eq!(c.event(key(KeyCode::Enter)), Ok(true));
    assert!(!c.is_visible());
    match c.pop_event() {
        Some(InternalEvent::ShowErrorMsg(msg)) => {
            assert!(msg.starts_with("tag error:\n"));
        }
        other => panic!("expected an error event, got {:?}", other),
    }
    assert_eq!(c.pop_event(), None);
}

#[test]
fn enter_with_an_unknown_commit_reports_one_error() {
    let mut c = fresh();
    c.open(CommitId::new(String::from(
        "0123456789abcdef0123456789abcdef01234567",
    )))
    .unwrap();
    type_text(&mut c, "v1.0");
    assert_eq!(c.event(key(KeyCode::Enter)), Ok(true));
    assert!(!c.is_visible());
    match c.pop_event() {
        Some(InternalEvent::ShowErrorMsg(msg)) => {
            assert!(msg.starts_with("tag error:\n"));
        }
        other => panic!("expected an error event, got {:?}", other),
    }
    assert_eq!(c.pop_event(), None);
}

#[test]
fn unclaimed_keys_are_swallowed_while_visible() {
    let mut c = fresh();
    c.open(CommitId::new(String::from("abc123"))).unwrap();
    assert_eq!(c.event(key(KeyCode::Other)), Ok(true));
    assert!(c.is_visible());
    assert_eq!(c.pop_event(), None);
}

#[test]
fn non_key_events_fall_through_while_visible() {
    let mut c = fresh();
    c.open(CommitId::new(String::from("abc123"))).unwrap();
    assert_eq!(c.event(InputEvent::Mouse), Ok(false));
    assert_eq!(c.event(InputEvent::Resize), Ok(false));
    assert!(c.is_visible());
}

#[test]
fn events_while_hidden_are_ignored() {
    let mut c = fresh();
    assert_eq!(c.event(key(KeyCode::Char('x'))), Ok(false));
    assert_eq!(c.get_text().as_str(), "");
}

#[test]
fn escape_cancels_inside_the_widget() {
    let mut c = fresh();
    c.open(CommitId::new(String::from("abc123"))).unwrap();
    assert_eq!(c.event(key(KeyCode::Esc)), Ok(true));
    assert!(!c.is_visible());
    assert_eq!(c.pop_event(), None);
}

#[test]
fn commands_offer_confirm_exactly_when_visible_or_forced() {
    let mut c = fresh();

    let mut out: Vec<CommandInfo> = Vec::new();
    assert_eq!(c.commands(&mut out, false), CommandBlocking::PassingOn);
    assert!(out.is_empty());

    let mut out: Vec<CommandInfo> = Vec::new();
    assert_eq!(c.commands(&mut out, true), CommandBlocking::PassingOn);
    assert_eq!(out.len(), 2);
    assert_eq!(out[1].name.as_str(), "confirm tag");
    assert!(out[1].enabled);
    assert!(out[1].available);

    c.open(CommitId::new(String::from("abc123"))).unwrap();
    let mut out: Vec<CommandInfo> = Vec::new();
    assert_eq!(c.commands(&mut out, false), CommandBlocking::Blocking);
    assert_eq!(out.len(), 2);
    assert_eq!(out[0].name.as_str(), "close popup");
    assert!(out[0].available);
    assert_eq!(out[1].name.as_str(), "confirm tag");
}

#[test]
fn show_and_close_toggle_visibility_and_keep_the_text() {
    let mut c = fresh();
    c.open(CommitId::new(String::from("abc123"))).unwrap();
    type_text(&mut c, "v1");
    c.close();
    assert!(!c.is_visible());
    assert_eq!(c.get_text().as_str(), "v1");
    assert!(c.show().is_ok());
    assert!(c.is_visible());
    assert_eq!(c.get_text().as_str(), "v1");
}

#[test]
fn the_queue_is_first_in_first_out() {
    let mut q = Queue::new();
    assert!(q.is_empty());
    q.push_back(InternalEvent::Update(NeedsUpdate::All));
    q.push_back(InternalEvent::ShowErrorMsg(String::from("m")));
    assert_eq!(q.len(), 2);
    assert_eq!(q.pop_front(), Some(InternalEvent::Update(NeedsUpdate::All)));
    assert_eq!(
        q.pop_front(),
        Some(InternalEvent::ShowErrorMsg(String::from("m")))
    );
    assert_eq!(q.pop_front(), None);
}

#[test]
fn commit_id_keeps_its_text() {
    let id = CommitId::new(String::from("abc123"));
    assert_eq!(id.text().as_str(), "abc123");
}
