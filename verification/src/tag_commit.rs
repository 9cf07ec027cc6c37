//! The tag popup: a modal component that attaches a named tag to the
//! currently targeted commit.
//!
//! While visible it claims exclusive input: keystrokes go first to the
//! composed text widget, then to the popup's own Enter handler; every other
//! key press is swallowed. On Enter the backend tag operation runs, the
//! popup closes, and exactly one outcome event is pushed onto the internal
//! queue: a refresh request on success, a user-facing error otherwise.

use vstd::prelude::*;
use vstd::string::StringExecFns;

use crate::command::CommandBlocking;
use crate::command::CommandInfo;
use crate::command::CommandInfoView;
use crate::commit_id::CommitId;
use crate::events::InputEvent;
use crate::events::InternalEvent;
use crate::events::InternalEventView;
use crate::events::KeyCode;
use crate::events::NeedsUpdate;
use crate::queue::Queue;
use crate::textinput::close_popup_name;
use crate::textinput::text_input_claims;
use crate::textinput::text_input_step;
use crate::textinput::TextInputComponent;
use crate::textinput::TextInputView;
use crate::ShowError;

verus! {

/// Relies on `git2::Oid::from_str` to parse the hexadecimal commit id, and
/// on `asyncgit::sync::tag` to create the named tag pointing at that commit
/// in the repository of the current working directory. Either failure is
/// returned as its display text; nothing can be promised about the result,
/// which depends on the repository on disk.
#[verifier::external_body]
fn backend_tag(id: &CommitId, tag_name: &str) -> (r: Result<(), String>) {
    let oid = match git2::Oid::from_str(id.text().as_str()) {
        Ok(oid) => oid,
        Err(e) => return Err(format!("{}", e)),
    };
    match asyncgit::sync::tag(asyncgit::CWD, &asyncgit::sync::CommitId::new(oid), tag_name) {
        Ok(_) => Ok(()),
        Err(e) => Err(format!("{}", e)),
    }
}

/// The text of the confirm hint the popup offers.
pub open spec fn confirm_tag_name() -> Seq<char> {
    "confirm tag"@
}

/// The user-facing message queued when the backend refuses a tag whose
/// failure text is `m`.
pub open spec fn tag_error_msg(m: Seq<char>) -> Seq<char> {
    "tag error:\n"@ + m
}

/// The mathematical value of the popup: the composed widget, the target
/// commit (absent only before the first `open`), and the queue it reports
/// outcomes to.
pub struct TagCommitView {
    pub input: TextInputView,
    pub commit_id: Option<Seq<char>>,
    pub queue: Seq<InternalEventView>,
}

/// The backend outcome abstracted to its failure text.
pub open spec fn outcome_view(res: Result<(), String>) -> Result<(), Seq<char>> {
    match res {
        Ok(_) => Ok(()),
        Err(e) => Err(e@),
    }
}

/// The popup's value after a confirmation resolved with outcome `res`: the
/// popup always closes and exactly one event is queued. On success the
/// captured text is also cleared and a refresh request is queued; on failure
/// the error message is queued. The target is kept either way.
pub open spec fn tag_apply(pre: TagCommitView, res: Result<(), Seq<char>>) -> TagCommitView {
    match res {
        Ok(_) => TagCommitView {
            input: TextInputView { visible: false, text: Seq::<char>::empty() },
            commit_id: pre.commit_id,
            queue: pre.queue.push(InternalEventView::Update(NeedsUpdate::All)),
        },
        Err(m) => TagCommitView {
            input: TextInputView { visible: false, text: pre.input.text },
            commit_id: pre.commit_id,
            queue: pre.queue.push(InternalEventView::ShowErrorMsg(tag_error_msg(m))),
        },
    }
}

/// How a confirmation relates the popup's value before and after: without a
/// target nothing happens at all; with a target, some backend outcome was
/// applied as [`tag_apply`] says.
pub open spec fn tag_transition(pre: TagCommitView, post: TagCommitView) -> bool {
    match pre.commit_id {
        None => post == pre,
        Some(_) => exists|res: Result<(), Seq<char>>| post == tag_apply(pre, res),
    }
}

/// A successful confirmation always leaves the captured text empty and the
/// popup hidden, and appends exactly one refresh request — and no error —
/// to the queue, whatever the popup held before.
pub proof fn lemma_tag_success(pre: TagCommitView)
    ensures
        tag_apply(pre, Ok(())).input.text == Seq::<char>::empty(),
        !tag_apply(pre, Ok(())).input.visible,
        tag_apply(pre, Ok(())).queue == pre.queue.push(
            InternalEventView::Update(NeedsUpdate::All),
        ),
{
}

/// A failed confirmation with failure text `m` always leaves the popup
/// hidden and the captured text untouched, and appends exactly one error
/// event — carrying the failure text behind the fixed prefix — and no
/// refresh request to the queue.
pub proof fn lemma_tag_failure(pre: TagCommitView, m: Seq<char>)
    ensures
        !tag_apply(pre, Err(m)).input.visible,
        tag_apply(pre, Err(m)).input.text == pre.input.text,
        tag_apply(pre, Err(m)).queue == pre.queue.push(
            InternalEventView::ShowErrorMsg(tag_error_msg(m)),
        ),
{
}

/// While the popup has never been opened there is no target, so a
/// confirmation changes nothing at all: in particular no event is queued.
pub proof fn lemma_tag_without_target(pre: TagCommitView, post: TagCommitView)
    requires
        pre.commit_id is None,
        tag_transition(pre, post),
    ensures
        post == pre,
{
}

/// Every confirmation with a target — however the backend resolved —
/// closes the popup, keeps the target, keeps every event that was already
/// queued, and queues exactly one outcome event: never zero, never more.
pub proof fn lemma_confirmation_queues_exactly_one(pre: TagCommitView, post: TagCommitView)
    requires
        pre.commit_id is Some,
        tag_transition(pre, post),
    ensures
        post.queue.len() == pre.queue.len() + 1,
        post.queue.subrange(0, pre.queue.len() as int) == pre.queue,
        !post.input.visible,
        post.commit_id == pre.commit_id,
{
    let res = choose|res: Result<(), Seq<char>>| post == tag_apply(pre, res);
    assert(post == tag_apply(pre, res));
    assert(post.queue.subrange(0, pre.queue.len() as int) =~= pre.queue);
}

/// Whether the Enter key was pressed.
pub open spec fn enter_pressed(ev: InputEvent) -> bool {
    ev matches InputEvent::Key(KeyCode::Enter)
}

/// The modal popup that tags the targeted commit.
pub struct TagCommitComponent {
    input: TextInputComponent,
    commit_id: Option<CommitId>,
    queue: Queue,
}

impl View for TagCommitComponent {
    type V = TagCommitView;

    closed spec fn view(&self) -> TagCommitView {
        TagCommitView {
            input: self.input@,
            commit_id: match self.commit_id {
                Some(id) => Some(id@),
                None => None,
            },
            queue: self.queue@,
        }
    }
}

impl TagCommitComponent {
    /// Creates the popup at application startup: hidden, without a target,
    /// owning the given outcome queue.
    pub fn new(queue: Queue) -> (r: TagCommitComponent)
        ensures
            r@ == (TagCommitView {
                input: TextInputView { visible: false, text: Seq::<char>::empty() },
                commit_id: None,
                queue: queue@,
            }),
    {
        TagCommitComponent {
            input: TextInputComponent::new("Tag", "type tag name"),
            commit_id: None,
            queue,
        }
    }

    /// Whether the popup is currently shown.
    pub fn is_visible(&self) -> (b: bool)
        ensures
            b == self@.input.visible,
    {
        self.input.is_visible()
    }

    /// Makes the popup visible; everything else is kept.
    pub fn show(&mut self) -> (r: Result<(), ShowError>)
        ensures
            r is Ok,
            final(self)@ == (TagCommitView {
                input: TextInputView { visible: true, text: old(self)@.input.text },
                commit_id: old(self)@.commit_id,
                queue: old(self)@.queue,
            }),
    {
        self.input.show()
    }

    /// Closes the popup, making it invisible; everything else is kept.
    pub fn close(&mut self)
        ensures
            final(self)@ == (TagCommitView {
                input: TextInputView { visible: false, text: old(self)@.input.text },
                commit_id: old(self)@.commit_id,
                queue: old(self)@.queue,
            }),
    {
        self.input.close()
    }

    /// Records the commit to tag and shows the popup. After it returns the
    /// popup is visible and the given commit is the target.
    pub fn open(&mut self, id: CommitId) -> (r: Result<(), ShowError>)
        ensures
            r is Ok,
            final(self)@ == (TagCommitView {
                input: TextInputView { visible: true, text: old(self)@.input.text },
                commit_id: Some(id@),
                queue: old(self)@.queue,
            }),
    {
        self.commit_id = Some(id);
        self.show()
    }

    /// Appends the available command hints and classifies the popup for the
    /// host: the hints (the widget's close hint, then the confirm hint) are
    /// appended exactly when the popup is visible or every hint was asked
    /// for, and a visible popup blocks the hints of other components.
    pub fn commands(&self, out: &mut Vec<CommandInfo>, force_all: bool) -> (r: CommandBlocking)
        ensures
            self@.input.visible || force_all ==> final(out)@.len() == old(out)@.len() + 2,
            self@.input.visible || force_all ==> forall|i: int|
                0 <= i < old(out)@.len() ==> final(out)@[i] == old(out)@[i],
            self@.input.visible || force_all ==> final(out)@[old(out)@.len() as int]@
                == (CommandInfoView {
                name: close_popup_name(),
                enabled: true,
                available: self@.input.visible,
            }),
            self@.input.visible || force_all ==> final(out)@[old(out)@.len() as int + 1]@
                == (CommandInfoView { name: confirm_tag_name(), enabled: true, available: true }),
            !(self@.input.visible || force_all) ==> final(out)@ == old(out)@,
            r == (if self@.input.visible {
                CommandBlocking::Blocking
            } else {
                CommandBlocking::PassingOn
            }),
    {
        if self.is_visible() || force_all {
            self.input.commands(out, force_all);
            let confirm = CommandInfo::new("confirm tag", true, true);
            out.push(confirm);
        }
        if self.is_visible() {
            CommandBlocking::Blocking
        } else {
            CommandBlocking::PassingOn
        }
    }

    /// Routes an input event. While hidden nothing is consumed. While
    /// visible the widget is served first; otherwise Enter confirms the tag,
    /// any other key press is swallowed to keep input exclusive, and only
    /// non-key events fall through unconsumed.
    pub fn event(&mut self, ev: InputEvent) -> (r: Result<bool, ShowError>)
        ensures
            !old(self)@.input.visible ==> r == Ok::<bool, ShowError>(false) && final(self)@
                == old(self)@,
            text_input_claims(old(self)@.input, ev) ==> r == Ok::<bool, ShowError>(true)
                && final(self)@ == (TagCommitView {
                input: text_input_step(old(self)@.input, ev),
                commit_id: old(self)@.commit_id,
                queue: old(self)@.queue,
            }),
            old(self)@.input.visible && !text_input_claims(old(self)@.input, ev)
                && enter_pressed(ev) ==> r == Ok::<bool, ShowError>(true) && tag_transition(
                old(self)@,
                final(self)@,
            ),
            old(self)@.input.visible && !text_input_claims(old(self)@.input, ev) && ev is Key
                && !enter_pressed(ev) ==> r == Ok::<bool, ShowError>(true) && final(self)@
                == old(self)@,
            old(self)@.input.visible && !(ev is Key) ==> r == Ok::<bool, ShowError>(false)
                && final(self)@ == old(self)@,
    {
        if self.is_visible() {
            let consumed = match self.input.event(ev) {
                Ok(b) => b,
                Err(e) => {
                    return Err(e);
                },
            };
            if consumed {
                return Ok(true);
            }
            if let InputEvent::Key(code) = ev {
                if let KeyCode::Enter = code {
                    self.tag();
                }
                return Ok(true);
            }
        }
        Ok(false)
    }

    /// The text captured by the composed widget so far.
    pub fn get_text(&self) -> (r: &String)
        ensures
            r@ == self@.input.text,
    {
        self.input.get_text()
    }

    /// Hands the main loop the oldest queued outcome event, or `None` when
    /// nothing is queued. The popup itself is untouched.
    pub fn pop_event(&mut self) -> (r: Option<InternalEvent>)
        ensures
            final(self)@.input == old(self)@.input,
            final(self)@.commit_id == old(self)@.commit_id,
            old(self)@.queue.len() == 0 ==> r is None && final(self)@.queue == old(self)@.queue,
            old(self)@.queue.len() > 0 ==> (r matches Some(e) && e@ == old(self)@.queue[0]
                && final(self)@.queue == old(self)@.queue.drop_first()),
    {
        self.queue.pop_front()
    }

    /// Confirms the tag: without a target this does nothing; with a target
    /// the backend operation runs on the target and the captured text, and
    /// its outcome is applied as [`tag_apply`] says.
    pub fn tag(&mut self)
        ensures
            tag_transition(old(self)@, final(self)@),
    {
        let outcome: Option<Result<(), String>> = match &self.commit_id {
            Some(id) => Some(backend_tag(id, self.input.get_text().as_str())),
            None => None,
        };
        match outcome {
            Some(res) => {
                let ghost resv = outcome_view(res);
                self.tag_outcome(res);
                proof {
                    assert(self@ == tag_apply(old(self)@, resv));
                }
            },
            None => {},
        }
    }

    /// Applies a resolved backend outcome: closes the popup and queues
    /// exactly one event; on success the captured text is cleared first and
    /// a refresh request is queued, on failure the error message is queued.
    pub fn tag_outcome(&mut self, res: Result<(), String>)
        ensures
            final(self)@ == tag_apply(old(self)@, outcome_view(res)),
    {
        match res {
            Ok(_) => {
                self.input.clear();
                self.input.close();
                self.queue.push_back(InternalEvent::Update(NeedsUpdate::All));
            },
            Err(e) => {
                self.input.close();
                let mut msg = "tag error:\n".to_owned();
                msg.append(e.as_str());
                self.queue.push_back(InternalEvent::ShowErrorMsg(msg));
            },
        }
    }
}

} // verus!
