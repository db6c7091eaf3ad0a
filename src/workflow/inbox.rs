//! Triage of one inbox task: do, defer or delegate it when it is actionable;
//! trash, incubate or file it for reference when it is not.
use vstd::prelude::*;

use crate::error::WorkflowError;
use crate::parser::created_id;
use crate::task::{reference_args, someday_args, task_command, tickle_args, Task};
use crate::text::{join2, views};
use crate::workflow::create::NewTask;
use crate::workflow::{ask_of, run_of, confirm, input, run, Ask, Creation, Reply, Request, StatefulEnum};
use crate::text::owned;

verus! {

/// A state of the triage, with the task being triaged.
#[derive(Clone, Debug)]
pub struct Workflow<S> {
    pub task: Task,
    pub state: S,
}

/// Asking whether the task is actionable.
#[derive(Clone, Copy, Debug)]
pub struct Starting;

#[derive(Clone, Copy, Debug, PartialEq, Eq, Structural)]
pub enum InactionStage {
    Choosing,
    Deleting,
    Referencing,
}

/// The task is not actionable.
#[derive(Clone, Copy, Debug)]
pub struct Inactioning {
    pub stage: InactionStage,
}

#[derive(Clone, Debug)]
pub enum IncubateStage {
    /// Asking whether to be reminded later.
    Asking,
    /// Asking when to be reminded.
    Scheduling,
    /// Hiding the task until the given time.
    Tickling(String),
    /// Moving the task to someday/maybe.
    Shelving,
}

#[derive(Clone, Debug)]
pub struct Incubating {
    pub stage: IncubateStage,
}

#[derive(Clone, Copy, Debug, PartialEq, Eq, Structural)]
pub enum ActionStage {
    Choosing,
    /// Asking, until it is, whether the task is done.
    Checking,
    Finishing,
}

/// The task is actionable.
#[derive(Clone, Copy, Debug)]
pub struct Actioning {
    pub stage: ActionStage,
}

#[derive(Clone, Debug)]
pub enum DeferStage {
    /// Creating the replacement task.
    Creating(NewTask),
    /// Deleting the original.
    Removing,
}

#[derive(Clone, Debug)]
pub struct Deferring {
    pub stage: DeferStage,
}

#[derive(Clone, Debug)]
pub enum DelegateStage {
    Choosing,
    /// Asking for the follow-up's reminder text.
    Messaging(Delegate),
    /// Asking when the follow-up appears.
    Scheduling(Delegate, String),
    /// Creating the follow-up.
    Following(Delegate, Creation),
    /// Noting on the follow-up where it came from.
    Linking(Delegate, Task),
    /// Noting on the follow-up how the task was delegated.
    Noting(Delegate, Task),
    /// Deleting the original.
    Removing,
}

#[derive(Clone, Debug)]
pub struct Delegating {
    pub stage: DelegateStage,
}

#[derive(Clone, Copy, Debug)]
pub struct Incubated;

#[derive(Clone, Copy, Debug)]
pub struct Referenced;

#[derive(Clone, Copy, Debug)]
pub struct Delegated;

#[derive(Clone, Copy, Debug)]
pub struct Deferred;

#[derive(Clone, Copy, Debug)]
pub struct Finished;

#[derive(Clone, Copy, Debug)]
pub struct Deleted;

#[derive(Clone, Debug)]
pub enum InboxItem {
    Starting(Workflow<Starting>),
    Inactioning(Workflow<Inactioning>),
    Incubating(Workflow<Incubating>),
    Incubated(Workflow<Incubated>),
    Referenced(Workflow<Referenced>),
    Actioning(Workflow<Actioning>),
    Delegating(Workflow<Delegating>),
    Delegated(Workflow<Delegated>),
    Deferring(Workflow<Deferring>),
    Deferred(Workflow<Deferred>),
    Finished(Workflow<Finished>),
    Deleted(Workflow<Deleted>),
}

/// What to do with a task that is not actionable.
#[derive(Clone, Copy, Debug, PartialEq, Eq, Structural)]
pub enum NonAction {
    Trash,
    Incubate,
    Reference,
}

impl NonAction {
    pub fn list() -> (r: Vec<NonAction>)
        ensures
            r@ == seq![NonAction::Trash, NonAction::Incubate, NonAction::Reference],
    {
        let r = vec![NonAction::Trash, NonAction::Incubate, NonAction::Reference];
        assert(r@ =~= seq![NonAction::Trash, NonAction::Incubate, NonAction::Reference]);
        r
    }
}

/// What to do with an actionable task.
#[derive(Clone, Copy, Debug, PartialEq, Eq, Structural)]
pub enum Action {
    Do,
    Defer,
    Delegate,
}

impl Action {
    pub fn list() -> (r: Vec<Action>)
        ensures
            r@ == seq![Action::Do, Action::Defer, Action::Delegate],
    {
        let r = vec![Action::Do, Action::Defer, Action::Delegate];
        assert(r@ =~= seq![Action::Do, Action::Defer, Action::Delegate]);
        r
    }
}

/// How a task was handed to someone else.
#[derive(Clone, Copy, Debug, PartialEq, Eq, Structural)]
pub enum Delegate {
    Slack,
    Email,
    Phone,
    Agenda,
}

impl Delegate {
    pub open spec fn all() -> Seq<Delegate> {
        seq![Delegate::Slack, Delegate::Email, Delegate::Phone, Delegate::Agenda]
    }

    pub fn list() -> (r: Vec<Delegate>)
        ensures
            r@ == Self::all(),
    {
        let r = vec![Delegate::Slack, Delegate::Email, Delegate::Phone, Delegate::Agenda];
        assert(r@ =~= Self::all());
        r
    }

    /// The note left on the follow-up.
    pub open spec fn annotation_spec(self) -> Seq<char> {
        match self {
            Delegate::Slack => "Sent a slack message"@,
            Delegate::Email => "Sent an email"@,
            Delegate::Phone => "Texted or called"@,
            Delegate::Agenda => "Meant to bring it up in the next meeting"@,
        }
    }

    pub fn annotation(&self) -> (r: &'static str)
        ensures
            r@ == self.annotation_spec(),
    {
        match self {
            Delegate::Slack => "Sent a slack message",
            Delegate::Email => "Sent an email",
            Delegate::Phone => "Texted or called",
            Delegate::Agenda => "Meant to bring it up in the next meeting",
        }
    }
}

pub open spec fn non_action_labels() -> Seq<Seq<char>> {
    seq!["Trash"@, "Incubate"@, "Reference"@]
}

pub open spec fn action_labels() -> Seq<Seq<char>> {
    seq!["Do it"@, "Defer"@, "Delegate"@]
}

pub open spec fn delegate_labels() -> Seq<Seq<char>> {
    seq![
        "Send a slack message to this person"@,
        "Send an email to this person"@,
        "Text/Call this person"@,
        "Make a note for the next meeting with this person"@,
    ]
}

/// The note that ties a follow-up to the task it follows up.
pub open spec fn follow_note(desc: Seq<char>) -> Seq<char> {
    "follow up from "@ + desc
}

fn select(prompt: &str, items: Vec<String>) -> (r: Request)
    ensures
        r@ == Ask::Select(prompt@, views(items@), 0),
{
    Request::Select { prompt: owned(prompt), items, default: 0 }
}

fn non_action_items() -> (r: Vec<String>)
    ensures
        views(r@) == non_action_labels(),
{
    let r = vec![owned("Trash"), owned("Incubate"), owned("Reference")];
    assert(views(r@) =~= non_action_labels());
    r
}

fn action_items() -> (r: Vec<String>)
    ensures
        views(r@) == action_labels(),
{
    let r = vec![owned("Do it"), owned("Defer"), owned("Delegate")];
    assert(views(r@) =~= action_labels());
    r
}

fn delegate_items() -> (r: Vec<String>)
    ensures
        views(r@) == delegate_labels(),
{
    let r = vec![
        owned("Send a slack message to this person"),
        owned("Send an email to this person"),
        owned("Text/Call this person"),
        owned("Make a note for the next meeting with this person"),
    ];
    assert(views(r@) =~= delegate_labels());
    r
}

fn run_request(cmd: Result<Vec<String>, WorkflowError>) -> (r: Result<Option<Request>, WorkflowError>)
    ensures
        match r {
            Ok(q) => run_of(crate::task::result_views(cmd)) == Ok::<Option<Ask>, WorkflowError>(ask_of(q)),
            Err(e) => run_of(crate::task::result_views(cmd)) == Err::<Option<Ask>, WorkflowError>(e),
        },
        r is Ok ==> r->Ok_0 is Some,
{
    match run(cmd) {
        Ok(q) => Ok(Some(q)),
        Err(e) => Err(e),
    }
}

/// The state a triage is in, without its data.
#[derive(Clone, Copy, Debug, PartialEq, Eq, Structural)]
pub enum Phase {
    AskActionable,
    ChooseNonAction,
    Delete,
    Reference,
    AskRemind,
    EnterWait,
    Tickle,
    Shelve,
    ChooseAction,
    AskDone,
    Finish,
    Defer,
    DeleteDeferred,
    ChooseChannel,
    EnterMessage,
    EnterFollowWait,
    CreateFollowUp,
    LinkFollowUp,
    NoteChannel,
    DeleteDelegated,
    Incubated,
    Referenced,
    Delegated,
    Deferred,
    Finished,
    Deleted,
}

impl InboxItem {
    pub fn new(task: Task) -> (r: InboxItem)
        ensures
            r.phase() == Phase::AskActionable,
            r.task() == task,
    {
        InboxItem::Starting(Workflow { task, state: Starting })
    }

    pub open spec fn task(self) -> Task {
        match self {
            InboxItem::Starting(w) => w.task,
            InboxItem::Inactioning(w) => w.task,
            InboxItem::Incubating(w) => w.task,
            InboxItem::Incubated(w) => w.task,
            InboxItem::Referenced(w) => w.task,
            InboxItem::Actioning(w) => w.task,
            InboxItem::Delegating(w) => w.task,
            InboxItem::Delegated(w) => w.task,
            InboxItem::Deferring(w) => w.task,
            InboxItem::Deferred(w) => w.task,
            InboxItem::Finished(w) => w.task,
            InboxItem::Deleted(w) => w.task,
        }
    }

    pub open spec fn phase(self) -> Phase {
        match self {
            InboxItem::Starting(_) => Phase::AskActionable,
            InboxItem::Inactioning(w) => match w.state.stage {
                InactionStage::Choosing => Phase::ChooseNonAction,
                InactionStage::Deleting => Phase::Delete,
                InactionStage::Referencing => Phase::Reference,
            },
            InboxItem::Incubating(w) => match w.state.stage {
                IncubateStage::Asking => Phase::AskRemind,
                IncubateStage::Scheduling => Phase::EnterWait,
                IncubateStage::Tickling(_) => Phase::Tickle,
                IncubateStage::Shelving => Phase::Shelve,
            },
            InboxItem::Actioning(w) => match w.state.stage {
                ActionStage::Choosing => Phase::ChooseAction,
                ActionStage::Checking => Phase::AskDone,
                ActionStage::Finishing => Phase::Finish,
            },
            InboxItem::Deferring(w) => match w.state.stage {
                DeferStage::Creating(_) => Phase::Defer,
                DeferStage::Removing => Phase::DeleteDeferred,
            },
            InboxItem::Delegating(w) => match w.state.stage {
                DelegateStage::Choosing => Phase::ChooseChannel,
                DelegateStage::Messaging(_) => Phase::EnterMessage,
                DelegateStage::Scheduling(_, _) => Phase::EnterFollowWait,
                DelegateStage::Following(_, _) => Phase::CreateFollowUp,
                DelegateStage::Linking(_, _) => Phase::LinkFollowUp,
                DelegateStage::Noting(_, _) => Phase::NoteChannel,
                DelegateStage::Removing => Phase::DeleteDelegated,
            },
            InboxItem::Incubated(_) => Phase::Incubated,
            InboxItem::Referenced(_) => Phase::Referenced,
            InboxItem::Delegated(_) => Phase::Delegated,
            InboxItem::Deferred(_) => Phase::Deferred,
            InboxItem::Finished(_) => Phase::Finished,
            InboxItem::Deleted(_) => Phase::Deleted,
        }
    }

    /// The wait time chosen while incubating.
    pub open spec fn wait(self) -> Seq<char> {
        match self {
            InboxItem::Incubating(w) => match w.state.stage {
                IncubateStage::Tickling(t) => t@,
                _ => Seq::empty(),
            },
            _ => Seq::empty(),
        }
    }

    /// The replacement task's workflow while deferring.
    pub open spec fn nested(self) -> Option<NewTask> {
        match self {
            InboxItem::Deferring(w) => match w.state.stage {
                DeferStage::Creating(nt) => Some(nt),
                _ => None,
            },
            _ => None,
        }
    }

    /// The delegation channel, once chosen.
    pub open spec fn channel(self) -> Option<Delegate> {
        match self {
            InboxItem::Delegating(w) => match w.state.stage {
                DelegateStage::Messaging(d) => Some(d),
                DelegateStage::Scheduling(d, _) => Some(d),
                DelegateStage::Following(d, _) => Some(d),
                DelegateStage::Linking(d, _) => Some(d),
                DelegateStage::Noting(d, _) => Some(d),
                _ => None,
            },
            _ => None,
        }
    }

    /// The follow-up's reminder text, once given.
    pub open spec fn message(self) -> Seq<char> {
        match self {
            InboxItem::Delegating(w) => match w.state.stage {
                DelegateStage::Scheduling(_, m) => m@,
                _ => Seq::empty(),
            },
            _ => Seq::empty(),
        }
    }

    /// The follow-up's creation while it is under way.
    pub open spec fn creation(self) -> Option<Creation> {
        match self {
            InboxItem::Delegating(w) => match w.state.stage {
                DelegateStage::Following(_, c) => Some(c),
                _ => None,
            },
            _ => None,
        }
    }

    /// The follow-up, once created.
    pub open spec fn follow(self) -> Option<Task> {
        match self {
            InboxItem::Delegating(w) => match w.state.stage {
                DelegateStage::Linking(_, f) => Some(f),
                DelegateStage::Noting(_, f) => Some(f),
                _ => None,
            },
            _ => None,
        }
    }

    /// What a terminal state reports to the user.
    pub open spec fn summary_spec(self) -> Option<Seq<char>> {
        match self.phase() {
            Phase::Incubated => Some("Task incubated"@),
            Phase::Referenced => Some("Task filed for reference"@),
            Phase::Delegated => Some("Task delegated (original deleted)"@),
            Phase::Deferred => Some("Task deferred (original deleted)"@),
            Phase::Finished => Some("Task finished"@),
            Phase::Deleted => Some("Task deleted"@),
            _ => None,
        }
    }

    pub fn summary(&self) -> (r: Option<&'static str>)
        ensures
            match r {
                Some(s) => self.summary_spec() == Some(s@),
                None => self.summary_spec() is None,
            },
    {
        match self {
            InboxItem::Incubated(_) => Some("Task incubated"),
            InboxItem::Referenced(_) => Some("Task filed for reference"),
            InboxItem::Delegated(_) => Some("Task delegated (original deleted)"),
            InboxItem::Deferred(_) => Some("Task deferred (original deleted)"),
            InboxItem::Finished(_) => Some("Task finished"),
            InboxItem::Deleted(_) => Some("Task deleted"),
            _ => None,
        }
    }
}

impl StatefulEnum for InboxItem {
    open spec fn is_terminal(&self) -> bool {
        match self.phase() {
            Phase::Incubated | Phase::Referenced | Phase::Delegated | Phase::Deferred | Phase::Finished
            | Phase::Deleted => true,
            _ => false,
        }
    }

    open spec fn pending(&self) -> Result<Option<Ask>, WorkflowError> {
        let t = self.task();
        match self.phase() {
            Phase::AskActionable => Ok(Some(Ask::Confirm("Is this actionable (could you start work on this now)?"@, true))),
            Phase::ChooseNonAction => Ok(Some(Ask::Select("What would you like to do?"@, non_action_labels(), 0))),
            Phase::Delete | Phase::DeleteDeferred | Phase::DeleteDelegated => run_of(task_command(t, seq!["delete"@])),
            Phase::Reference => run_of(task_command(t, reference_args())),
            Phase::AskRemind => Ok(Some(Ask::Confirm("Would you like to be reminded about the task later?"@, true))),
            Phase::EnterWait => Ok(Some(Ask::Input("When would you like to be reminded? (any valid 'wait:' value)"@, Some("+1d"@)))),
            Phase::Tickle => run_of(task_command(t, tickle_args(self.wait()))),
            Phase::Shelve => run_of(task_command(t, someday_args())),
            Phase::ChooseAction => Ok(Some(Ask::Select("What would you like to do?"@, action_labels(), 0))),
            Phase::AskDone => Ok(Some(Ask::Confirm("Is it done?"@, true))),
            Phase::Finish => run_of(task_command(t, seq!["done"@])),
            Phase::Defer => match self.nested()->Some_0.pending() {
                Ok(None) => Err(WorkflowError::Terminated),
                other => other,
            },
            Phase::ChooseChannel => Ok(Some(Ask::Select("What would you like to do?"@, delegate_labels(), 0))),
            Phase::EnterMessage => Ok(Some(Ask::Input("What would you like the reminder for this follow-up to be?"@, None))),
            Phase::EnterFollowWait => Ok(Some(Ask::Input("When should this follow-up appear in your inbox?"@, None))),
            Phase::CreateFollowUp => match self.creation()->Some_0.pending() {
                Some(a) => Ok(Some(a)),
                None => Err(WorkflowError::Terminated),
            },
            Phase::LinkFollowUp => run_of(task_command(self.follow()->Some_0, seq!["annotate"@, follow_note(t.description@)])),
            Phase::NoteChannel => run_of(task_command(self.follow()->Some_0, seq!["annotate"@, self.channel()->Some_0.annotation_spec()])),
            _ => Ok(None),
        }
    }

    open spec fn steps_to(&self, reply: Reply, r: Result<InboxItem, WorkflowError>) -> bool {
        let ok = r is Ok;
        let n = r->Ok_0;
        let fits = match self.phase() {
            Phase::AskActionable | Phase::AskRemind | Phase::AskDone => reply is Confirmed,
            Phase::ChooseNonAction | Phase::ChooseAction | Phase::ChooseChannel => reply is Selected,
            Phase::EnterWait | Phase::EnterMessage | Phase::EnterFollowWait => reply is Text,
            Phase::Delete | Phase::Reference | Phase::Tickle | Phase::Shelve | Phase::Finish
            | Phase::DeleteDeferred | Phase::LinkFollowUp | Phase::NoteChannel
            | Phase::DeleteDelegated => reply is Output,
            _ => true,
        };
        let to = |p: Phase| ok && n.phase() == p;
        &&& (ok ==> n.task() == self.task())
        &&& (!fits ==> r == Err::<InboxItem, WorkflowError>(WorkflowError::UnexpectedReply))
        &&& (fits ==> match self.phase() {
            Phase::AskActionable => if reply->Confirmed_0 {
                to(Phase::ChooseAction)
            } else {
                to(Phase::ChooseNonAction)
            },
            Phase::ChooseNonAction => {
                let i = reply->Selected_0;
                if i == 0 {
                    to(Phase::Delete)
                } else if i == 1 {
                    to(Phase::AskRemind)
                } else if i == 2 {
                    to(Phase::Reference)
                } else {
                    r == Err::<InboxItem, WorkflowError>(WorkflowError::NoSuchChoice)
                }
            },
            Phase::Delete => to(Phase::Deleted),
            Phase::Reference => to(Phase::Referenced),
            Phase::AskRemind => if reply->Confirmed_0 {
                to(Phase::EnterWait)
            } else {
                to(Phase::Shelve)
            },
            Phase::EnterWait => to(Phase::Tickle) && n.wait() == reply->Text_0@,
            Phase::Tickle | Phase::Shelve => to(Phase::Incubated),
            Phase::ChooseAction => {
                let i = reply->Selected_0;
                if i == 0 {
                    to(Phase::AskDone)
                } else if i == 1 {
                    to(Phase::Defer) && n.nested()->Some_0.phase() == crate::workflow::create::Phase::AskProject
                        && n.nested()->Some_0.wf()
                } else if i == 2 {
                    to(Phase::ChooseChannel)
                } else {
                    r == Err::<InboxItem, WorkflowError>(WorkflowError::NoSuchChoice)
                }
            },
            Phase::AskDone => if reply->Confirmed_0 {
                to(Phase::Finish)
            } else {
                to(Phase::AskDone)
            },
            Phase::Finish => to(Phase::Finished),
            Phase::Defer => {
                let nt = self.nested()->Some_0;
                match r {
                    Ok(n) => if n.phase() == Phase::Defer {
                        nt.steps_to(reply, Ok(n.nested()->Some_0)) && !n.nested()->Some_0.is_terminal()
                    } else {
                        n.phase() == Phase::DeleteDeferred && exists|done: NewTask|
                            #[trigger] nt.steps_to(reply, Ok(done)) && done.is_terminal()
                    },
                    Err(e) => nt.steps_to(reply, Err(e)),
                }
            },
            Phase::DeleteDeferred => to(Phase::Deferred),
            Phase::ChooseChannel => if reply->Selected_0 < 4 {
                to(Phase::EnterMessage) && n.channel() == Some(Delegate::all()[reply->Selected_0 as int])
            } else {
                r == Err::<InboxItem, WorkflowError>(WorkflowError::NoSuchChoice)
            },
            Phase::EnterMessage => to(Phase::EnterFollowWait) && n.channel() == self.channel()
                && n.message() == reply->Text_0@,
            Phase::EnterFollowWait => to(Phase::CreateFollowUp) && n.channel() == self.channel()
                && n.creation()->Some_0 is Submitting
                && views(n.creation()->Some_0->Submitting_args@) == crate::task::add_args(
                    Task::follow_up_spec(self.message(), reply->Text_0@),
                ),
            Phase::CreateFollowUp => match self.creation()->Some_0 {
                Creation::Submitting { .. } => match reply {
                    Reply::Output(out) => match created_id(out@) {
                        Some(id) => to(Phase::CreateFollowUp) && n.channel() == self.channel()
                            && n.creation() == Some(Creation::Fetching { id }),
                        None => r == Err::<InboxItem, WorkflowError>(WorkflowError::UnreadableConfirmation),
                    },
                    _ => r == Err::<InboxItem, WorkflowError>(WorkflowError::UnexpectedReply),
                },
                Creation::Fetching { .. } => match reply {
                    Reply::Tasks(ts) => if ts@.len() > 0 {
                        to(Phase::LinkFollowUp) && n.channel() == self.channel() && n.follow() == Some(ts@[0])
                    } else {
                        r == Err::<InboxItem, WorkflowError>(WorkflowError::TaskNotFound)
                    },
                    _ => r == Err::<InboxItem, WorkflowError>(WorkflowError::UnexpectedReply),
                },
                Creation::Created { .. } => r == Err::<InboxItem, WorkflowError>(WorkflowError::Terminated),
            },
            Phase::LinkFollowUp => to(Phase::NoteChannel) && n.follow() == self.follow()
                && n.channel() == self.channel(),
            Phase::NoteChannel => to(Phase::DeleteDelegated),
            Phase::DeleteDelegated => to(Phase::Delegated),
            _ => r == Err::<InboxItem, WorkflowError>(WorkflowError::Terminated),
        })
    }

    fn terminated(&self) -> (r: bool) {
        match self {
            InboxItem::Incubated(_) | InboxItem::Referenced(_) | InboxItem::Delegated(_) | InboxItem::Deferred(_)
            | InboxItem::Finished(_) | InboxItem::Deleted(_) => true,
            _ => false,
        }
    }

    fn request(&self) -> (r: Result<Option<Request>, WorkflowError>) {
        match self {
            InboxItem::Starting(_) => Ok(Some(confirm("Is this actionable (could you start work on this now)?", true))),
            InboxItem::Inactioning(w) => match w.state.stage {
                InactionStage::Choosing => Ok(Some(select("What would you like to do?", non_action_items()))),
                InactionStage::Deleting => run_request(w.task.delete()),
                InactionStage::Referencing => run_request(w.task.reference()),
            },
            InboxItem::Incubating(w) => match &w.state.stage {
                IncubateStage::Asking => Ok(Some(confirm("Would you like to be reminded about the task later?", true))),
                IncubateStage::Scheduling => Ok(Some(input("When would you like to be reminded? (any valid 'wait:' value)", Some("+1d")))),
                IncubateStage::Tickling(wait) => run_request(w.task.tickle(wait.as_str())),
                IncubateStage::Shelving => run_request(w.task.someday()),
            },
            InboxItem::Actioning(w) => match w.state.stage {
                ActionStage::Choosing => Ok(Some(select("What would you like to do?", action_items()))),
                ActionStage::Checking => Ok(Some(confirm("Is it done?", true))),
                ActionStage::Finishing => run_request(w.task.finish()),
            },
            InboxItem::Deferring(w) => match &w.state.stage {
                DeferStage::Creating(nt) => match nt.request() {
                    Ok(None) => Err(WorkflowError::Terminated),
                    other => other,
                },
                DeferStage::Removing => run_request(w.task.delete()),
            },
            InboxItem::Delegating(w) => match &w.state.stage {
                DelegateStage::Choosing => Ok(Some(select("What would you like to do?", delegate_items()))),
                DelegateStage::Messaging(_) => Ok(Some(input("What would you like the reminder for this follow-up to be?", None))),
                DelegateStage::Scheduling(_, _) => Ok(Some(input("When should this follow-up appear in your inbox?", None))),
                DelegateStage::Following(_, c) => match c.request() {
                    Some(q) => Ok(Some(q)),
                    None => Err(WorkflowError::Terminated),
                },
                DelegateStage::Linking(_, f) => {
                    let note = join2("follow up from ", w.task.description.as_str());
                    run_request(f.annotate(note.as_str()))
                },
                DelegateStage::Noting(d, f) => run_request(f.annotate(d.annotation())),
                DelegateStage::Removing => run_request(w.task.delete()),
            },
            _ => Ok(None),
        }
    }

    fn step(self, reply: Reply) -> (r: Result<InboxItem, WorkflowError>) {
        match self {
            InboxItem::Starting(w) => match reply {
                Reply::Confirmed(yes) => if yes {
                    Ok(InboxItem::Actioning(Workflow { task: w.task, state: Actioning { stage: ActionStage::Choosing } }))
                } else {
                    Ok(InboxItem::Inactioning(Workflow { task: w.task, state: Inactioning { stage: InactionStage::Choosing } }))
                },
                _ => Err(WorkflowError::UnexpectedReply),
            },
            InboxItem::Inactioning(w) => match w.state.stage {
                InactionStage::Choosing => match reply {
                    Reply::Selected(i) => {
                        let choices = NonAction::list();
                        if i >= choices.len() {
                            Err(WorkflowError::NoSuchChoice)
                        } else {
                            match choices[i] {
                                NonAction::Trash => Ok(InboxItem::Inactioning(Workflow { task: w.task, state: Inactioning { stage: InactionStage::Deleting } })),
                                NonAction::Incubate => Ok(InboxItem::Incubating(Workflow { task: w.task, state: Incubating { stage: IncubateStage::Asking } })),
                                NonAction::Reference => Ok(InboxItem::Inactioning(Workflow { task: w.task, state: Inactioning { stage: InactionStage::Referencing } })),
                            }
                        }
                    },
                    _ => Err(WorkflowError::UnexpectedReply),
                },
                InactionStage::Deleting => match reply {
                    Reply::Output(_) => Ok(InboxItem::Deleted(Workflow { task: w.task, state: Deleted })),
                    _ => Err(WorkflowError::UnexpectedReply),
                },
                InactionStage::Referencing => match reply {
                    Reply::Output(_) => Ok(InboxItem::Referenced(Workflow { task: w.task, state: Referenced })),
                    _ => Err(WorkflowError::UnexpectedReply),
                },
            },
            InboxItem::Incubating(w) => {
                let Workflow { task, state } = w;
                match state.stage {
                    IncubateStage::Asking => match reply {
                        Reply::Confirmed(yes) => if yes {
                            Ok(InboxItem::Incubating(Workflow { task, state: Incubating { stage: IncubateStage::Scheduling } }))
                        } else {
                            Ok(InboxItem::Incubating(Workflow { task, state: Incubating { stage: IncubateStage::Shelving } }))
                        },
                        _ => Err(WorkflowError::UnexpectedReply),
                    },
                    IncubateStage::Scheduling => match reply {
                        Reply::Text(wait) => Ok(InboxItem::Incubating(Workflow { task, state: Incubating { stage: IncubateStage::Tickling(wait) } })),
                        _ => Err(WorkflowError::UnexpectedReply),
                    },
                    IncubateStage::Tickling(_) | IncubateStage::Shelving => match reply {
                        Reply::Output(_) => Ok(InboxItem::Incubated(Workflow { task, state: Incubated })),
                        _ => Err(WorkflowError::UnexpectedReply),
                    },
                }
            },
            InboxItem::Actioning(w) => match w.state.stage {
                ActionStage::Choosing => match reply {
                    Reply::Selected(i) => {
                        let choices = Action::list();
                        if i >= choices.len() {
                            Err(WorkflowError::NoSuchChoice)
                        } else {
                            match choices[i] {
                                Action::Do => Ok(InboxItem::Actioning(Workflow { task: w.task, state: Actioning { stage: ActionStage::Checking } })),
                                Action::Defer => Ok(InboxItem::Deferring(Workflow { task: w.task, state: Deferring { stage: DeferStage::Creating(NewTask::new()) } })),
                                Action::Delegate => Ok(InboxItem::Delegating(Workflow { task: w.task, state: Delegating { stage: DelegateStage::Choosing } })),
                            }
                        }
                    },
                    _ => Err(WorkflowError::UnexpectedReply),
                },
                ActionStage::Checking => match reply {
                    Reply::Confirmed(done) => if done {
                        Ok(InboxItem::Actioning(Workflow { task: w.task, state: Actioning { stage: ActionStage::Finishing } }))
                    } else {
                        Ok(InboxItem::Actioning(w))
                    },
                    _ => Err(WorkflowError::UnexpectedReply),
                },
                ActionStage::Finishing => match reply {
                    Reply::Output(_) => Ok(InboxItem::Finished(Workflow { task: w.task, state: Finished })),
                    _ => Err(WorkflowError::UnexpectedReply),
                },
            },
            InboxItem::Deferring(w) => {
                let Workflow { task, state } = w;
                match state.stage {
                    DeferStage::Creating(nt) => {
                        let nt = nt.step(reply)?;
                        if nt.terminated() {
                            Ok(InboxItem::Deferring(Workflow { task, state: Deferring { stage: DeferStage::Removing } }))
                        } else {
                            Ok(InboxItem::Deferring(Workflow { task, state: Deferring { stage: DeferStage::Creating(nt) } }))
                        }
                    },
                    DeferStage::Removing => match reply {
                        Reply::Output(_) => Ok(InboxItem::Deferred(Workflow { task, state: Deferred })),
                        _ => Err(WorkflowError::UnexpectedReply),
                    },
                }
            },
            InboxItem::Delegating(w) => {
                let Workflow { task, state } = w;
                match state.stage {
                    DelegateStage::Choosing => match reply {
                        Reply::Selected(i) => {
                            let choices = Delegate::list();
                            if i < choices.len() {
                                Ok(InboxItem::Delegating(Workflow { task, state: Delegating { stage: DelegateStage::Messaging(choices[i]) } }))
                            } else {
                                Err(WorkflowError::NoSuchChoice)
                            }
                        },
                        _ => Err(WorkflowError::UnexpectedReply),
                    },
                    DelegateStage::Messaging(d) => match reply {
                        Reply::Text(msg) => Ok(InboxItem::Delegating(Workflow { task, state: Delegating { stage: DelegateStage::Scheduling(d, msg) } })),
                        _ => Err(WorkflowError::UnexpectedReply),
                    },
                    DelegateStage::Scheduling(d, msg) => match reply {
                        Reply::Text(wait) => {
                            let b = Task::follow_up(msg.as_str(), wait.as_str());
                            let c = Creation::new(&b);
                            Ok(InboxItem::Delegating(Workflow { task, state: Delegating { stage: DelegateStage::Following(d, c) } }))
                        },
                        _ => Err(WorkflowError::UnexpectedReply),
                    },
                    DelegateStage::Following(d, c) => {
                        let c = c.step(reply)?;
                        match c {
                            Creation::Created { task: f } => Ok(InboxItem::Delegating(Workflow { task, state: Delegating { stage: DelegateStage::Linking(d, f) } })),
                            _ => Ok(InboxItem::Delegating(Workflow { task, state: Delegating { stage: DelegateStage::Following(d, c) } })),
                        }
                    },
                    DelegateStage::Linking(d, f) => match reply {
                        Reply::Output(_) => Ok(InboxItem::Delegating(Workflow { task, state: Delegating { stage: DelegateStage::Noting(d, f) } })),
                        _ => Err(WorkflowError::UnexpectedReply),
                    },
                    DelegateStage::Noting(_, _) => match reply {
                        Reply::Output(_) => Ok(InboxItem::Delegating(Workflow { task, state: Delegating { stage: DelegateStage::Removing } })),
                        _ => Err(WorkflowError::UnexpectedReply),
                    },
                    DelegateStage::Removing => match reply {
                        Reply::Output(_) => Ok(InboxItem::Delegated(Workflow { task, state: Delegated })),
                        _ => Err(WorkflowError::UnexpectedReply),
                    },
                }
            },
            _ => Err(WorkflowError::Terminated),
        }
    }
}

/// The triage ends in exactly six states: incubated, referenced, delegated,
/// deferred, finished and deleted.
pub proof fn lemma_inbox_terminal_states(w: InboxItem)
    ensures
        w.is_terminal() <==> (w is Incubated || w is Referenced || w is Delegated || w is Deferred || w is Finished
            || w is Deleted),
{
}

/// Doing a task waits for it to be done: while the answer to "Is it done?"
/// is no, the question is asked again and nothing is sent to the store; a
/// yes leads to the one command that finishes the task, after which the
/// triage is finished.
pub proof fn lemma_do_it_waits_until_done(
    w: InboxItem,
    answer: bool,
    r: Result<InboxItem, WorkflowError>,
    out: String,
    r2: Result<InboxItem, WorkflowError>,
)
    requires
        w.phase() == Phase::AskDone,
        w.steps_to(Reply::Confirmed(answer), r),
        r is Ok ==> r->Ok_0.steps_to(Reply::Output(out), r2),
    ensures
        w.pending() == Ok::<Option<Ask>, WorkflowError>(Some(Ask::Confirm("Is it done?"@, true))),
        r is Ok,
        !answer ==> r->Ok_0.phase() == Phase::AskDone && r->Ok_0.task() == w.task(),
        answer ==> r->Ok_0.phase() == Phase::Finish
            && r->Ok_0.pending() == run_of(task_command(w.task(), seq!["done"@])),
        answer ==> r2 is Ok && r2->Ok_0.phase() == Phase::Finished && r2->Ok_0.is_terminal(),
{
}

/// Once the follow-up of a delegated task exists, the triage notes on it where
/// it came from, then how the task was delegated, then deletes the original,
/// and ends delegated.
pub proof fn lemma_delegation_notes_then_deletes(
    w: InboxItem,
    o1: String,
    r1: Result<InboxItem, WorkflowError>,
    o2: String,
    r2: Result<InboxItem, WorkflowError>,
    o3: String,
    r3: Result<InboxItem, WorkflowError>,
)
    requires
        w.phase() == Phase::LinkFollowUp,
        w.steps_to(Reply::Output(o1), r1),
        r1 is Ok ==> r1->Ok_0.steps_to(Reply::Output(o2), r2),
        r2 is Ok ==> r2->Ok_0.steps_to(Reply::Output(o3), r3),
    ensures
        w.pending() == run_of(task_command(w.follow()->Some_0, seq!["annotate"@, follow_note(w.task().description@)])),
        r1 is Ok && r1->Ok_0.phase() == Phase::NoteChannel,
        r1->Ok_0.pending() == run_of(task_command(w.follow()->Some_0, seq!["annotate"@, w.channel()->Some_0.annotation_spec()])),
        r2 is Ok && r2->Ok_0.phase() == Phase::DeleteDelegated,
        r2->Ok_0.pending() == run_of(task_command(w.task(), seq!["delete"@])),
        r3 is Ok && r3->Ok_0.phase() == Phase::Delegated && r3->Ok_0.is_terminal(),
{
}

} // verus!
