//! Reviewing a pull-request task: show it, maybe open it, maybe hide it
//! until later.
use vstd::prelude::*;

use crate::error::WorkflowError;
use crate::table::{annotations_text, uda_text, UDA};
use crate::task::{task_command, tickle_args, Task};
use crate::text::{decimal, to_decimal};
use crate::workflow::{run_of, confirm, input, row_views, run, Ask, Reply, Request, StatefulEnum};
use crate::text::owned;

verus! {

/// A state of the review, with the task under review.
#[derive(Clone, Debug)]
pub struct Workflow<S> {
    pub task: Task,
    pub state: S,
}

#[derive(Clone, Debug)]
pub enum StartStage {
    /// Showing the pull request's details.
    Showing,
    /// Asking whether to open it in a browser.
    Asking,
    /// Opening this URL.
    Opening(String),
}

#[derive(Clone, Debug)]
pub struct Starting {
    pub stage: StartStage,
}

#[derive(Clone, Debug)]
pub enum ProcessStage {
    /// Asking whether to hide the pull request until later.
    Asking,
    /// Asking until when.
    Scheduling,
    /// Hiding it until the given time.
    Tickling(String),
}

#[derive(Clone, Debug)]
pub struct Processing {
    pub stage: ProcessStage,
}

#[derive(Clone, Copy, Debug)]
pub struct Done;

#[derive(Clone, Debug)]
pub enum Pr {
    Starting(Workflow<Starting>),
    Processing(Workflow<Processing>),
    Done(Workflow<Done>),
}

#[derive(Clone, Copy, Debug, PartialEq, Eq, Structural)]
pub enum Phase {
    Show,
    AskOpen,
    Open,
    AskHide,
    EnterWait,
    Tickle,
    Done,
}

/// The rows of a pull request's detail view.
pub open spec fn pr_rows(t: Task) -> Seq<(Seq<char>, Seq<char>)> {
    seq![
        ("ID"@, decimal(match t.id { Some(id) => id as nat, None => 0 })),
        ("Title"@, uda_text(t, "githubtitle"@)),
        ("User"@, uda_text(t, "githubuser"@)),
        ("State"@, uda_text(t, "githubstate"@)),
        ("URL"@, uda_text(t, "githuburl"@)),
        ("Body"@, uda_text(t, "githubbody"@)),
        ("Annotations"@, annotations_text(t)),
    ]
}

fn uda_row(t: &Task, u: UDA) -> (r: (String, String))
    ensures
        r.0@ == u.name_spec(),
        r.1@ == uda_text(*t, u.key_spec()),
{
    (owned(u.name()), u.get_raw_value(t))
}

fn detail_rows(t: &Task) -> (r: Vec<(String, String)>)
    ensures
        row_views(r@) == pr_rows(*t),
{
    let id = to_decimal(
        match t.id {
            Some(id) => id,
            None => 0,
        },
    );
    let r = vec![
        (owned("ID"), id),
        uda_row(t, UDA::GithubTitle),
        uda_row(t, UDA::GithubUser),
        uda_row(t, UDA::GithubState),
        uda_row(t, UDA::GithubUrl),
        uda_row(t, UDA::GithubBody),
        (owned("Annotations"), crate::table::annotations_of(t)),
    ];
    assert(row_views(r@) =~= pr_rows(*t));
    r
}

impl Pr {
    pub fn new(task: Task) -> (r: Pr)
        ensures
            r.phase() == Phase::Show,
            r.task() == task,
    {
        Pr::Starting(Workflow { task, state: Starting { stage: StartStage::Showing } })
    }

    pub open spec fn task(self) -> Task {
        match self {
            Pr::Starting(w) => w.task,
            Pr::Processing(w) => w.task,
            Pr::Done(w) => w.task,
        }
    }

    pub open spec fn phase(self) -> Phase {
        match self {
            Pr::Starting(w) => match w.state.stage {
                StartStage::Showing => Phase::Show,
                StartStage::Asking => Phase::AskOpen,
                StartStage::Opening(_) => Phase::Open,
            },
            Pr::Processing(w) => match w.state.stage {
                ProcessStage::Asking => Phase::AskHide,
                ProcessStage::Scheduling => Phase::EnterWait,
                ProcessStage::Tickling(_) => Phase::Tickle,
            },
            Pr::Done(_) => Phase::Done,
        }
    }

    /// The URL being opened, or the wait time being set.
    pub open spec fn text(self) -> Seq<char> {
        match self {
            Pr::Starting(w) => match w.state.stage {
                StartStage::Opening(u) => u@,
                _ => Seq::empty(),
            },
            Pr::Processing(w) => match w.state.stage {
                ProcessStage::Tickling(t) => t@,
                _ => Seq::empty(),
            },
            _ => Seq::empty(),
        }
    }
}

impl StatefulEnum for Pr {
    open spec fn is_terminal(&self) -> bool {
        self is Done
    }

    open spec fn pending(&self) -> Result<Option<Ask>, WorkflowError> {
        match self.phase() {
            Phase::Show => Ok(Some(Ask::Detail(pr_rows(self.task())))),
            Phase::AskOpen => Ok(Some(Ask::Confirm("Open in browser?"@, true))),
            Phase::Open => Ok(Some(Ask::Open(self.text()))),
            Phase::AskHide => Ok(Some(Ask::Confirm("Would you like to hide this PR until later?"@, false))),
            Phase::EnterWait => Ok(Some(Ask::Input("When would you like to see this PR again? (any valid 'wait:' value)"@, Some("+1d"@)))),
            Phase::Tickle => run_of(task_command(self.task(), tickle_args(self.text()))),
            Phase::Done => Ok(None),
        }
    }

    open spec fn steps_to(&self, reply: Reply, r: Result<Pr, WorkflowError>) -> bool {
        let ok = r is Ok;
        let n = r->Ok_0;
        let fits = match self.phase() {
            Phase::Show | Phase::Open => reply is Ack,
            Phase::AskOpen | Phase::AskHide => reply is Confirmed,
            Phase::EnterWait => reply is Text,
            Phase::Tickle => reply is Output,
            Phase::Done => true,
        };
        let to = |p: Phase| ok && n.phase() == p;
        &&& (ok ==> n.task() == self.task())
        &&& (!fits ==> r == Err::<Pr, WorkflowError>(WorkflowError::UnexpectedReply))
        &&& (fits ==> match self.phase() {
            Phase::Show => to(Phase::AskOpen),
            Phase::AskOpen => if !reply->Confirmed_0 {
                to(Phase::AskHide)
            } else if uda_text(self.task(), "githuburl"@).len() == 0 {
                r == Err::<Pr, WorkflowError>(WorkflowError::MissingUrl)
            } else {
                to(Phase::Open) && n.text() == uda_text(self.task(), "githuburl"@)
            },
            Phase::Open => to(Phase::AskHide),
            Phase::AskHide => if reply->Confirmed_0 {
                to(Phase::EnterWait)
            } else {
                to(Phase::Done)
            },
            Phase::EnterWait => to(Phase::Tickle) && n.text() == reply->Text_0@,
            Phase::Tickle => to(Phase::Done),
            Phase::Done => r == Err::<Pr, WorkflowError>(WorkflowError::Terminated),
        })
    }

    fn terminated(&self) -> (r: bool) {
        match self {
            Pr::Done(_) => true,
            _ => false,
        }
    }

    fn request(&self) -> (r: Result<Option<Request>, WorkflowError>) {
        match self {
            Pr::Starting(w) => match &w.state.stage {
                StartStage::Showing => Ok(Some(Request::Detail { rows: detail_rows(&w.task) })),
                StartStage::Asking => Ok(Some(confirm("Open in browser?", true))),
                StartStage::Opening(url) => Ok(Some(Request::Open { url: url.clone() })),
            },
            Pr::Processing(w) => match &w.state.stage {
                ProcessStage::Asking => Ok(Some(confirm("Would you like to hide this PR until later?", false))),
                ProcessStage::Scheduling => Ok(Some(input("When would you like to see this PR again? (any valid 'wait:' value)", Some("+1d")))),
                ProcessStage::Tickling(wait) => match run(w.task.tickle(wait.as_str())) {
                    Ok(q) => Ok(Some(q)),
                    Err(e) => Err(e),
                },
            },
            Pr::Done(_) => Ok(None),
        }
    }

    fn step(self, reply: Reply) -> (r: Result<Pr, WorkflowError>) {
        match self {
            Pr::Starting(w) => {
                let Workflow { task, state } = w;
                match state.stage {
                    StartStage::Showing => match reply {
                        Reply::Ack => Ok(Pr::Starting(Workflow { task, state: Starting { stage: StartStage::Asking } })),
                        _ => Err(WorkflowError::UnexpectedReply),
                    },
                    StartStage::Asking => match reply {
                        Reply::Confirmed(open) => if !open {
                            Ok(Pr::Processing(Workflow { task, state: Processing { stage: ProcessStage::Asking } }))
                        } else {
                            let url = UDA::GithubUrl.get_raw_value(&task);
                            if url.as_str().unicode_len() == 0 {
                                Err(WorkflowError::MissingUrl)
                            } else {
                                Ok(Pr::Starting(Workflow { task, state: Starting { stage: StartStage::Opening(url) } }))
                            }
                        },
                        _ => Err(WorkflowError::UnexpectedReply),
                    },
                    StartStage::Opening(_) => match reply {
                        Reply::Ack => Ok(Pr::Processing(Workflow { task, state: Processing { stage: ProcessStage::Asking } })),
                        _ => Err(WorkflowError::UnexpectedReply),
                    },
                }
            },
            Pr::Processing(w) => {
                let Workflow { task, state } = w;
                match state.stage {
                    ProcessStage::Asking => match reply {
                        Reply::Confirmed(hide) => if hide {
                            Ok(Pr::Processing(Workflow { task, state: Processing { stage: ProcessStage::Scheduling } }))
                        } else {
                            Ok(Pr::Done(Workflow { task, state: Done }))
                        },
                        _ => Err(WorkflowError::UnexpectedReply),
                    },
                    ProcessStage::Scheduling => match reply {
                        Reply::Text(wait) => Ok(Pr::Processing(Workflow { task, state: Processing { stage: ProcessStage::Tickling(wait) } })),
                        _ => Err(WorkflowError::UnexpectedReply),
                    },
                    ProcessStage::Tickling(_) => match reply {
                        Reply::Output(_) => Ok(Pr::Done(Workflow { task, state: Done })),
                        _ => Err(WorkflowError::UnexpectedReply),
                    },
                }
            },
            Pr::Done(_) => Err(WorkflowError::Terminated),
        }
    }
}

} // verus!
