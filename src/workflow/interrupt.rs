//! Starting an interruption: stop what is active, create a task in the
//! `interrupt` project, and start it, noting which task to resume after it.
use vstd::prelude::*;

use crate::error::WorkflowError;
use crate::store::{export_args, export_spec};
use crate::task::{resume_note, task_command, Project, Task};
use crate::text::{decimal, join2, owned, to_decimal, views};
use crate::workflow::create::{self, NewTask};
use crate::workflow::{run, run_of, Ask, Reply, Request, StatefulEnum};

verus! {

#[derive(Clone, Debug)]
pub enum Interruption {
    /// Loading the active tasks.
    Loading,
    /// Stopping the active task at `done`.
    Stopping { active: Vec<Task>, done: usize },
    /// Telling that the active task at `done` was stopped.
    Stopped { active: Vec<Task>, done: usize },
    /// Creating the interrupt task; `resume` is the first task that was active.
    Creating { task: NewTask, resume: Option<Task> },
    /// Tagging the new task as an interrupt.
    Tagging { task: Task, resume: Option<Task> },
    /// Noting on the new task which task to resume after it.
    Linking { task: Task, resume: Task },
    /// Starting the new task.
    Starting { task: Task },
    /// Telling that the new task was started.
    Started { task: Task },
    Done,
}

#[derive(Clone, Copy, Debug, PartialEq, Eq, Structural)]
pub enum Phase {
    Load,
    Stop,
    AnnounceStop,
    Create,
    Tag,
    Link,
    Start,
    AnnounceStart,
    Done,
}

pub open spec fn stopped_text(t: Task) -> Seq<char> {
    "Stopped "@ + decimal(match t.id { Some(id) => id as nat, None => 0 }) + " "@ + t.description@
}

pub open spec fn started_text(t: Task) -> Seq<char> {
    "started "@ + decimal(match t.id { Some(id) => id as nat, None => 0 })
}

fn id_text(t: &Task) -> (r: String)
    ensures
        r@ == decimal(match t.id { Some(id) => id as nat, None => 0 }),
{
    to_decimal(
        match t.id {
            Some(id) => id,
            None => 0,
        },
    )
}

fn interrupt_task() -> (r: NewTask)
    ensures
        r.phase() == create::Phase::Describe,
        r.builder()@.project == Some("interrupt"@),
        r.wf(),
{
    NewTask::for_project(Project::new("interrupt"))
}

impl Interruption {
    pub fn new() -> (r: Interruption)
        ensures
            r.phase() == Phase::Load,
    {
        Interruption::Loading
    }

    pub open spec fn phase(self) -> Phase {
        match self {
            Interruption::Loading => Phase::Load,
            Interruption::Stopping { .. } => Phase::Stop,
            Interruption::Stopped { .. } => Phase::AnnounceStop,
            Interruption::Creating { .. } => Phase::Create,
            Interruption::Tagging { .. } => Phase::Tag,
            Interruption::Linking { .. } => Phase::Link,
            Interruption::Starting { .. } => Phase::Start,
            Interruption::Started { .. } => Phase::AnnounceStart,
            Interruption::Done => Phase::Done,
        }
    }

    /// The tasks that were active, and how many of them are handled.
    pub open spec fn active(self) -> (Seq<Task>, nat) {
        match self {
            Interruption::Stopping { active, done } => (active@, done as nat),
            Interruption::Stopped { active, done } => (active@, done as nat),
            _ => (Seq::empty(), 0),
        }
    }

    /// The new interrupt task, once created.
    pub open spec fn task(self) -> Task {
        match self {
            Interruption::Tagging { task, .. } => task,
            Interruption::Linking { task, .. } => task,
            Interruption::Starting { task } => task,
            Interruption::Started { task } => task,
            _ => arbitrary(),
        }
    }

    /// The task to resume after the interruption.
    pub open spec fn resume(self) -> Option<Task> {
        match self {
            Interruption::Creating { resume, .. } => resume,
            Interruption::Tagging { resume, .. } => resume,
            Interruption::Linking { resume, .. } => Some(resume),
            _ => None,
        }
    }

    pub open spec fn nested(self) -> NewTask {
        match self {
            Interruption::Creating { task, .. } => task,
            _ => arbitrary(),
        }
    }
}

impl StatefulEnum for Interruption {
    open spec fn is_terminal(&self) -> bool {
        self is Done
    }

    open spec fn pending(&self) -> Result<Option<Ask>, WorkflowError> {
        let (ts, d) = self.active();
        match self.phase() {
            Phase::Load => Ok(Some(Ask::Export(export_spec("+ACTIVE"@)))),
            Phase::Stop => if d < ts.len() {
                run_of(task_command(ts[d as int], seq!["stop"@]))
            } else {
                Err(WorkflowError::NoSuchChoice)
            },
            Phase::AnnounceStop => if d < ts.len() {
                Ok(Some(Ask::Show(stopped_text(ts[d as int]))))
            } else {
                Err(WorkflowError::NoSuchChoice)
            },
            Phase::Create => match self.nested().pending() {
                Ok(None) => Err(WorkflowError::Terminated),
                other => other,
            },
            Phase::Tag => run_of(task_command(self.task(), seq!["modify"@, "+interrupt"@])),
            Phase::Link => run_of(task_command(self.task(), seq!["annotate"@, resume_note(self.resume()->Some_0.uuid@)])),
            Phase::Start => run_of(task_command(self.task(), seq!["start"@])),
            Phase::AnnounceStart => Ok(Some(Ask::Show(started_text(self.task())))),
            Phase::Done => Ok(None),
        }
    }

    open spec fn steps_to(&self, reply: Reply, r: Result<Interruption, WorkflowError>) -> bool {
        let ok = r is Ok;
        let n = r->Ok_0;
        let (ts, d) = self.active();
        let fits = match self.phase() {
            Phase::Load => reply is Tasks,
            Phase::Stop | Phase::Tag | Phase::Link | Phase::Start => reply is Output,
            Phase::AnnounceStop | Phase::AnnounceStart => reply is Ack,
            _ => true,
        };
        let to = |p: Phase| ok && n.phase() == p;
        let creating = |resume: Option<Task>| to(Phase::Create) && n.resume() == resume
            && n.nested().phase() == create::Phase::Describe && n.nested().wf()
            && n.nested().builder()@.project == Some("interrupt"@);
        &&& (!fits ==> r == Err::<Interruption, WorkflowError>(WorkflowError::UnexpectedReply))
        &&& (fits ==> match self.phase() {
            Phase::Load => {
                let active = reply->Tasks_0@;
                if active.len() == 0 {
                    creating(None)
                } else {
                    to(Phase::Stop) && n.active() == (active, 0nat)
                }
            },
            Phase::Stop => if d < ts.len() {
                to(Phase::AnnounceStop) && n.active() == (ts, d)
            } else {
                r == Err::<Interruption, WorkflowError>(WorkflowError::NoSuchChoice)
            },
            Phase::AnnounceStop => if d + 1 < ts.len() {
                to(Phase::Stop) && n.active() == (ts, d + 1)
            } else if d < ts.len() {
                creating(Some(ts[0]))
            } else {
                r == Err::<Interruption, WorkflowError>(WorkflowError::NoSuchChoice)
            },
            Phase::Create => {
                let nt = self.nested();
                match r {
                    Ok(n) => if n.phase() == Phase::Create {
                        nt.steps_to(reply, Ok(n.nested())) && !n.nested().is_terminal()
                            && n.resume() == self.resume()
                    } else {
                        n.phase() == Phase::Tag && n.resume() == self.resume() && exists|done: NewTask|
                            #[trigger] nt.steps_to(reply, Ok(done)) && done is Done
                                && n.task() == done->Done_0.state.task
                    },
                    Err(e) => nt.steps_to(reply, Err(e)),
                }
            },
            Phase::Tag => match self.resume() {
                Some(t) => to(Phase::Link) && n.task() == self.task() && n.resume() == Some(t),
                None => to(Phase::Start) && n.task() == self.task(),
            },
            Phase::Link => to(Phase::Start) && n.task() == self.task(),
            Phase::Start => to(Phase::AnnounceStart) && n.task() == self.task(),
            Phase::AnnounceStart => to(Phase::Done),
            Phase::Done => r == Err::<Interruption, WorkflowError>(WorkflowError::Terminated),
        })
    }

    fn terminated(&self) -> (r: bool) {
        match self {
            Interruption::Done => true,
            _ => false,
        }
    }

    fn request(&self) -> (r: Result<Option<Request>, WorkflowError>) {
        match self {
            Interruption::Loading => Ok(Some(Request::Export { args: export_args("+ACTIVE") })),
            Interruption::Stopping { active, done } => {
                if *done < active.len() {
                    let args = vec![owned("stop")];
                    assert(views(args@) =~= seq!["stop"@]);
                    match run(active[*done].command(args)) {
                        Ok(q) => Ok(Some(q)),
                        Err(e) => Err(e),
                    }
                } else {
                    Err(WorkflowError::NoSuchChoice)
                }
            },
            Interruption::Stopped { active, done } => {
                if *done < active.len() {
                    let t = &active[*done];
                    let mut text = join2("Stopped ", id_text(t).as_str());
                    text.append(" ");
                    text.append(t.description.as_str());
                    Ok(Some(Request::Show { text }))
                } else {
                    Err(WorkflowError::NoSuchChoice)
                }
            },
            Interruption::Creating { task, .. } => match task.request() {
                Ok(None) => Err(WorkflowError::Terminated),
                other => other,
            },
            Interruption::Tagging { task, .. } => {
                let tags: [&str; 1] = ["interrupt"];
                proof {
                    reveal_strlit("interrupt");
                }
                let cmd = task.add_tags(tags.as_slice());
                assert(seq!["modify"@] + crate::task::strs(tags@).map_values(|t: Seq<char>| "+"@ + t) =~= seq![
                    "modify"@,
                    "+interrupt"@,
                ]) by {
                    reveal_strlit("+interrupt");
                    reveal_strlit("+");
                    reveal_strlit("interrupt");
                    assert("+"@ + "interrupt"@ =~= "+interrupt"@);
                    assert(crate::task::strs(tags@) =~= seq!["interrupt"@]);
                }
                match run(cmd) {
                    Ok(q) => Ok(Some(q)),
                    Err(e) => Err(e),
                }
            },
            Interruption::Linking { task, resume } => match run(task.set_resumable(resume)) {
                Ok(q) => Ok(Some(q)),
                Err(e) => Err(e),
            },
            Interruption::Starting { task } => match run(task.begin()) {
                Ok(q) => Ok(Some(q)),
                Err(e) => Err(e),
            },
            Interruption::Started { task } => Ok(Some(Request::Show { text: join2("started ", id_text(task).as_str()) })),
            Interruption::Done => Ok(None),
        }
    }

    fn step(self, reply: Reply) -> (r: Result<Interruption, WorkflowError>) {
        match self {
            Interruption::Loading => match reply {
                Reply::Tasks(active) => {
                    if active.len() == 0 {
                        Ok(Interruption::Creating { task: interrupt_task(), resume: None })
                    } else {
                        Ok(Interruption::Stopping { active, done: 0 })
                    }
                },
                _ => Err(WorkflowError::UnexpectedReply),
            },
            Interruption::Stopping { active, done } => match reply {
                Reply::Output(_) => {
                    if done < active.len() {
                        Ok(Interruption::Stopped { active, done })
                    } else {
                        Err(WorkflowError::NoSuchChoice)
                    }
                },
                _ => Err(WorkflowError::UnexpectedReply),
            },
            Interruption::Stopped { active, done } => match reply {
                Reply::Ack => {
                    if done >= active.len() {
                        Err(WorkflowError::NoSuchChoice)
                    } else if done + 1 < active.len() {
                        Ok(Interruption::Stopping { active, done: done + 1 })
                    } else {
                        let mut active = active;
                        let first = active.swap_remove(0);
                        Ok(Interruption::Creating { task: interrupt_task(), resume: Some(first) })
                    }
                },
                _ => Err(WorkflowError::UnexpectedReply),
            },
            Interruption::Creating { task, resume } => {
                let nt = task.step(reply)?;
                match nt {
                    NewTask::Done(w) => Ok(Interruption::Tagging { task: w.state.task, resume }),
                    _ => Ok(Interruption::Creating { task: nt, resume }),
                }
            },
            Interruption::Tagging { task, resume } => match reply {
                Reply::Output(_) => match resume {
                    Some(r) => Ok(Interruption::Linking { task, resume: r }),
                    None => Ok(Interruption::Starting { task }),
                },
                _ => Err(WorkflowError::UnexpectedReply),
            },
            Interruption::Linking { task, .. } => match reply {
                Reply::Output(_) => Ok(Interruption::Starting { task }),
                _ => Err(WorkflowError::UnexpectedReply),
            },
            Interruption::Starting { task } => match reply {
                Reply::Output(_) => Ok(Interruption::Started { task }),
                _ => Err(WorkflowError::UnexpectedReply),
            },
            Interruption::Started { .. } => match reply {
                Reply::Ack => Ok(Interruption::Done),
                _ => Err(WorkflowError::UnexpectedReply),
            },
            Interruption::Done => Err(WorkflowError::Terminated),
        }
    }
}

} // verus!
