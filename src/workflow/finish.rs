//! Finishing the active task: resume the task it interrupted, or else make
//! sure its project still has a next action.
use vstd::prelude::*;

use crate::commands::{resume_mark, resume_uuid};
use crate::error::WorkflowError;
use crate::store::{export_args, export_spec, project_filter};
use crate::task::{task_command, Project, Task};
use crate::text::{join2, owned, views};
use crate::workflow::next::{self, NextTask};
use crate::workflow::{run, run_of, Ask, Reply, Request, StatefulEnum};

verus! {

#[derive(Clone, Debug)]
pub enum Finishing {
    /// Loading the active tasks.
    Loading,
    /// Telling which task is finished.
    Announcing(Task),
    /// Marking the task done.
    Finishing(Task),
    /// Loading the task to resume, by its uuid.
    Recalling(Task, String),
    /// Telling which task is resumed.
    Resuming(Task),
    /// Starting the task to resume.
    Starting(Task),
    /// Loading the pending tasks of the finished task's project.
    Checking(Project),
    /// Picking the project's next action.
    Picking(NextTask),
    Done,
}

/// The state of a finish, without its data.
#[derive(Clone, Copy, Debug, PartialEq, Eq, Structural)]
pub enum Phase {
    Load,
    Announce,
    Finish,
    Recall,
    AnnounceResume,
    Resume,
    CheckProject,
    Pick,
    Done,
}

/// What follows once the finished task needs nothing resumed: its project's
/// next action, when it has a project.
pub open spec fn after_finish(t: Task) -> Phase {
    match t.project {
        Some(_) => Phase::CheckProject,
        None => Phase::Done,
    }
}

fn afterwards(t: &Task) -> (r: Finishing)
    ensures
        r.phase() == after_finish(*t),
        t.project is Some ==> r.project() == t.project->Some_0@,
{
    match &t.project {
        Some(p) => Finishing::Checking(Project::new(p.as_str())),
        None => Finishing::Done,
    }
}

impl Finishing {
    pub fn new() -> (r: Finishing)
        ensures
            r.phase() == Phase::Load,
    {
        Finishing::Loading
    }

    pub open spec fn phase(self) -> Phase {
        match self {
            Finishing::Loading => Phase::Load,
            Finishing::Announcing(_) => Phase::Announce,
            Finishing::Finishing(_) => Phase::Finish,
            Finishing::Recalling(_, _) => Phase::Recall,
            Finishing::Resuming(_) => Phase::AnnounceResume,
            Finishing::Starting(_) => Phase::Resume,
            Finishing::Checking(_) => Phase::CheckProject,
            Finishing::Picking(_) => Phase::Pick,
            Finishing::Done => Phase::Done,
        }
    }

    /// The task the state is about: the finished one, or the one to resume.
    pub open spec fn task(self) -> Task {
        match self {
            Finishing::Announcing(t) => t,
            Finishing::Finishing(t) => t,
            Finishing::Recalling(t, _) => t,
            Finishing::Resuming(t) => t,
            Finishing::Starting(t) => t,
            _ => arbitrary(),
        }
    }

    pub open spec fn uuid(self) -> Seq<char> {
        match self {
            Finishing::Recalling(_, u) => u@,
            _ => Seq::empty(),
        }
    }

    pub open spec fn project(self) -> Seq<char> {
        match self {
            Finishing::Checking(p) => p.name(),
            _ => Seq::empty(),
        }
    }

    pub open spec fn nested(self) -> NextTask {
        match self {
            Finishing::Picking(nt) => nt,
            _ => arbitrary(),
        }
    }
}

impl StatefulEnum for Finishing {
    open spec fn is_terminal(&self) -> bool {
        self is Done
    }

    open spec fn pending(&self) -> Result<Option<Ask>, WorkflowError> {
        let t = self.task();
        match self.phase() {
            Phase::Load => Ok(Some(Ask::Export(export_spec("+ACTIVE"@)))),
            Phase::Announce => Ok(Some(Ask::Show("Finishing: "@ + t.description@))),
            Phase::Finish => run_of(task_command(t, seq!["done"@])),
            Phase::Recall => Ok(Some(Ask::Export(export_spec(self.uuid())))),
            Phase::AnnounceResume => Ok(Some(Ask::Show("Resuming previous task: "@ + t.description@))),
            Phase::Resume => run_of(task_command(t, seq!["start"@])),
            Phase::CheckProject => Ok(Some(Ask::Export(export_spec(project_filter(self.project()))))),
            Phase::Pick => match self.nested().pending() {
                Ok(None) => Err(WorkflowError::Terminated),
                other => other,
            },
            Phase::Done => Ok(None),
        }
    }

    open spec fn steps_to(&self, reply: Reply, r: Result<Finishing, WorkflowError>) -> bool {
        let ok = r is Ok;
        let n = r->Ok_0;
        let t = self.task();
        let fits = match self.phase() {
            Phase::Load | Phase::Recall | Phase::CheckProject => reply is Tasks,
            Phase::Announce | Phase::AnnounceResume => reply is Ack,
            Phase::Finish | Phase::Resume => reply is Output,
            _ => true,
        };
        let to = |p: Phase| ok && n.phase() == p;
        &&& (!fits ==> r == Err::<Finishing, WorkflowError>(WorkflowError::UnexpectedReply))
        &&& (fits ==> match self.phase() {
            Phase::Load => {
                let ts = reply->Tasks_0@;
                if ts.len() == 0 {
                    r == Err::<Finishing, WorkflowError>(WorkflowError::NoActiveTask)
                } else if ts.len() > 1 {
                    r == Err::<Finishing, WorkflowError>(WorkflowError::SeveralActiveTasks)
                } else {
                    to(Phase::Announce) && n.task() == ts[0]
                }
            },
            Phase::Announce => to(Phase::Finish) && n.task() == t,
            Phase::Finish => match resume_mark(t.annotations@) {
                Some(u) => to(Phase::Recall) && n.task() == t && n.uuid() == u,
                None => to(after_finish(t)) && (t.project is Some ==> n.project() == t.project->Some_0@),
            },
            Phase::Recall => {
                let ts = reply->Tasks_0@;
                if ts.len() == 0 {
                    r == Err::<Finishing, WorkflowError>(WorkflowError::ResumeNotFound)
                } else if ts[0].id is Some {
                    to(Phase::AnnounceResume) && n.task() == ts[0]
                } else {
                    to(after_finish(t)) && (t.project is Some ==> n.project() == t.project->Some_0@)
                }
            },
            Phase::AnnounceResume => to(Phase::Resume) && n.task() == t,
            Phase::Resume => to(Phase::Done),
            Phase::CheckProject => if reply->Tasks_0@.len() == 0 {
                to(Phase::Done)
            } else {
                to(Phase::Pick) && n.nested().phase() == next::Phase::Load && !n.nested().force()
                    && n.nested().project().name() == self.project()
            },
            Phase::Pick => {
                let nt = self.nested();
                match r {
                    Ok(n) => if n.phase() == Phase::Pick {
                        nt.steps_to(reply, Ok(n.nested())) && !n.nested().is_terminal()
                    } else {
                        n.phase() == Phase::Done && exists|done: NextTask|
                            #[trigger] nt.steps_to(reply, Ok(done)) && done.is_terminal()
                    },
                    Err(e) => nt.steps_to(reply, Err(e)),
                }
            },
            Phase::Done => r == Err::<Finishing, WorkflowError>(WorkflowError::Terminated),
        })
    }

    fn terminated(&self) -> (r: bool) {
        match self {
            Finishing::Done => true,
            _ => false,
        }
    }

    fn request(&self) -> (r: Result<Option<Request>, WorkflowError>) {
        match self {
            Finishing::Loading => Ok(Some(Request::Export { args: export_args("+ACTIVE") })),
            Finishing::Announcing(t) => Ok(Some(Request::Show { text: join2("Finishing: ", t.description.as_str()) })),
            Finishing::Finishing(t) => {
                let args = vec![owned("done")];
                assert(views(args@) =~= seq!["done"@]);
                match run(t.command(args)) {
                    Ok(q) => Ok(Some(q)),
                    Err(e) => Err(e),
                }
            },
            Finishing::Recalling(_, u) => Ok(Some(Request::Export { args: export_args(u.as_str()) })),
            Finishing::Resuming(t) => Ok(Some(Request::Show { text: join2("Resuming previous task: ", t.description.as_str()) })),
            Finishing::Starting(t) => {
                let args = vec![owned("start")];
                assert(views(args@) =~= seq!["start"@]);
                match run(t.command(args)) {
                    Ok(q) => Ok(Some(q)),
                    Err(e) => Err(e),
                }
            },
            Finishing::Checking(p) => {
                let filter = p.tasks_filter();
                Ok(Some(Request::Export { args: export_args(filter.as_str()) }))
            },
            Finishing::Picking(nt) => match nt.request() {
                Ok(None) => Err(WorkflowError::Terminated),
                other => other,
            },
            Finishing::Done => Ok(None),
        }
    }

    fn step(self, reply: Reply) -> (r: Result<Finishing, WorkflowError>) {
        match self {
            Finishing::Loading => match reply {
                Reply::Tasks(mut ts) => {
                    if ts.len() == 0 {
                        Err(WorkflowError::NoActiveTask)
                    } else if ts.len() > 1 {
                        Err(WorkflowError::SeveralActiveTasks)
                    } else {
                        Ok(Finishing::Announcing(ts.swap_remove(0)))
                    }
                },
                _ => Err(WorkflowError::UnexpectedReply),
            },
            Finishing::Announcing(t) => match reply {
                Reply::Ack => Ok(Finishing::Finishing(t)),
                _ => Err(WorkflowError::UnexpectedReply),
            },
            Finishing::Finishing(t) => match reply {
                Reply::Output(_) => match resume_uuid(&t) {
                    Some(u) => Ok(Finishing::Recalling(t, u)),
                    None => Ok(afterwards(&t)),
                },
                _ => Err(WorkflowError::UnexpectedReply),
            },
            Finishing::Recalling(t, _) => match reply {
                Reply::Tasks(mut ts) => {
                    if ts.len() == 0 {
                        Err(WorkflowError::ResumeNotFound)
                    } else {
                        let first = ts.swap_remove(0);
                        if first.id.is_some() {
                            Ok(Finishing::Resuming(first))
                        } else {
                            Ok(afterwards(&t))
                        }
                    }
                },
                _ => Err(WorkflowError::UnexpectedReply),
            },
            Finishing::Resuming(t) => match reply {
                Reply::Ack => Ok(Finishing::Starting(t)),
                _ => Err(WorkflowError::UnexpectedReply),
            },
            Finishing::Starting(_) => match reply {
                Reply::Output(_) => Ok(Finishing::Done),
                _ => Err(WorkflowError::UnexpectedReply),
            },
            Finishing::Checking(p) => match reply {
                Reply::Tasks(ts) => {
                    if ts.len() == 0 {
                        Ok(Finishing::Done)
                    } else {
                        Ok(Finishing::Picking(NextTask::new(p)))
                    }
                },
                _ => Err(WorkflowError::UnexpectedReply),
            },
            Finishing::Picking(nt) => {
                let nt = nt.step(reply)?;
                if nt.terminated() {
                    Ok(Finishing::Done)
                } else {
                    Ok(Finishing::Picking(nt))
                }
            },
            Finishing::Done => Err(WorkflowError::Terminated),
        }
    }
}

} // verus!
