//! Making sure a project has a next action, and picking one when it has none
//! or when asked to pick again.
use vstd::prelude::*;

use crate::error::WorkflowError;
use crate::store::{export_args, export_spec, project_filter};
use crate::task::{task_command, Project, Task};
use crate::text::{join2, views};
use crate::workflow::create::{self, NewTask};
use crate::workflow::{run_of, run, Ask, Reply, Request, StatefulEnum};
use crate::text::owned;

verus! {

/// A state of the selection, with the project it is for.
#[derive(Clone, Debug)]
pub struct Workflow<S> {
    pub project: Project,
    pub state: S,
}

#[derive(Clone, Debug)]
pub enum CheckStage {
    /// Loading the project's pending tasks.
    Loading,
    /// Taking the `next` tag off the marked tasks, one at a time; `done` of
    /// them are clear.
    Clearing { tasks: Vec<Task>, marked: Vec<usize>, done: usize },
}

/// Checking whether the project already has a next action.
#[derive(Clone, Debug)]
pub struct Checking {
    /// Pick again even when there is a next action.
    pub force: bool,
    pub stage: CheckStage,
}

#[derive(Clone, Debug)]
pub enum PickStage {
    /// Telling that the project has no next action.
    Announcing,
    /// Offering the pending tasks, and a new one.
    Choosing,
    /// Creating a new task for the project.
    Creating(NewTask),
    /// Tagging the chosen task.
    Tagging(Task),
}

/// Picking the next action among the project's pending tasks.
#[derive(Clone, Debug)]
pub struct Picking {
    pub tasks: Vec<Task>,
    pub stage: PickStage,
}

/// The project has a next action.
#[derive(Clone, Copy, Debug)]
pub struct Done {
    /// Whether this workflow picked it.
    pub picked: bool,
}

#[derive(Clone, Debug)]
pub enum NextTask {
    Checking(Workflow<Checking>),
    Picking(Workflow<Picking>),
    Done(Workflow<Done>),
}

/// The state a selection is in, without its data.
#[derive(Clone, Copy, Debug, PartialEq, Eq, Structural)]
pub enum Phase {
    Load,
    Clear,
    Announce,
    Choose,
    Create,
    Tag,
    Done,
}

/// The positions of the tasks that carry the `next` tag, in order.
pub open spec fn marked(ts: Seq<Task>) -> Seq<usize>
    decreases ts.len(),
{
    if ts.len() == 0 {
        Seq::empty()
    } else if ts.last().tag_views().contains("next"@) {
        marked(ts.drop_last()).push((ts.len() - 1) as usize)
    } else {
        marked(ts.drop_last())
    }
}

proof fn lemma_marked_in_range(ts: Seq<Task>)
    ensures
        forall|k: int| 0 <= k < marked(ts).len() ==> (#[trigger] marked(ts)[k]) < ts.len(),
        marked(ts).len() <= ts.len(),
    decreases ts.len(),
{
    if ts.len() > 0 {
        lemma_marked_in_range(ts.drop_last());
    }
}

/// The entries of the picker: each task's description, then a new task.
pub open spec fn pick_items(ts: Seq<Task>) -> Seq<Seq<char>> {
    ts.map_values(|t: Task| t.description@) + seq!["--New task--"@]
}

pub open spec fn announcement(p: Seq<char>) -> Seq<char> {
    "\n\nThe following project does not have a next task:\n -> "@ + p + "\n"@
}

pub open spec fn clear_args() -> Seq<Seq<char>> {
    seq!["modify"@, "-next"@]
}

pub open spec fn tag_args() -> Seq<Seq<char>> {
    seq!["modify"@, "+next"@]
}

fn next_marked(ts: &Vec<Task>) -> (r: Vec<usize>)
    ensures
        r@ == marked(ts@),
{
    let mut r: Vec<usize> = Vec::new();
    let mut i: usize = 0;
    assert(ts@.subrange(0, 0) =~= Seq::<Task>::empty());
    while i < ts.len()
        invariant
            i <= ts@.len(),
            r@ == marked(ts@.subrange(0, i as int)),
        decreases ts@.len() - i,
    {
        assert(ts@.subrange(0, i + 1).drop_last() =~= ts@.subrange(0, i as int));
        if ts[i].has_tag("next") {
            r.push(i);
        }
        i = i + 1;
    }
    assert(ts@.subrange(0, i as int) =~= ts@);
    r
}

fn pick_choices(ts: &Vec<Task>) -> (r: Vec<String>)
    ensures
        views(r@) == pick_items(ts@),
{
    let mut r: Vec<String> = Vec::new();
    let mut i: usize = 0;
    while i < ts.len()
        invariant
            i <= ts@.len(),
            views(r@) == ts@.subrange(0, i as int).map_values(|t: Task| t.description@),
        decreases ts@.len() - i,
    {
        let ghost before = views(r@);
        let d = ts[i].description.clone();
        r.push(d);
        assert(views(r@) =~= before.push(ts@[i as int].description@));
        assert(ts@.subrange(0, i + 1) =~= ts@.subrange(0, i as int).push(ts@[i as int]));
        i = i + 1;
        assert(views(r@) =~= ts@.subrange(0, i as int).map_values(|t: Task| t.description@));
    }
    assert(ts@.subrange(0, i as int) =~= ts@);
    let ghost before = views(r@);
    r.push(owned("--New task--"));
    assert(views(r@) =~= pick_items(ts@));
    r
}

impl NextTask {
    /// A selection that leaves a project with a next action alone.
    pub fn new(project: Project) -> (r: NextTask)
        ensures
            r.phase() == Phase::Load,
            r.project() == project,
            !r.force(),
    {
        NextTask::Checking(Workflow { project, state: Checking { force: false, stage: CheckStage::Loading } })
    }

    /// A selection that picks again even when the project has a next action.
    pub fn with_force(project: Project) -> (r: NextTask)
        ensures
            r.phase() == Phase::Load,
            r.project() == project,
            r.force(),
    {
        NextTask::Checking(Workflow { project, state: Checking { force: true, stage: CheckStage::Loading } })
    }

    pub open spec fn project(self) -> Project {
        match self {
            NextTask::Checking(w) => w.project,
            NextTask::Picking(w) => w.project,
            NextTask::Done(w) => w.project,
        }
    }

    pub open spec fn force(self) -> bool {
        match self {
            NextTask::Checking(w) => w.state.force,
            _ => false,
        }
    }

    pub open spec fn phase(self) -> Phase {
        match self {
            NextTask::Checking(w) => match w.state.stage {
                CheckStage::Loading => Phase::Load,
                CheckStage::Clearing { .. } => Phase::Clear,
            },
            NextTask::Picking(w) => match w.state.stage {
                PickStage::Announcing => Phase::Announce,
                PickStage::Choosing => Phase::Choose,
                PickStage::Creating(_) => Phase::Create,
                PickStage::Tagging(_) => Phase::Tag,
            },
            NextTask::Done(_) => Phase::Done,
        }
    }

    /// The project's pending tasks, once loaded.
    pub open spec fn tasks(self) -> Seq<Task> {
        match self {
            NextTask::Checking(w) => match w.state.stage {
                CheckStage::Clearing { tasks, .. } => tasks@,
                _ => Seq::empty(),
            },
            NextTask::Picking(w) => w.state.tasks@,
            _ => Seq::empty(),
        }
    }

    /// The positions of the tasks to clear, and how many are clear.
    pub open spec fn clearing(self) -> (Seq<usize>, nat) {
        match self {
            NextTask::Checking(w) => match w.state.stage {
                CheckStage::Clearing { marked, done, .. } => (marked@, done as nat),
                _ => (Seq::empty(), 0),
            },
            _ => (Seq::empty(), 0),
        }
    }

    pub open spec fn nested(self) -> Option<NewTask> {
        match self {
            NextTask::Picking(w) => match w.state.stage {
                PickStage::Creating(nt) => Some(nt),
                _ => None,
            },
            _ => None,
        }
    }

    /// The task to tag as next.
    pub open spec fn chosen(self) -> Option<Task> {
        match self {
            NextTask::Picking(w) => match w.state.stage {
                PickStage::Tagging(t) => Some(t),
                _ => None,
            },
            _ => None,
        }
    }

    pub open spec fn picked(self) -> bool {
        match self {
            NextTask::Done(w) => w.state.picked,
            _ => false,
        }
    }

    /// While clearing, the marked positions lie among the tasks and some
    /// remain to clear.
    pub open spec fn wf(self) -> bool {
        self.phase() == Phase::Clear ==> {
            let (m, d) = self.clearing();
            &&& d < m.len()
            &&& forall|k: int| 0 <= k < m.len() ==> (#[trigger] m[k]) < self.tasks().len()
        }
    }

    /// What the finished workflow reports to the user.
    pub fn summary(&self) -> (r: Option<&'static str>)
        ensures
            r is Some <==> self.picked(),
            r is Some ==> r->Some_0@ == "Next task selected"@,
    {
        match self {
            NextTask::Done(w) => if w.state.picked {
                Some("Next task selected")
            } else {
                None
            },
            _ => None,
        }
    }
}

impl StatefulEnum for NextTask {
    open spec fn is_terminal(&self) -> bool {
        self is Done
    }

    open spec fn pending(&self) -> Result<Option<Ask>, WorkflowError> {
        match self.phase() {
            Phase::Load => Ok(Some(Ask::Export(export_spec(project_filter(self.project().name()))))),
            Phase::Clear => {
                let (m, d) = self.clearing();
                if d < m.len() && m[d as int] < self.tasks().len() {
                    run_of(task_command(self.tasks()[m[d as int] as int], clear_args()))
                } else {
                    Err(WorkflowError::NoSuchChoice)
                }
            },
            Phase::Announce => Ok(Some(Ask::Show(announcement(self.project().name())))),
            Phase::Choose => Ok(Some(Ask::Select("Which task should be next?"@, pick_items(self.tasks()), 0))),
            Phase::Create => match self.nested()->Some_0.pending() {
                Ok(None) => Err(WorkflowError::Terminated),
                other => other,
            },
            Phase::Tag => run_of(task_command(self.chosen()->Some_0, tag_args())),
            Phase::Done => Ok(None),
        }
    }

    open spec fn steps_to(&self, reply: Reply, r: Result<NextTask, WorkflowError>) -> bool {
        let ok = r is Ok;
        let n = r->Ok_0;
        let fits = match self.phase() {
            Phase::Load => reply is Tasks,
            Phase::Clear | Phase::Tag => reply is Output,
            Phase::Announce => reply is Ack,
            Phase::Choose => reply is Selected,
            _ => true,
        };
        let to = |p: Phase| ok && n.phase() == p;
        &&& (ok ==> n.project() == self.project())
        &&& (self.wf() && ok ==> n.wf())
        &&& (!fits ==> r == Err::<NextTask, WorkflowError>(WorkflowError::UnexpectedReply))
        &&& (fits ==> match self.phase() {
            Phase::Load => {
                let ts = reply->Tasks_0@;
                if marked(ts).len() > 0 && !self.force() {
                    to(Phase::Done) && !n.picked()
                } else if marked(ts).len() > 0 {
                    to(Phase::Clear) && n.tasks() == ts && n.clearing() == (marked(ts), 0nat)
                } else {
                    to(Phase::Announce) && n.tasks() == ts
                }
            },
            Phase::Clear => {
                let (m, d) = self.clearing();
                if !(d < m.len() && m[d as int] < self.tasks().len()) {
                    r == Err::<NextTask, WorkflowError>(WorkflowError::NoSuchChoice)
                } else if d + 1 < m.len() {
                    to(Phase::Clear) && n.tasks() == self.tasks() && n.clearing() == (m, d + 1)
                } else {
                    to(Phase::Announce) && n.tasks() == self.tasks()
                }
            },
            Phase::Announce => to(Phase::Choose) && n.tasks() == self.tasks(),
            Phase::Choose => {
                let i = reply->Selected_0;
                if i < self.tasks().len() {
                    to(Phase::Tag) && n.chosen() == Some(self.tasks()[i as int])
                } else if i == self.tasks().len() {
                    to(Phase::Create) && n.nested()->Some_0.phase() == create::Phase::Describe
                        && n.nested()->Some_0.builder()@.project == Some(self.project().name())
                } else {
                    r == Err::<NextTask, WorkflowError>(WorkflowError::NoSuchChoice)
                }
            },
            Phase::Create => {
                let nt = self.nested()->Some_0;
                match r {
                    Ok(n) => if n.phase() == Phase::Create {
                        nt.steps_to(reply, Ok(n.nested()->Some_0)) && !n.nested()->Some_0.is_terminal()
                    } else {
                        n.phase() == Phase::Tag && exists|done: NewTask|
                            #[trigger] nt.steps_to(reply, Ok(done)) && done is Done
                                && n.chosen() == Some(done->Done_0.state.task)
                    },
                    Err(e) => nt.steps_to(reply, Err(e)),
                }
            },
            Phase::Tag => to(Phase::Done) && n.picked(),
            Phase::Done => r == Err::<NextTask, WorkflowError>(WorkflowError::Terminated),
        })
    }

    fn terminated(&self) -> (r: bool) {
        match self {
            NextTask::Done(_) => true,
            _ => false,
        }
    }

    fn request(&self) -> (r: Result<Option<Request>, WorkflowError>) {
        match self {
            NextTask::Checking(w) => match &w.state.stage {
                CheckStage::Loading => {
                    let filter = w.project.tasks_filter();
                    Ok(Some(Request::Export { args: export_args(filter.as_str()) }))
                },
                CheckStage::Clearing { tasks, marked, done } => {
                    if *done < marked.len() && marked[*done] < tasks.len() {
                        let args = vec![owned("modify"), owned("-next")];
                        assert(views(args@) =~= clear_args());
                        let q = run(tasks[marked[*done]].command(args));
                        match q {
                            Ok(q) => Ok(Some(q)),
                            Err(e) => Err(e),
                        }
                    } else {
                        Err(WorkflowError::NoSuchChoice)
                    }
                },
            },
            NextTask::Picking(w) => match &w.state.stage {
                PickStage::Announcing => {
                    let mut text = join2("\n\nThe following project does not have a next task:\n -> ", w.project.as_str());
                    text.append("\n");
                    Ok(Some(Request::Show { text }))
                },
                PickStage::Choosing => Ok(Some(
                    Request::Select { prompt: owned("Which task should be next?"), items: pick_choices(&w.state.tasks), default: 0 },
                )),
                PickStage::Creating(nt) => match nt.request() {
                    Ok(None) => Err(WorkflowError::Terminated),
                    other => other,
                },
                PickStage::Tagging(t) => {
                    let args = vec![owned("modify"), owned("+next")];
                    assert(views(args@) =~= tag_args());
                    match run(t.command(args)) {
                        Ok(q) => Ok(Some(q)),
                        Err(e) => Err(e),
                    }
                },
            },
            NextTask::Done(_) => Ok(None),
        }
    }

    fn step(self, reply: Reply) -> (r: Result<NextTask, WorkflowError>) {
        match self {
            NextTask::Checking(w) => {
                let Workflow { project, state } = w;
                match state.stage {
                    CheckStage::Loading => match reply {
                        Reply::Tasks(tasks) => {
                            let marked = next_marked(&tasks);
                            proof {
                                lemma_marked_in_range(tasks@);
                            }
                            if marked.len() > 0 {
                                if state.force {
                                    Ok(NextTask::Checking(Workflow { project, state: Checking { force: state.force, stage: CheckStage::Clearing { tasks, marked, done: 0 } } }))
                                } else {
                                    Ok(NextTask::Done(Workflow { project, state: Done { picked: false } }))
                                }
                            } else {
                                Ok(NextTask::Picking(Workflow { project, state: Picking { tasks, stage: PickStage::Announcing } }))
                            }
                        },
                        _ => Err(WorkflowError::UnexpectedReply),
                    },
                    CheckStage::Clearing { tasks, marked, done } => match reply {
                        Reply::Output(_) => {
                            if !(done < marked.len() && marked[done] < tasks.len()) {
                                Err(WorkflowError::NoSuchChoice)
                            } else if done + 1 < marked.len() {
                                Ok(NextTask::Checking(Workflow { project, state: Checking { force: state.force, stage: CheckStage::Clearing { tasks, marked, done: done + 1 } } }))
                            } else {
                                Ok(NextTask::Picking(Workflow { project, state: Picking { tasks, stage: PickStage::Announcing } }))
                            }
                        },
                        _ => Err(WorkflowError::UnexpectedReply),
                    },
                }
            },
            NextTask::Picking(w) => {
                let Workflow { project, state } = w;
                let Picking { tasks, stage } = state;
                match stage {
                    PickStage::Announcing => match reply {
                        Reply::Ack => Ok(NextTask::Picking(Workflow { project, state: Picking { tasks, stage: PickStage::Choosing } })),
                        _ => Err(WorkflowError::UnexpectedReply),
                    },
                    PickStage::Choosing => match reply {
                        Reply::Selected(i) => {
                            if i < tasks.len() {
                                let mut tasks = tasks;
                                let t = tasks.swap_remove(i);
                                Ok(NextTask::Picking(Workflow { project, state: Picking { tasks, stage: PickStage::Tagging(t) } }))
                            } else if i == tasks.len() {
                                let nt = NewTask::for_project(project.duplicate());
                                Ok(NextTask::Picking(Workflow { project, state: Picking { tasks, stage: PickStage::Creating(nt) } }))
                            } else {
                                Err(WorkflowError::NoSuchChoice)
                            }
                        },
                        _ => Err(WorkflowError::UnexpectedReply),
                    },
                    PickStage::Creating(nt) => {
                        let nt = nt.step(reply)?;
                        match nt {
                            NewTask::Done(d) => Ok(NextTask::Picking(Workflow { project, state: Picking { tasks, stage: PickStage::Tagging(d.state.task) } })),
                            _ => Ok(NextTask::Picking(Workflow { project, state: Picking { tasks, stage: PickStage::Creating(nt) } })),
                        }
                    },
                    PickStage::Tagging(_) => match reply {
                        Reply::Output(_) => Ok(NextTask::Done(Workflow { project, state: Done { picked: true } })),
                        _ => Err(WorkflowError::UnexpectedReply),
                    },
                }
            },
            NextTask::Done(_) => Err(WorkflowError::Terminated),
        }
    }
}

/// Without force, a project whose pending tasks already include one tagged
/// `next` is left alone: the selection's only request is the export that
/// loads the tasks, and its answer brings it straight to `Done`, with no
/// prompt and no store command.
pub proof fn lemma_next_present_is_kept(w: NextTask, tasks: Vec<Task>, r: Result<NextTask, WorkflowError>)
    requires
        w.phase() == Phase::Load,
        !w.force(),
        exists|i: int| 0 <= i < tasks@.len() && (#[trigger] tasks@[i]).tag_views().contains("next"@),
        w.steps_to(Reply::Tasks(tasks), r),
    ensures
        w.pending() == Ok::<Option<Ask>, WorkflowError>(
            Some(Ask::Export(export_spec(project_filter(w.project().name())))),
        ),
        r is Ok,
        r->Ok_0.is_terminal(),
        !r->Ok_0.picked(),
{
    let i = choose|i: int| 0 <= i < tasks@.len() && (#[trigger] tasks@[i]).tag_views().contains("next"@);
    lemma_marked_nonempty(tasks@, i);
}

proof fn lemma_marked_nonempty(ts: Seq<Task>, i: int)
    requires
        0 <= i < ts.len(),
        ts[i].tag_views().contains("next"@),
    ensures
        marked(ts).len() > 0,
    decreases ts.len(),
{
    if i < ts.len() - 1 {
        lemma_marked_nonempty(ts.drop_last(), i);
    }
}

/// With force, a project whose pending tasks include a `next` task loses
/// that tag before the picker appears: the step after loading takes the tag
/// off that task, and once the store has done so the picker is announced.
pub proof fn lemma_force_clears_next(
    w: NextTask,
    tasks: Vec<Task>,
    r: Result<NextTask, WorkflowError>,
    out: String,
    r2: Result<NextTask, WorkflowError>,
)
    requires
        w.phase() == Phase::Load,
        w.force(),
        marked(tasks@).len() == 1,
        tasks@.len() <= usize::MAX,
        w.steps_to(Reply::Tasks(tasks), r),
        r is Ok ==> r->Ok_0.steps_to(Reply::Output(out), r2),
    ensures
        r is Ok,
        r->Ok_0.phase() == Phase::Clear,
        tasks@[marked(tasks@)[0] as int].tag_views().contains("next"@),
        r->Ok_0.pending() == run_of(task_command(tasks@[marked(tasks@)[0] as int], clear_args())),
        r2 is Ok,
        r2->Ok_0.phase() == Phase::Announce,
        r2->Ok_0.tasks() == tasks@,
{
    lemma_marked_in_range(tasks@);
    lemma_marked_tagged(tasks@);
}

proof fn lemma_marked_tagged(ts: Seq<Task>)
    requires
        ts.len() <= usize::MAX,
    ensures
        forall|k: int| 0 <= k < marked(ts).len() ==> ts[#[trigger] marked(ts)[k] as int].tag_views().contains("next"@),
    decreases ts.len(),
{
    if ts.len() > 0 {
        lemma_marked_tagged(ts.drop_last());
        lemma_marked_in_range(ts.drop_last());
        assert forall|k: int| 0 <= k < marked(ts).len() implies ts[#[trigger] marked(ts)[k] as int].tag_views().contains("next"@) by {
            if k < marked(ts.drop_last()).len() {
                assert(marked(ts)[k] == marked(ts.drop_last())[k]);
                assert(ts[marked(ts)[k] as int] == ts.drop_last()[marked(ts)[k] as int]);
            } else {
                assert(ts.last().tag_views().contains("next"@));
                assert(marked(ts)[k] == (ts.len() - 1) as usize);
            }
        }
    }
}

} // verus!
