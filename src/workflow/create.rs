//! Creating a new task: project, description, contexts and effort, timing,
//! then the store's create command.
use vstd::prelude::*;

use crate::error::WorkflowError;
use crate::parser::created_id;
use crate::store::{lines, project_views, projects};
use crate::task::{add_args, ActionCategory, Brainpower, BuilderView, Estimate, Project, Task, TaskBuilder};
use crate::text::views;
use crate::workflow::{confirm, input, show, Ask, Creation, Reply, Request, StatefulEnum};
use crate::text::owned;

verus! {

/// A state of the workflow, with the builder it has filled so far.
#[derive(Clone, Debug)]
pub struct Workflow<S> {
    pub builder: TaskBuilder,
    pub state: S,
}

/// Where the project question stands.
#[derive(Clone, Debug)]
pub enum ProjectStage {
    /// Asking whether the task belongs to a project.
    Asking,
    /// Listing the store's projects.
    Listing,
    /// Offering the listed projects, after a "new project" entry.
    Choosing(Vec<Project>),
    /// Asking for the name of a new project.
    Naming,
}

#[derive(Clone, Debug)]
pub struct ProjectInfo {
    pub stage: ProjectStage,
}

/// Asking for the description.
#[derive(Clone, Copy, Debug)]
pub struct Action;

#[derive(Clone, Copy, Debug, PartialEq, Eq, Structural)]
pub enum ContextStage {
    /// Offering the contexts; at least one must be picked.
    Choosing,
    /// Telling that no context was picked, before offering them again.
    Warning,
    Brainpower,
    Estimate,
}

#[derive(Clone, Copy, Debug)]
pub struct Context {
    pub stage: ContextStage,
}

#[derive(Clone, Debug)]
pub enum TimingStage {
    /// Asking whether there is a due date.
    Asking,
    /// Asking for the due date.
    Dating,
    /// Creating the task in the store.
    Creating(Creation),
    /// Telling the id of the created task.
    Announcing(Task),
}

#[derive(Clone, Debug)]
pub struct Timing {
    pub stage: TimingStage,
}

/// The task was created.
#[derive(Clone, Debug)]
pub struct Done {
    pub task: Task,
}

#[derive(Clone, Debug)]
pub enum NewTask {
    ProjectInfo(Workflow<ProjectInfo>),
    Action(Workflow<Action>),
    Context(Workflow<Context>),
    Timing(Workflow<Timing>),
    Done(Workflow<Done>),
}

/// The state a workflow is in, without its data.
#[derive(Clone, Copy, Debug, PartialEq, Eq, Structural)]
pub enum Phase {
    AskProject,
    ListProjects,
    ChooseProject,
    NameProject,
    Describe,
    ChooseContexts,
    WarnContexts,
    ChooseBrainpower,
    ChooseEstimate,
    AskDue,
    EnterDue,
    Create,
    Announce,
    Done,
}

pub open spec fn context_labels() -> Seq<Seq<char>> {
    ActionCategory::all().map_values(|c: ActionCategory| c.label_spec())
}

pub open spec fn brainpower_labels() -> Seq<Seq<char>> {
    Brainpower::all().map_values(|b: Brainpower| b.label_spec())
}

pub open spec fn estimate_labels() -> Seq<Seq<char>> {
    Estimate::all().map_values(|e: Estimate| e.label_spec())
}

/// The entries of the project prompt: a "new project" entry, then the projects.
pub open spec fn project_items(ps: Seq<Project>) -> Seq<Seq<char>> {
    seq!["--New project--"@] + project_views(ps)
}

/// The contexts the given indices pick, in the order given.
pub open spec fn picked(ix: Seq<usize>) -> Seq<ActionCategory> {
    ix.map_values(|i: usize| ActionCategory::all()[i as int])
}

fn context_items() -> (r: Vec<String>)
    ensures
        views(r@) == context_labels(),
{
    let r = vec![
        owned("Agenda"),
        owned("Anywhere"),
        owned("Computer"),
        owned("Errands"),
        owned("Home"),
        owned("Phone"),
        owned("ReadAndReview"),
        owned("Work"),
    ];
    assert(views(r@) =~= context_labels());
    r
}

fn brainpower_items() -> (r: Vec<String>)
    ensures
        views(r@) == brainpower_labels(),
{
    let r = vec![owned("Low"), owned("Medium"), owned("High")];
    assert(views(r@) =~= brainpower_labels());
    r
}

fn estimate_items() -> (r: Vec<String>)
    ensures
        views(r@) == estimate_labels(),
{
    let r = vec![
        owned("Thirty minutes"),
        owned("Six hours"),
        owned("One day"),
        owned("Two days"),
        owned("More than two days (not well understood)"),
    ];
    assert(views(r@) =~= estimate_labels());
    r
}

fn project_choices(ps: &Vec<Project>) -> (r: Vec<String>)
    ensures
        views(r@) == project_items(ps@),
{
    let mut r: Vec<String> = vec![owned("--New project--")];
    let mut i: usize = 0;
    while i < ps.len()
        invariant
            i <= ps@.len(),
            views(r@) == seq!["--New project--"@] + project_views(ps@.subrange(0, i as int)),
        decreases ps@.len() - i,
    {
        let ghost before = views(r@);
        let name = ps[i].0.clone();
        r.push(name);
        assert(views(r@) =~= before.push(ps@[i as int].name()));
        assert(ps@.subrange(0, i + 1) =~= ps@.subrange(0, i as int).push(ps@[i as int]));
        i = i + 1;
        assert(views(r@) =~= seq!["--New project--"@] + project_views(ps@.subrange(0, i as int)));
    }
    assert(ps@.subrange(0, i as int) =~= ps@);
    r
}

/// The contexts named by the picked indices, or `None` when one is out of range.
fn pick_contexts(ix: &Vec<usize>) -> (r: Option<Vec<ActionCategory>>)
    ensures
        match r {
            Some(cs) => (forall|j: int| 0 <= j < ix@.len() ==> ix@[j] < 8) && cs@ == picked(ix@),
            None => exists|j: int| 0 <= j < ix@.len() && ix@[j] >= 8,
        },
{
    let all = ActionCategory::list();
    let mut cs: Vec<ActionCategory> = Vec::new();
    let mut i: usize = 0;
    while i < ix.len()
        invariant
            i <= ix@.len(),
            all@ == ActionCategory::all(),
            forall|j: int| 0 <= j < i ==> ix@[j] < 8,
            cs@ == picked(ix@.subrange(0, i as int)),
        decreases ix@.len() - i,
    {
        if ix[i] >= 8 {
            return None;
        }
        cs.push(all[ix[i]]);
        assert(ix@.subrange(0, i + 1) =~= ix@.subrange(0, i as int).push(ix@[i as int]));
        i = i + 1;
        assert(cs@ =~= picked(ix@.subrange(0, i as int)));
    }
    assert(ix@.subrange(0, i as int) =~= ix@);
    Some(cs)
}

impl NewTask {
    /// A workflow that first asks about the project.
    pub fn new() -> (r: NewTask)
        ensures
            r.phase() == Phase::AskProject,
            r.builder()@ == TaskBuilder::new_spec(),
            r.wf(),
    {
        NewTask::ProjectInfo(Workflow { builder: TaskBuilder::new(), state: ProjectInfo { stage: ProjectStage::Asking } })
    }

    /// A workflow for a task of a known project: it starts at the description.
    pub fn for_project(project: Project) -> (r: NewTask)
        ensures
            r.phase() == Phase::Describe,
            r.builder()@ == (BuilderView { project: Some(project.name()), ..TaskBuilder::new_spec() }),
            r.wf(),
    {
        let mut builder = TaskBuilder::new();
        builder.with_project(project);
        NewTask::Action(Workflow { builder, state: Action })
    }

    pub open spec fn phase(self) -> Phase {
        match self {
            NewTask::ProjectInfo(w) => match w.state.stage {
                ProjectStage::Asking => Phase::AskProject,
                ProjectStage::Listing => Phase::ListProjects,
                ProjectStage::Choosing(_) => Phase::ChooseProject,
                ProjectStage::Naming => Phase::NameProject,
            },
            NewTask::Action(_) => Phase::Describe,
            NewTask::Context(w) => match w.state.stage {
                ContextStage::Choosing => Phase::ChooseContexts,
                ContextStage::Warning => Phase::WarnContexts,
                ContextStage::Brainpower => Phase::ChooseBrainpower,
                ContextStage::Estimate => Phase::ChooseEstimate,
            },
            NewTask::Timing(w) => match w.state.stage {
                TimingStage::Asking => Phase::AskDue,
                TimingStage::Dating => Phase::EnterDue,
                TimingStage::Creating(_) => Phase::Create,
                TimingStage::Announcing(_) => Phase::Announce,
            },
            NewTask::Done(_) => Phase::Done,
        }
    }

    pub open spec fn builder(self) -> TaskBuilder {
        match self {
            NewTask::ProjectInfo(w) => w.builder,
            NewTask::Action(w) => w.builder,
            NewTask::Context(w) => w.builder,
            NewTask::Timing(w) => w.builder,
            NewTask::Done(w) => w.builder,
        }
    }

    /// The projects offered while choosing one.
    pub open spec fn offered(self) -> Seq<Project> {
        match self {
            NewTask::ProjectInfo(w) => match w.state.stage {
                ProjectStage::Choosing(ps) => ps@,
                _ => Seq::empty(),
            },
            _ => Seq::empty(),
        }
    }

    /// The creation under way while creating.
    pub open spec fn creation(self) -> Option<Creation> {
        match self {
            NewTask::Timing(w) => match w.state.stage {
                TimingStage::Creating(c) => Some(c),
                _ => None,
            },
            _ => None,
        }
    }

    /// The created task, once there is one.
    pub open spec fn created(self) -> Option<Task> {
        match self {
            NewTask::Timing(w) => match w.state.stage {
                TimingStage::Announcing(t) => Some(t),
                _ => None,
            },
            NewTask::Done(w) => Some(w.state.task),
            _ => None,
        }
    }

    /// Once the description is in, it is not empty; from the effort questions
    /// on, there is a context; the store is asked to create exactly the task
    /// the builder describes.
    pub open spec fn wf(self) -> bool {
        let b = self.builder()@;
        &&& (self is Context ==> b.description.len() > 0)
        &&& (self.phase() == Phase::ChooseBrainpower || self.phase() == Phase::ChooseEstimate
            ==> b.is_complete())
        &&& (self is Timing || self is Done ==> b.is_complete())
        &&& match self.creation() {
            Some(Creation::Submitting { args }) => views(args@) == add_args(b),
            _ => true,
        }
    }

    /// The task the workflow created, once it is done.
    pub fn task(&self) -> (r: Option<&Task>)
        ensures
            self is Done ==> r == Some(&self->Done_0.state.task),
            !(self is Done) ==> r is None,
    {
        match self {
            NewTask::Done(w) => Some(&w.state.task),
            _ => None,
        }
    }
}

impl StatefulEnum for NewTask {
    open spec fn is_terminal(&self) -> bool {
        self is Done
    }

    open spec fn pending(&self) -> Result<Option<Ask>, WorkflowError> {
        if self.phase() == Phase::Create {
            match self.creation()->Some_0.pending() {
                Some(a) => Ok(Some(a)),
                None => Err(WorkflowError::Terminated),
            }
        } else {
            Ok(
            match self.phase() {
                Phase::AskProject => Some(Ask::Confirm("Is this part of a project?"@, true)),
                Phase::ListProjects => Some(Ask::Run(seq!["_projects"@])),
                Phase::ChooseProject => Some(Ask::Select("Select a project"@, project_items(self.offered()), 0)),
                Phase::NameProject => Some(Ask::Input("Project: "@, None)),
                Phase::Describe => Some(Ask::Input("What is the action?"@, None)),
                Phase::ChooseContexts => Some(
                    Ask::MultiSelect("What context(s) fit the task? (space to select/unselect)"@, context_labels()),
                ),
                Phase::WarnContexts => Some(Ask::Show("You must specify at least one context"@)),
                Phase::ChooseBrainpower => Some(
                    Ask::Select("How much brainpower will this take?"@, brainpower_labels(), 1),
                ),
                Phase::ChooseEstimate => Some(
                    Ask::Select("Rough estimate for how long the task will take?"@, estimate_labels(), 0),
                ),
                Phase::AskDue => Some(Ask::Confirm("Is there a specific due date?"@, false)),
                Phase::EnterDue => Some(Ask::Input("When is it due?"@, None)),
                Phase::Create => self.creation()->Some_0.pending(),
                Phase::Announce => Some(Ask::Show("Added a new task with id "@ + crate::text::decimal(
                    match self.created()->Some_0.id { Some(id) => id as nat, None => 0 },
                ))),
                Phase::Done => None,
            },
            )
        }
    }

    open spec fn steps_to(&self, reply: Reply, r: Result<NewTask, WorkflowError>) -> bool {
        let b = self.builder();
        let ok = r is Ok;
        let n = r->Ok_0;
        let same = ok && n.builder() == b;
        let fits = match self.phase() {
            Phase::AskProject | Phase::AskDue => reply is Confirmed,
            Phase::ListProjects => reply is Output,
            Phase::ChooseProject | Phase::ChooseBrainpower | Phase::ChooseEstimate => reply is Selected,
            Phase::NameProject | Phase::Describe | Phase::EnterDue => reply is Text,
            Phase::ChooseContexts => reply is SelectedMany,
            Phase::WarnContexts | Phase::Announce => reply is Ack,
            Phase::Create | Phase::Done => true,
        };
        &&& (!fits ==> r == Err::<NewTask, WorkflowError>(WorkflowError::UnexpectedReply))
        &&& (self.wf() && ok ==> n.wf())
        &&& (fits ==> match self.phase() {
            Phase::AskProject => if reply->Confirmed_0 {
                same && n.phase() == Phase::ListProjects
            } else {
                same && n.phase() == Phase::Describe
            },
            Phase::ListProjects => same && n.phase() == Phase::ChooseProject
                && project_views(n.offered()) == lines(reply->Output_0@),
            Phase::ChooseProject => {
                let i = reply->Selected_0;
                if i == 0 {
                    same && n.phase() == Phase::NameProject
                } else if i <= self.offered().len() {
                    ok && n.phase() == Phase::Describe && n.builder()@ == (BuilderView {
                        project: Some(self.offered()[i - 1].name()),
                        ..b@
                    })
                } else {
                    r == Err::<NewTask, WorkflowError>(WorkflowError::NoSuchChoice)
                }
            },
            Phase::NameProject => ok && n.phase() == Phase::Describe && n.builder()@ == (BuilderView {
                project: Some(reply->Text_0@),
                ..b@
            }),
            Phase::Describe => if reply->Text_0@.len() == 0 {
                same && n.phase() == Phase::Describe
            } else {
                ok && n.phase() == Phase::ChooseContexts && n.builder()@ == (BuilderView {
                    description: reply->Text_0@,
                    ..b@
                })
            },
            Phase::ChooseContexts => {
                let ix = reply->SelectedMany_0@;
                if exists|j: int| 0 <= j < ix.len() && ix[j] >= 8 {
                    r == Err::<NewTask, WorkflowError>(WorkflowError::NoSuchChoice)
                } else if ix.len() == 0 {
                    same && n.phase() == Phase::WarnContexts
                } else {
                    ok && n.phase() == Phase::ChooseBrainpower && n.builder()@ == (BuilderView {
                        contexts: b@.contexts + picked(ix),
                        ..b@
                    })
                }
            },
            Phase::WarnContexts => same && n.phase() == Phase::ChooseContexts,
            Phase::ChooseBrainpower => if reply->Selected_0 < 3 {
                ok && n.phase() == Phase::ChooseEstimate && n.builder()@ == (BuilderView {
                    brainpower: Brainpower::all()[reply->Selected_0 as int],
                    ..b@
                })
            } else {
                r == Err::<NewTask, WorkflowError>(WorkflowError::NoSuchChoice)
            },
            Phase::ChooseEstimate => if reply->Selected_0 < 5 {
                ok && n.phase() == Phase::AskDue && n.builder()@ == (BuilderView {
                    estimate: Estimate::all()[reply->Selected_0 as int],
                    ..b@
                })
            } else {
                r == Err::<NewTask, WorkflowError>(WorkflowError::NoSuchChoice)
            },
            Phase::AskDue => if reply->Confirmed_0 {
                same && n.phase() == Phase::EnterDue
            } else {
                same && n.phase() == Phase::Create && n.creation()->Some_0 is Submitting
            },
            Phase::EnterDue => ok && n.phase() == Phase::Create && n.creation()->Some_0 is Submitting
                && n.builder()@ == (BuilderView { due: Some(reply->Text_0@), ..b@ }),
            Phase::Create => match self.creation()->Some_0 {
                Creation::Submitting { .. } => match reply {
                    Reply::Output(out) => match created_id(out@) {
                        Some(id) => same && n.phase() == Phase::Create
                            && n.creation() == Some(Creation::Fetching { id }),
                        None => r == Err::<NewTask, WorkflowError>(WorkflowError::UnreadableConfirmation),
                    },
                    _ => r == Err::<NewTask, WorkflowError>(WorkflowError::UnexpectedReply),
                },
                Creation::Fetching { .. } => match reply {
                    Reply::Tasks(ts) => if ts@.len() > 0 {
                        same && n.phase() == Phase::Announce && n.created() == Some(ts@[0])
                    } else {
                        r == Err::<NewTask, WorkflowError>(WorkflowError::TaskNotFound)
                    },
                    _ => r == Err::<NewTask, WorkflowError>(WorkflowError::UnexpectedReply),
                },
                Creation::Created { .. } => r == Err::<NewTask, WorkflowError>(WorkflowError::Terminated),
            },
            Phase::Announce => same && n is Done && n.created() == self.created(),
            Phase::Done => r == Err::<NewTask, WorkflowError>(WorkflowError::Terminated),
        })
    }

    fn terminated(&self) -> (r: bool) {
        match self {
            NewTask::Done(_) => true,
            _ => false,
        }
    }

    fn request(&self) -> (r: Result<Option<Request>, WorkflowError>) {
        let q = match self {
            NewTask::ProjectInfo(w) => match &w.state.stage {
                ProjectStage::Asking => Some(confirm("Is this part of a project?", true)),
                ProjectStage::Listing => {
                    let args = vec![owned("_projects")];
                    assert(views(args@) =~= seq!["_projects"@]);
                    Some(Request::Run { args })
                },
                ProjectStage::Choosing(ps) => Some(
                    Request::Select { prompt: owned("Select a project"), items: project_choices(ps), default: 0 },
                ),
                ProjectStage::Naming => Some(input("Project: ", None)),
            },
            NewTask::Action(_) => Some(input("What is the action?", None)),
            NewTask::Context(w) => match w.state.stage {
                ContextStage::Choosing => Some(
                    Request::MultiSelect {
                        prompt: owned("What context(s) fit the task? (space to select/unselect)"),
                        items: context_items(),
                    },
                ),
                ContextStage::Warning => Some(show("You must specify at least one context")),
                ContextStage::Brainpower => Some(
                    Request::Select {
                        prompt: owned("How much brainpower will this take?"),
                        items: brainpower_items(),
                        default: 1,
                    },
                ),
                ContextStage::Estimate => Some(
                    Request::Select {
                        prompt: owned("Rough estimate for how long the task will take?"),
                        items: estimate_items(),
                        default: 0,
                    },
                ),
            },
            NewTask::Timing(w) => match &w.state.stage {
                TimingStage::Asking => Some(confirm("Is there a specific due date?", false)),
                TimingStage::Dating => Some(input("When is it due?", None)),
                TimingStage::Creating(c) => match c.request() {
                    Some(q) => Some(q),
                    None => {
                        return Err(WorkflowError::Terminated);
                    },
                },
                TimingStage::Announcing(t) => {
                    let id = match t.id {
                        Some(id) => id,
                        None => 0,
                    };
                    let mut text = owned("Added a new task with id ");
                    let digits = crate::text::to_decimal(id);
                    text.append(digits.as_str());
                    Some(Request::Show { text })
                },
            },
            NewTask::Done(_) => None,
        };
        Ok(q)
    }

    fn step(self, reply: Reply) -> (r: Result<NewTask, WorkflowError>) {
        match self {
            NewTask::ProjectInfo(w) => {
                let Workflow { builder, state } = w;
                match state.stage {
                    ProjectStage::Asking => match reply {
                        Reply::Confirmed(yes) => if yes {
                            Ok(NewTask::ProjectInfo(Workflow { builder, state: ProjectInfo { stage: ProjectStage::Listing } }))
                        } else {
                            Ok(NewTask::Action(Workflow { builder, state: Action }))
                        },
                        _ => Err(WorkflowError::UnexpectedReply),
                    },
                    ProjectStage::Listing => match reply {
                        Reply::Output(out) => {
                            let ps = projects(out.as_str());
                            Ok(NewTask::ProjectInfo(Workflow { builder, state: ProjectInfo { stage: ProjectStage::Choosing(ps) } }))
                        },
                        _ => Err(WorkflowError::UnexpectedReply),
                    },
                    ProjectStage::Choosing(mut ps) => match reply {
                        Reply::Selected(i) => {
                            if i == 0 {
                                Ok(NewTask::ProjectInfo(Workflow { builder, state: ProjectInfo { stage: ProjectStage::Naming } }))
                            } else if i <= ps.len() {
                                let p = ps.swap_remove(i - 1);
                                let mut builder = builder;
                                builder.with_project(p);
                                Ok(NewTask::Action(Workflow { builder, state: Action }))
                            } else {
                                Err(WorkflowError::NoSuchChoice)
                            }
                        },
                        _ => Err(WorkflowError::UnexpectedReply),
                    },
                    ProjectStage::Naming => match reply {
                        Reply::Text(name) => {
                            let mut builder = builder;
                            builder.with_project(Project(name));
                            Ok(NewTask::Action(Workflow { builder, state: Action }))
                        },
                        _ => Err(WorkflowError::UnexpectedReply),
                    },
                }
            },
            NewTask::Action(w) => match reply {
                Reply::Text(desc) => {
                    if desc.as_str().unicode_len() == 0 {
                        Ok(NewTask::Action(w))
                    } else {
                        let mut builder = w.builder;
                        builder.with_description(desc.as_str());
                        Ok(NewTask::Context(Workflow { builder, state: Context { stage: ContextStage::Choosing } }))
                    }
                },
                _ => Err(WorkflowError::UnexpectedReply),
            },
            NewTask::Context(w) => {
                let Workflow { builder, state } = w;
                match state.stage {
                    ContextStage::Choosing => match reply {
                        Reply::SelectedMany(ix) => match pick_contexts(&ix) {
                            None => Err(WorkflowError::NoSuchChoice),
                            Some(cs) => {
                                if cs.len() == 0 {
                                    Ok(NewTask::Context(Workflow { builder, state: Context { stage: ContextStage::Warning } }))
                                } else {
                                    let mut builder = builder;
                                    builder.with_contexts(cs.as_slice());
                                    Ok(NewTask::Context(Workflow { builder, state: Context { stage: ContextStage::Brainpower } }))
                                }
                            },
                        },
                        _ => Err(WorkflowError::UnexpectedReply),
                    },
                    ContextStage::Warning => match reply {
                        Reply::Ack => Ok(NewTask::Context(Workflow { builder, state: Context { stage: ContextStage::Choosing } })),
                        _ => Err(WorkflowError::UnexpectedReply),
                    },
                    ContextStage::Brainpower => match reply {
                        Reply::Selected(i) => {
                            let choices = Brainpower::list();
                            if i < choices.len() {
                                let mut builder = builder;
                                builder.with_brainpower(choices[i]);
                                Ok(NewTask::Context(Workflow { builder, state: Context { stage: ContextStage::Estimate } }))
                            } else {
                                Err(WorkflowError::NoSuchChoice)
                            }
                        },
                        _ => Err(WorkflowError::UnexpectedReply),
                    },
                    ContextStage::Estimate => match reply {
                        Reply::Selected(i) => {
                            let choices = Estimate::list();
                            if i < choices.len() {
                                let mut builder = builder;
                                builder.with_estimate(choices[i]);
                                Ok(NewTask::Timing(Workflow { builder, state: Timing { stage: TimingStage::Asking } }))
                            } else {
                                Err(WorkflowError::NoSuchChoice)
                            }
                        },
                        _ => Err(WorkflowError::UnexpectedReply),
                    },
                }
            },
            NewTask::Timing(w) => {
                let Workflow { builder, state } = w;
                match state.stage {
                    TimingStage::Asking => match reply {
                        Reply::Confirmed(yes) => if yes {
                            Ok(NewTask::Timing(Workflow { builder, state: Timing { stage: TimingStage::Dating } }))
                        } else {
                            let c = Creation::new(&builder);
                            Ok(NewTask::Timing(Workflow { builder, state: Timing { stage: TimingStage::Creating(c) } }))
                        },
                        _ => Err(WorkflowError::UnexpectedReply),
                    },
                    TimingStage::Dating => match reply {
                        Reply::Text(due) => {
                            let mut builder = builder;
                            builder.with_due(due.as_str());
                            let c = Creation::new(&builder);
                            Ok(NewTask::Timing(Workflow { builder, state: Timing { stage: TimingStage::Creating(c) } }))
                        },
                        _ => Err(WorkflowError::UnexpectedReply),
                    },
                    TimingStage::Creating(c) => {
                        let c = c.step(reply)?;
                        match c {
                            Creation::Created { task } => Ok(
                                NewTask::Timing(Workflow { builder, state: Timing { stage: TimingStage::Announcing(task) } }),
                            ),
                            _ => Ok(NewTask::Timing(Workflow { builder, state: Timing { stage: TimingStage::Creating(c) } })),
                        }
                    },
                    TimingStage::Announcing(task) => match reply {
                        Reply::Ack => Ok(NewTask::Done(Workflow { builder, state: Done { task } })),
                        _ => Err(WorkflowError::UnexpectedReply),
                    },
                }
            },
            NewTask::Done(_) => Err(WorkflowError::Terminated),
        }
    }
}

/// A task is only ever created complete. In a well-formed workflow (every
/// state reached from `new` or `for_project` is one), the command that
/// creates the task is the builder's `add` command, whose last word, the
/// description, is not empty, and which carries a context tag.
pub proof fn lemma_created_task_is_complete(w: NewTask)
    requires
        w.wf(),
        w.phase() == Phase::Create,
        w.creation()->Some_0 is Submitting,
    ensures
        w.pending() == Ok::<Option<Ask>, WorkflowError>(Some(Ask::Run(add_args(w.builder()@)))),
        add_args(w.builder()@).last() == w.builder()@.description,
        w.builder()@.description.len() > 0,
        w.builder()@.contexts.len() > 0,
        add_args(w.builder()@).contains("+"@ + w.builder()@.contexts[0].tag_spec()),
{
    let b = w.builder()@;
    let a = add_args(b);
    let k: int = 3 + crate::task::keyed("proj:"@, b.project).len() as int;
    assert(a[k] == crate::task::plus_tags(crate::task::context_tags(b.contexts))[0]);
}

} // verus!
