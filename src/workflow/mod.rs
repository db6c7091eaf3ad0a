//! Workflows as state machines.
//!
//! A workflow state names the one request it waits on (`request`); the
//! caller performs it and hands the reply to `step`, which consumes the
//! state and yields the next one. Terminal states wait on nothing, and
//! stepping one is refused.
use vstd::prelude::*;

use crate::error::WorkflowError;
use crate::parser::{created_id, new_task_parser};
use crate::store::{export_args, export_spec};
use crate::task::{add_args, Task, TaskBuilder};
use crate::text::{decimal, owned, to_decimal, views};

pub mod create;
pub mod finish;
pub mod interrupt;
pub mod inbox;
pub mod next;
pub mod pr;
pub mod rfc;

verus! {

/// Something a workflow needs done before it can go on.
#[derive(Clone, Debug)]
pub enum Request {
    /// Ask a yes/no question; answered by `Reply::Confirmed`.
    Confirm { prompt: String, default: bool },
    /// Offer a list to pick one item from; answered by `Reply::Selected`.
    Select { prompt: String, items: Vec<String>, default: usize },
    /// Offer a list to pick any items from; answered by `Reply::SelectedMany`.
    MultiSelect { prompt: String, items: Vec<String> },
    /// Ask for a line of text; answered by `Reply::Text`.
    Input { prompt: String, default: Option<String> },
    /// Show a message; answered by `Reply::Ack`.
    Show { text: String },
    /// Show labelled values as a table; answered by `Reply::Ack`.
    Detail { rows: Vec<(String, String)> },
    /// Run the store's export with these arguments; answered by `Reply::Tasks`.
    Export { args: Vec<String> },
    /// Run a store command with these arguments; answered by `Reply::Output`
    /// with what it printed.
    Run { args: Vec<String> },
    /// Open a URL in a browser; answered by `Reply::Ack`.
    Open { url: String },
}

/// The outcome of a request.
#[derive(Clone, Debug)]
pub enum Reply {
    Confirmed(bool),
    Selected(usize),
    SelectedMany(Vec<usize>),
    Text(String),
    Ack,
    Tasks(Vec<Task>),
    Output(String),
}

/// A request as plain values.
pub enum Ask {
    Confirm(Seq<char>, bool),
    Select(Seq<char>, Seq<Seq<char>>, nat),
    MultiSelect(Seq<char>, Seq<Seq<char>>),
    Input(Seq<char>, Option<Seq<char>>),
    Show(Seq<char>),
    Detail(Seq<(Seq<char>, Seq<char>)>),
    Export(Seq<Seq<char>>),
    Run(Seq<Seq<char>>),
    Open(Seq<char>),
}

pub open spec fn row_views(rows: Seq<(String, String)>) -> Seq<(Seq<char>, Seq<char>)> {
    rows.map_values(|r: (String, String)| (r.0@, r.1@))
}

impl View for Request {
    type V = Ask;

    open spec fn view(&self) -> Ask {
        match self {
            Request::Confirm { prompt, default } => Ask::Confirm(prompt@, *default),
            Request::Select { prompt, items, default } => Ask::Select(prompt@, views(items@), *default as nat),
            Request::MultiSelect { prompt, items } => Ask::MultiSelect(prompt@, views(items@)),
            Request::Input { prompt, default } => Ask::Input(
                prompt@,
                match default {
                    Some(d) => Some(d@),
                    None => None,
                },
            ),
            Request::Show { text } => Ask::Show(text@),
            Request::Detail { rows } => Ask::Detail(row_views(rows@)),
            Request::Export { args } => Ask::Export(views(args@)),
            Request::Run { args } => Ask::Run(views(args@)),
            Request::Open { url } => Ask::Open(url@),
        }
    }
}

pub open spec fn ask_of(r: Option<Request>) -> Option<Ask> {
    match r {
        Some(q) => Some(q@),
        None => None,
    }
}

pub fn confirm(prompt: &str, default: bool) -> (r: Request)
    ensures
        r@ == Ask::Confirm(prompt@, default),
{
    Request::Confirm { prompt: owned(prompt), default }
}

pub fn input(prompt: &str, default: Option<&str>) -> (r: Request)
    ensures
        r@ == Ask::Input(
            prompt@,
            match default {
                Some(d) => Some(d@),
                None => None,
            },
        ),
{
    let d = match default {
        Some(d) => Some(owned(d)),
        None => None,
    };
    Request::Input { prompt: owned(prompt), default: d }
}

pub fn show(text: &str) -> (r: Request)
    ensures
        r@ == Ask::Show(text@),
{
    Request::Show { text: owned(text) }
}

/// A store command as what a state waits on.
pub open spec fn run_of(cmd: Result<Seq<Seq<char>>, WorkflowError>) -> Result<Option<Ask>, WorkflowError> {
    match cmd {
        Ok(a) => Ok(Some(Ask::Run(a))),
        Err(e) => Err(e),
    }
}

/// A store command on a task, or the error that keeps it from running.
pub fn run(args: Result<Vec<String>, WorkflowError>) -> (r: Result<Request, WorkflowError>)
    ensures
        match args {
            Ok(a) => r is Ok && r->Ok_0@ == Ask::Run(views(a@)),
            Err(e) => r == Err::<Request, WorkflowError>(e),
        },
{
    match args {
        Ok(a) => Ok(Request::Run { args: a }),
        Err(e) => Err(e),
    }
}

/// The common contract of the workflows.
pub trait StatefulEnum: Sized {
    /// Whether the state is one of the workflow's terminal states.
    spec fn is_terminal(&self) -> bool;

    /// What the state waits on, or the error that keeps it from asking.
    spec fn pending(&self) -> Result<Option<Ask>, WorkflowError>;

    /// How a state and a reply determine the outcome of a step.
    spec fn steps_to(&self, reply: Reply, r: Result<Self, WorkflowError>) -> bool;

    fn terminated(&self) -> (r: bool)
        ensures
            r == self.is_terminal(),
    ;

    /// What the state waits on; nothing exactly in terminal states.
    fn request(&self) -> (r: Result<Option<Request>, WorkflowError>)
        ensures
            match r {
                Ok(q) => self.pending() == Ok::<Option<Ask>, WorkflowError>(ask_of(q)),
                Err(e) => self.pending() == Err::<Option<Ask>, WorkflowError>(e),
            },
            (r is Ok && r->Ok_0 is None) <==> self.is_terminal(),
    ;

    /// Consumes the state and the reply to its request. A terminal state is
    /// refused and nothing is asked of it.
    fn step(self, reply: Reply) -> (r: Result<Self, WorkflowError>)
        ensures
            self.is_terminal() ==> r == Err::<Self, WorkflowError>(WorkflowError::Terminated),
            self.steps_to(reply, r),
    ;
}

/// Creating a task in the store: submit the builder's fields, read the new
/// id from the confirmation, then fetch the task by that id.
#[derive(Clone, Debug)]
pub enum Creation {
    Submitting { args: Vec<String> },
    Fetching { id: u64 },
    Created { task: Task },
}

/// The arguments of the export that fetches the task with this id.
pub open spec fn fetch_args(id: u64) -> Seq<Seq<char>> {
    export_spec(decimal(id as nat))
}

impl Creation {
    pub fn new(builder: &TaskBuilder) -> (r: Creation)
        ensures
            r is Submitting,
            views(r->Submitting_args@) == add_args(builder@),
    {
        Creation::Submitting { args: builder.args() }
    }

    pub open spec fn pending(self) -> Option<Ask> {
        match self {
            Creation::Submitting { args } => Some(Ask::Run(views(args@))),
            Creation::Fetching { id } => Some(Ask::Export(fetch_args(id))),
            Creation::Created { .. } => None,
        }
    }

    pub fn request(&self) -> (r: Option<Request>)
        ensures
            ask_of(r) == self.pending(),
    {
        match self {
            Creation::Submitting { args } => Some(Request::Run { args: args.clone() }),
            Creation::Fetching { id } => {
                let key = to_decimal(*id);
                Some(Request::Export { args: export_args(key.as_str()) })
            },
            Creation::Created { .. } => None,
        }
    }

    /// Submitting reads the id from the store's confirmation; fetching takes
    /// the first task the store returns for that id.
    pub fn step(self, reply: Reply) -> (r: Result<Creation, WorkflowError>)
        ensures
            self is Created ==> r == Err::<Creation, WorkflowError>(WorkflowError::Terminated),
            self is Submitting && !(reply is Output) ==> r == Err::<Creation, WorkflowError>(WorkflowError::UnexpectedReply),
            self is Submitting && reply is Output ==> match created_id(reply->Output_0@) {
                Some(id) => r == Ok::<Creation, WorkflowError>(Creation::Fetching { id }),
                None => r == Err::<Creation, WorkflowError>(WorkflowError::UnreadableConfirmation),
            },
            self is Fetching && !(reply is Tasks) ==> r == Err::<Creation, WorkflowError>(WorkflowError::UnexpectedReply),
            self is Fetching && reply is Tasks ==> if reply->Tasks_0@.len() > 0 {
                r == Ok::<Creation, WorkflowError>(Creation::Created { task: reply->Tasks_0@[0] })
            } else {
                r == Err::<Creation, WorkflowError>(WorkflowError::TaskNotFound)
            },
    {
        match self {
            Creation::Submitting { .. } => match reply {
                Reply::Output(out) => match new_task_parser(out.as_str()) {
                    Ok(id) => Ok(Creation::Fetching { id }),
                    Err(_) => Err(WorkflowError::UnreadableConfirmation),
                },
                _ => Err(WorkflowError::UnexpectedReply),
            },
            Creation::Fetching { .. } => match reply {
                Reply::Tasks(mut tasks) => {
                    if tasks.len() > 0 {
                        Ok(Creation::Created { task: tasks.swap_remove(0) })
                    } else {
                        Err(WorkflowError::TaskNotFound)
                    }
                },
                _ => Err(WorkflowError::UnexpectedReply),
            },
            Creation::Created { .. } => Err(WorkflowError::Terminated),
        }
    }
}

} // verus!
