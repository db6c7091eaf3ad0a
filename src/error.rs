//! The errors of the library.
use vstd::prelude::*;

verus! {

/// Errors from launching external subcommands.
#[derive(Clone, Debug)]
pub enum DurandalError {
    /// A requested external command could not be found.
    UnknownExternalCommand(String),
    /// Any other failure of input or output, with its message.
    IOError(String),
}

impl DurandalError {
    /// The message shown to the user.
    pub fn message(&self) -> (r: String)
        ensures
            self is UnknownExternalCommand ==> r@ == "The external command '"@
                + self->UnknownExternalCommand_0@ + "' could not be found"@,
            self is IOError ==> r@ == self->IOError_0@,
    {
        match self {
            DurandalError::UnknownExternalCommand(name) => {
                let mut s = String::from_str("The external command '");
                s.append(name.as_str());
                s.append("' could not be found");
                s
            },
            DurandalError::IOError(msg) => msg.clone(),
        }
    }
}

/// Why a workflow could not take a step.
#[derive(Clone, Copy, Debug, PartialEq, Eq, Structural)]
pub enum WorkflowError {
    /// The workflow already reached a terminal state.
    Terminated,
    /// The reply does not answer the request the state waits on.
    UnexpectedReply,
    /// A selection names no offered item.
    NoSuchChoice,
    /// The task has no id, so the store cannot address it.
    MissingId,
    /// The store's confirmation of a new task names no id.
    UnreadableConfirmation,
    /// The store returned no task for an id it had just reported.
    TaskNotFound,
    /// A pull request task carries no URL to open.
    MissingUrl,
    /// No task is active.
    NoActiveTask,
    /// More than one task is active.
    SeveralActiveTasks,
    /// The store has no task with the uuid recorded for resuming.
    ResumeNotFound,
    /// An RFC task lacks its Jira URL.
    MissingJiraUrl,
}

impl WorkflowError {
    pub open spec fn message_spec(self) -> Seq<char> {
        match self {
            WorkflowError::Terminated => "Attempted to step a terminal state"@,
            WorkflowError::UnexpectedReply => "The reply does not answer the pending request"@,
            WorkflowError::NoSuchChoice => "The selection is not among the offered items"@,
            WorkflowError::MissingId => "Task did not have an id"@,
            WorkflowError::UnreadableConfirmation => "Could not read the id of the newly created task"@,
            WorkflowError::TaskNotFound => "Could not find the newly created task"@,
            WorkflowError::MissingUrl => "Task is missing the github url"@,
            WorkflowError::NoActiveTask => "No active task"@,
            WorkflowError::SeveralActiveTasks => "More than one active task detected. Aborting"@,
            WorkflowError::ResumeNotFound => "Could not find the task to resume"@,
            WorkflowError::MissingJiraUrl => "Failed to get jira url"@,
        }
    }

    /// The message shown to the user.
    pub fn message(&self) -> (r: &'static str)
        ensures
            r@ == self.message_spec(),
    {
        match self {
            WorkflowError::Terminated => "Attempted to step a terminal state",
            WorkflowError::UnexpectedReply => "The reply does not answer the pending request",
            WorkflowError::NoSuchChoice => "The selection is not among the offered items",
            WorkflowError::MissingId => "Task did not have an id",
            WorkflowError::UnreadableConfirmation => "Could not read the id of the newly created task",
            WorkflowError::TaskNotFound => "Could not find the newly created task",
            WorkflowError::MissingUrl => "Task is missing the github url",
            WorkflowError::NoActiveTask => "No active task",
            WorkflowError::SeveralActiveTasks => "More than one active task detected. Aborting",
            WorkflowError::ResumeNotFound => "Could not find the task to resume",
            WorkflowError::MissingJiraUrl => "Failed to get jira url",
        }
    }
}

} // verus!
