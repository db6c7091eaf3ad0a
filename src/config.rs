//! The settings the commands read.
use vstd::prelude::*;

verus! {

/// The servers that open URLs on the user's behalf.
#[derive(Clone, Debug)]
pub struct IouConfig {
    pub servers: Vec<String>,
}

/// Where review requests for RFCs come from, and where their review tasks go.
#[derive(Clone, Debug)]
pub struct Rfcs {
    pub filter: String,
    pub rnr_task_project: String,
}

/// The filter for pull-request tasks.
#[derive(Clone, Debug)]
pub struct Requests {
    pub filter: String,
}

/// The filter templates of the daily scrum report; `{{bound}}` stands for
/// the start of the period reported on.
#[derive(Clone, Debug)]
pub struct Scrum {
    pub completed: String,
    pub due: String,
    pub in_progress: String,
    pub modified: String,
    pub waiting: String,
}

#[derive(Clone, Debug)]
pub struct Config {
    pub iou: IouConfig,
    /// Projects that the project review skips.
    pub excluded_projects: Vec<String>,
    pub rfcs: Rfcs,
    pub requests: Requests,
    pub scrum: Scrum,
}

/// The scrum's default filter for tasks due soon.
pub fn default_due() -> (r: String)
    ensures
        r@ == "-in +@work status:Pending and (+DUE or +OVERDUE)"@,
{
    String::from_str("-in +@work status:Pending and (+DUE or +OVERDUE)")
}

/// The scrum's default filter for tasks in progress.
pub fn default_in_progress() -> (r: String)
    ensures
        r@ == "-in +@work +ACTIVE"@,
{
    String::from_str("-in +@work +ACTIVE")
}

/// The scrum's default filter for tasks waiting on others.
pub fn default_waiting() -> (r: String)
    ensures
        r@ == "+@work -@home and ((+WAITING and wait.before:today+5d) or (+tickle and status:Pending))"@,
{
    String::from_str("+@work -@home and ((+WAITING and wait.before:today+5d) or (+tickle and status:Pending))")
}

} // verus!
