//! The decisions the command-line commands make around the store and the
//! workflows.
use vstd::prelude::*;

use crate::task::{Annotation, Task};
use crate::text::{contains_str, decimal, join2, to_decimal, views};

verus! {

/// A subcommand of a command-line program, run on its own.
pub trait CliCommand {
    fn run(&self) -> Result<(), String>;
}

/// A subcommand that is handed shared settings, such as the program's
/// configuration. A program uses one of the two traits for all its
/// subcommands.
pub trait CliMetaCommand {
    type Meta;

    fn run(&self, meta: &Self::Meta) -> Result<(), String>;
}

/// Why a command cannot go on.
#[derive(Clone, Copy, Debug, PartialEq, Eq, Structural)]
pub enum CommandError {
    /// No task is active.
    NoActiveTask,
    /// More than one task is active.
    SeveralActiveTasks,
    /// No URL-opening server is configured.
    NoIouServer,
    /// The chosen server is not among those configured.
    NoSuchServer,
    /// An RFC task lacks its Jira summary.
    MissingSummary,
    /// An RFC task lacks its Jira URL.
    MissingJiraUrl,
    /// A scrum filter template could not be rendered.
    BadTemplate,
}

impl CommandError {
    pub open spec fn message_spec(self) -> Seq<char> {
        match self {
            CommandError::NoActiveTask => "No active task"@,
            CommandError::SeveralActiveTasks => "More than one active task detected. Aborting"@,
            CommandError::NoIouServer => "Invalid configuration: IOU server list is empty"@,
            CommandError::NoSuchServer => "The chosen IOU server is not configured"@,
            CommandError::MissingSummary => "Failed to get jira summary"@,
            CommandError::MissingJiraUrl => "Failed to get jira url"@,
            CommandError::BadTemplate => "Could not render a scrum filter template"@,
        }
    }

    /// The message shown to the user.
    pub fn message(&self) -> (r: &'static str)
        ensures
            r@ == self.message_spec(),
    {
        match self {
            CommandError::NoActiveTask => "No active task",
            CommandError::SeveralActiveTasks => "More than one active task detected. Aborting",
            CommandError::NoIouServer => "Invalid configuration: IOU server list is empty",
            CommandError::NoSuchServer => "The chosen IOU server is not configured",
            CommandError::MissingSummary => "Failed to get jira summary",
            CommandError::MissingJiraUrl => "Failed to get jira url",
            CommandError::BadTemplate => "Could not render a scrum filter template",
        }
    }
}

/// The one active task, for commands that act on it alone.
pub fn single_active(candidates: &Vec<Task>) -> (r: Result<&Task, CommandError>)
    ensures
        candidates@.len() == 0 ==> r == Err::<&Task, CommandError>(CommandError::NoActiveTask),
        candidates@.len() > 1 ==> r == Err::<&Task, CommandError>(CommandError::SeveralActiveTasks),
        candidates@.len() == 1 ==> r == Ok::<&Task, CommandError>(&candidates@[0]),
{
    if candidates.len() == 0 {
        Err(CommandError::NoActiveTask)
    } else if candidates.len() > 1 {
        Err(CommandError::SeveralActiveTasks)
    } else {
        Ok(&candidates[0])
    }
}

pub open spec fn starts_with(s: Seq<char>, p: Seq<char>) -> bool {
    s.len() >= p.len() && s.subrange(0, p.len() as int) == p
}

/// The uuid recorded by the latest annotation of the form `DTR:<uuid>`.
pub open spec fn resume_mark(anns: Seq<Annotation>) -> Option<Seq<char>>
    decreases anns.len(),
{
    if anns.len() == 0 {
        None
    } else if starts_with(anns.last().description@, "DTR:"@) {
        let d = anns.last().description@;
        Some(d.subrange(4, d.len() as int))
    } else {
        resume_mark(anns.drop_last())
    }
}

fn strip_prefix<'a>(s: &'a str, p: &str) -> (r: Option<&'a str>)
    ensures
        starts_with(s@, p@) ==> r is Some && r->Some_0@ == s@.subrange(p@.len() as int, s@.len() as int),
        !starts_with(s@, p@) ==> r is None,
{
    let n = s.unicode_len();
    let m = p.unicode_len();
    if n < m {
        return None;
    }
    let mut i: usize = 0;
    while i < m
        invariant
            m == p@.len(),
            n == s@.len(),
            m <= n,
            i <= m,
            forall|j: int| 0 <= j < i ==> s@[j] == p@[j],
        decreases m - i,
    {
        if s.get_char(i) != p.get_char(i) {
            assert(s@.subrange(0, m as int)[i as int] != p@[i as int]);
            return None;
        }
        i = i + 1;
    }
    assert(s@.subrange(0, m as int) =~= p@);
    Some(s.substring_char(m, n))
}

/// The uuid of the task to resume once this one is done, if one was recorded.
pub fn resume_uuid(task: &Task) -> (r: Option<String>)
    ensures
        match resume_mark(task.annotations@) {
            Some(u) => r is Some && r->Some_0@ == u,
            None => r is None,
        },
{
    let mut i: usize = task.annotations.len();
    assert(task.annotations@.subrange(0, i as int) =~= task.annotations@);
    while i > 0
        invariant
            i <= task.annotations@.len(),
            resume_mark(task.annotations@) == resume_mark(task.annotations@.subrange(0, i as int)),
        decreases i,
    {
        let ghost pre = task.annotations@.subrange(0, i as int);
        assert(pre.drop_last() =~= task.annotations@.subrange(0, i - 1));
        proof {
            reveal_strlit("DTR:");
        }
        match strip_prefix(task.annotations[i - 1].description.as_str(), "DTR:") {
            Some(u) => {
                return Some(String::from_str(u));
            },
            None => {},
        }
        i = i - 1;
    }
    assert(task.annotations@.subrange(0, 0) =~= Seq::<Annotation>::empty());
    None
}

/// How the picker of the `next` command shows a task: `id project: description`.
pub open spec fn next_label_spec(t: Task) -> Seq<char> {
    decimal(match t.id { Some(id) => id as nat, None => 0 }) + " "@
        + match t.project { Some(p) => p@, None => Seq::empty() } + ": "@ + t.description@
}

pub fn next_label(t: &Task) -> (r: String)
    ensures
        r@ == next_label_spec(*t),
{
    let mut r = to_decimal(
        match t.id {
            Some(id) => id,
            None => 0,
        },
    );
    r.append(" ");
    match &t.project {
        Some(p) => r.append(p.as_str()),
        None => {},
    }
    r.append(": ");
    r.append(t.description.as_str());
    r
}

/// The URL-opening servers to use: the only one configured, or the one
/// chosen among several.
pub fn iou_servers(servers: &Vec<String>, choice: Option<usize>) -> (r: Result<Vec<String>, CommandError>)
    ensures
        servers@.len() == 0 ==> r == Err::<Vec<String>, CommandError>(CommandError::NoIouServer),
        servers@.len() == 1 ==> r is Ok && views(r->Ok_0@) == views(servers@),
        servers@.len() > 1 ==> match choice {
            Some(i) => if i < servers@.len() {
                r is Ok && views(r->Ok_0@) == seq![servers@[i as int]@]
            } else {
                r == Err::<Vec<String>, CommandError>(CommandError::NoSuchServer)
            },
            None => r == Err::<Vec<String>, CommandError>(CommandError::NoSuchServer),
        },
{
    if servers.len() == 0 {
        return Err(CommandError::NoIouServer);
    }
    if servers.len() == 1 {
        let v = vec![servers[0].clone()];
        assert(views(v@) =~= views(servers@));
        return Ok(v);
    }
    match choice {
        Some(i) => if i < servers.len() {
            let v = vec![servers[i].clone()];
            assert(views(v@) =~= seq![servers@[i as int]@]);
            Ok(v)
        } else {
            Err(CommandError::NoSuchServer)
        },
        None => Err(CommandError::NoSuchServer),
    }
}

/// The subcommand an executable provides: its file name after `PREFIX-`.
pub fn external_subcommand(prefix: &str, file_name: &str) -> (r: Option<String>)
    ensures
        starts_with(file_name@, prefix@ + "-"@) ==> r is Some && r->Some_0@ == file_name@.subrange(
            prefix@.len() as int + 1,
            file_name@.len() as int,
        ),
        !starts_with(file_name@, prefix@ + "-"@) ==> r is None,
{
    let full = join2(prefix, "-");
    proof {
        reveal_strlit("-");
    }
    match strip_prefix(file_name, full.as_str()) {
        Some(rest) => Some(String::from_str(rest)),
        None => None,
    }
}

/// The positions of the tasks not yet shown, in order.
pub open spec fn unseen_positions(ts: Seq<Task>, seen: Seq<Seq<char>>) -> Seq<usize>
    decreases ts.len(),
{
    if ts.len() == 0 {
        Seq::empty()
    } else if seen.contains(ts.last().uuid@) {
        unseen_positions(ts.drop_last(), seen)
    } else {
        unseen_positions(ts.drop_last(), seen).push((ts.len() - 1) as usize)
    }
}

/// Which of the tasks a table shows when the tasks in `seen` were shown
/// before, by uuid; their uuids join `seen`. Several tables in a row share
/// `seen` so that no task shows twice.
pub fn unseen(tasks: &Vec<Task>, seen: &mut Vec<String>) -> (r: Vec<usize>)
    ensures
        r@ == unseen_positions(tasks@, views(old(seen)@)),
        views(final(seen)@) == views(old(seen)@) + r@.map_values(|i: usize| tasks@[i as int].uuid@),
{
    let prior = seen.clone();
    let ghost before = views(seen@);
    assert(views(prior@) == before);
    let mut r: Vec<usize> = Vec::new();
    let mut i: usize = 0;
    assert(tasks@.subrange(0, 0) =~= Seq::<Task>::empty());
    assert(views(seen@) =~= before + r@.map_values(|k: usize| tasks@[k as int].uuid@));
    while i < tasks.len()
        invariant
            i <= tasks@.len(),
            views(prior@) == before,
            r@ == unseen_positions(tasks@.subrange(0, i as int), before),
            views(seen@) == before + r@.map_values(|k: usize| tasks@[k as int].uuid@),
        decreases tasks@.len() - i,
    {
        assert(tasks@.subrange(0, i + 1).drop_last() =~= tasks@.subrange(0, i as int));
        assert(tasks@.subrange(0, i + 1).last() == tasks@[i as int]);
        if !contains_str(&prior, &tasks[i].uuid) {
            let ghost s0 = views(seen@);
            let u = tasks[i].uuid.clone();
            seen.push(u);
            r.push(i);
            assert(views(seen@) =~= s0.push(tasks@[i as int].uuid@));
            assert(views(seen@) =~= before + r@.map_values(|k: usize| tasks@[k as int].uuid@));
        }
        i = i + 1;
    }
    assert(tasks@.subrange(0, i as int) =~= tasks@);
    r
}

} // verus!
