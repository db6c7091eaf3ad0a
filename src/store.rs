//! The commands and queries that reach the external task store, and readers
//! for its plain-text output.
use vstd::prelude::*;

use crate::task::Project;
use crate::text::{contains_str, join2, views};

verus! {

/// The words a POSIX shell would split `s` into, or `None` where its quoting
/// is unbalanced.
pub uninterp spec fn shell_words(s: Seq<char>) -> Option<Seq<Seq<char>>>;

/// Relies on `shlex::split`: the words of a filter as a shell would split them.
#[verifier::external_body]
fn split_words(s: &str) -> (r: Option<Vec<String>>)
    ensures
        match r {
            Some(v) => shell_words(s@) == Some(views(v@)),
            None => shell_words(s@) is None,
        },
{
    shlex::split(s)
}

/// The arguments of the store command that exports, as JSON, the tasks a
/// filter selects; a filter that cannot be split selects with no words.
pub open spec fn export_spec(filter: Seq<char>) -> Seq<Seq<char>> {
    seq!["rc.json.array=on"@, "rc.confirmation=off"@]
        + match shell_words(filter) {
            Some(w) => w,
            None => Seq::empty(),
        }
        + seq!["export"@]
}

pub fn export_args(filter: &str) -> (r: Vec<String>)
    ensures
        views(r@) == export_spec(filter@),
{
    let mut args: Vec<String> = Vec::new();
    args.push(String::from_str("rc.json.array=on"));
    args.push(String::from_str("rc.confirmation=off"));
    let ghost head = views(args@);
    match split_words(filter) {
        Some(words) => {
            let mut words = words;
            let ghost w = views(words@);
            args.append(&mut words);
            assert(views(args@) =~= head + w);
        },
        None => {
            assert(views(args@) =~= head + Seq::<Seq<char>>::empty());
        },
    }
    let ghost mid = views(args@);
    args.push(String::from_str("export"));
    assert(views(args@) =~= mid.push("export"@));
    assert(views(args@) =~= export_spec(filter@));
    args
}

/// The filter for the pending tasks of a project.
pub open spec fn project_filter(p: Seq<char>) -> Seq<char> {
    "proj:"@ + p + " status:pending"@
}

impl Project {
    /// The filter that selects this project's pending tasks.
    pub fn tasks_filter(&self) -> (r: String)
        ensures
            r@ == project_filter(self.name()),
    {
        let mut s = join2("proj:", self.0.as_str());
        s.append(" status:pending");
        s
    }
}

/// The lines of a text, split at each newline; a trailing newline leaves an
/// empty last line.
pub open spec fn lines(s: Seq<char>) -> Seq<Seq<char>>
    decreases s.len(),
{
    if s.len() == 0 {
        seq![Seq::empty()]
    } else if s.last() == '\n' {
        lines(s.drop_last()).push(Seq::empty())
    } else {
        let l = lines(s.drop_last());
        l.update(l.len() - 1, l.last().push(s.last()))
    }
}

proof fn lemma_lines_nonempty(s: Seq<char>)
    ensures
        lines(s).len() >= 1,
    decreases s.len(),
{
    if s.len() > 0 {
        lemma_lines_nonempty(s.drop_last());
    }
}

/// The names the store lists as projects, less the excluded ones.
pub open spec fn project_names(out: Seq<char>, exclude: Seq<Seq<char>>) -> Seq<Seq<char>> {
    lines(out).filter(|l: Seq<char>| !exclude.contains(l))
}

pub open spec fn project_views(ps: Seq<Project>) -> Seq<Seq<char>> {
    ps.map_values(|p: Project| p.name())
}

/// The projects in the output of the store's project listing, one per line,
/// less those in `exclude`.
pub fn projects_excluding(out: &str, exclude: &Vec<String>) -> (r: Vec<Project>)
    ensures
        project_views(r@) == project_names(out@, views(exclude@)),
{
    let ghost ex = views(exclude@);
    let ghost keep = |l: Seq<char>| !ex.contains(l);
    let n = out.unicode_len();
    let mut r: Vec<Project> = Vec::new();
    let mut start: usize = 0;
    let mut i: usize = 0;
    proof {
        reveal(Seq::filter);
        let e = out@.subrange(0, 0);
        assert(e =~= Seq::<char>::empty());
        assert(lines(e) == seq![Seq::<char>::empty()]);
        assert(lines(e).drop_last() =~= Seq::<Seq<char>>::empty());
        assert(lines(e).drop_last().push(e) =~= lines(e));
        assert(project_views(r@) =~= lines(e).drop_last().filter(keep));
    }
    while i < n
        invariant
            n == out@.len(),
            start <= i <= n,
            ex == views(exclude@),
            keep == (|l: Seq<char>| !ex.contains(l)),
            lines(out@.subrange(0, i as int)) == lines(out@.subrange(0, start as int)).drop_last().push(
                out@.subrange(start as int, i as int),
            ),
            project_views(r@) == lines(out@.subrange(0, start as int)).drop_last().filter(keep),
        decreases n - i,
    {
        let ghost pre = out@.subrange(0, i as int);
        let ghost next = out@.subrange(0, i + 1);
        assert(next.drop_last() =~= pre);
        proof {
            lemma_lines_nonempty(out@.subrange(0, start as int));
        }
        if out.get_char(i) == '\n' {
            let line = out.substring_char(start, i);
            let owned = String::from_str(line);
            let ghost done_lines = lines(out@.subrange(0, start as int)).drop_last();
            proof {
                reveal(Seq::filter);
                assert(done_lines.push(line@).drop_last() =~= done_lines);
            }
            if !contains_str(exclude, &owned) {
                r.push(Project(owned));
                assert(project_views(r@) =~= done_lines.push(line@).filter(keep));
            } else {
                assert(project_views(r@) =~= done_lines.push(line@).filter(keep));
            }
            assert(lines(next) =~= done_lines.push(line@).push(Seq::empty()));
            start = i + 1;
            assert(out@.subrange(0, start as int) == next);
            assert(lines(next).drop_last() =~= done_lines.push(line@));
            assert(out@.subrange(start as int, i + 1) =~= Seq::<char>::empty());
        } else {
            assert(out@.subrange(start as int, i + 1) =~= out@.subrange(start as int, i as int).push(out@[i as int]));
        }
        i = i + 1;
    }
    assert(out@.subrange(0, n as int) =~= out@);
    let last = out.substring_char(start, n);
    let owned = String::from_str(last);
    let ghost done_lines = lines(out@.subrange(0, start as int)).drop_last();
    proof {
        reveal(Seq::filter);
        assert(done_lines.push(last@).drop_last() =~= done_lines);
        assert(lines(out@) == done_lines.push(last@));
    }
    if !contains_str(exclude, &owned) {
        r.push(Project(owned));
        assert(project_views(r@) =~= done_lines.push(last@).filter(keep));
    } else {
        assert(project_views(r@) =~= done_lines.push(last@).filter(keep));
    }
    r
}

/// The projects in the output of the store's project listing, one per line.
pub fn projects(out: &str) -> (r: Vec<Project>)
    ensures
        project_views(r@) == lines(out@),
{
    let none: Vec<String> = Vec::new();
    let r = projects_excluding(out, &none);
    proof {
        let keep = |l: Seq<char>| !views(none@).contains(l);
        assert(views(none@) =~= Seq::<Seq<char>>::empty());
        assert(lines(out@).filter(keep) =~= lines(out@)) by {
            lemma_filter_all(lines(out@), keep);
        }
    }
    r
}

proof fn lemma_filter_all(s: Seq<Seq<char>>, keep: spec_fn(Seq<char>) -> bool)
    requires
        forall|i: int| 0 <= i < s.len() ==> keep(#[trigger] s[i]),
    ensures
        s.filter(keep) == s,
    decreases s.len(),
{
    reveal(Seq::filter);
    if s.len() > 0 {
        lemma_filter_all(s.drop_last(), keep);
        assert(s.drop_last().push(s.last()) =~= s);
    } else {
        assert(s.filter(keep) =~= s);
    }
}

} // verus!
