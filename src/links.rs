//! Links found in task text: opening a task's links, and RFC review tasks.
use vstd::prelude::*;

use crate::commands::CommandError;
use crate::table::{lookup, uda_str};
use crate::task::{ActionCategory, Annotation, BuilderView, Project, Task, TaskBuilder, UdaValue};
use crate::text::{contains_str, join2, views};

verus! {

/// The links in a text, in order of appearance.
pub uninterp spec fn found_links(s: Seq<char>) -> Seq<Seq<char>>;

/// Relies on `linkify::LinkFinder::links` with the default options: the URLs
/// and e-mail addresses in a text, in order of appearance.
#[verifier::external_body]
fn links_in(text: &str) -> (r: Vec<String>)
    ensures
        views(r@) == found_links(text@),
{
    linkify::LinkFinder::new().links(text).map(|l| l.as_str().to_string()).collect()
}

/// Whether `needle` occurs in `s`.
pub open spec fn occurs(s: Seq<char>, needle: Seq<char>) -> bool {
    exists|i: int| 0 <= i && i + needle.len() <= s.len() && #[trigger] s.subrange(i, i + needle.len()) == needle
}

fn occurs_in(s: &str, needle: &str) -> (r: bool)
    ensures
        r == occurs(s@, needle@),
{
    let n = s.unicode_len();
    let m = needle.unicode_len();
    if m > n {
        return false;
    }
    let wanted = String::from_str(needle);
    let last = n - m;
    let mut i: usize = 0;
    loop
        invariant
            n == s@.len(),
            m == needle@.len(),
            last == n - m,
            i <= last,
            wanted@ == needle@,
            forall|k: int| 0 <= k < i ==> #[trigger] s@.subrange(k, k + needle@.len()) != needle@,
        decreases last - i,
    {
        let part = String::from_str(s.substring_char(i, i + m));
        if part == wanted {
            return true;
        }
        if i == last {
            return false;
        }
        i = i + 1;
    }
}

/// The first link that mentions `notion`.
pub open spec fn first_notion(ls: Seq<Seq<char>>) -> Option<Seq<char>>
    decreases ls.len(),
{
    if ls.len() == 0 {
        None
    } else if occurs(ls[0], "notion"@) {
        Some(ls[0])
    } else {
        first_notion(ls.drop_first())
    }
}

/// The Notion document an RFC's Jira description links to, if any.
pub open spec fn notion_link_spec(rfc: Task) -> Option<Seq<char>> {
    match lookup(rfc.udas@, "jiradescription"@) {
        Some(UdaValue::Str(d)) => first_notion(found_links(d@)),
        _ => None,
    }
}

pub fn notion_link(rfc: &Task) -> (r: Option<String>)
    ensures
        match notion_link_spec(*rfc) {
            Some(l) => r is Some && r->Some_0@ == l,
            None => r is None,
        },
{
    let desc = match uda_str(rfc, "jiradescription") {
        Some(d) => d,
        None => {
            return None;
        },
    };
    assert(lookup(rfc.udas@, "jiradescription"@) == Some(UdaValue::Str(*desc)));
    let mut links = links_in(desc.as_str());
    let ghost ls = views(links@);
    assert(notion_link_spec(*rfc) == first_notion(ls));
    let mut i: usize = 0;
    assert(ls.subrange(0, ls.len() as int) =~= ls);
    while i < links.len()
        invariant
            i <= links@.len(),
            ls == views(links@),
            first_notion(ls) == first_notion(ls.subrange(i as int, ls.len() as int)),
            notion_link_spec(*rfc) == first_notion(ls),
        decreases links@.len() - i,
    {
        let ghost rest = ls.subrange(i as int, ls.len() as int);
        assert(rest.drop_first() =~= ls.subrange(i + 1, ls.len() as int));
        proof {
            reveal_strlit("notion");
        }
        assert(rest[0] == ls[i as int]);
        if occurs_in(links[i].as_str(), "notion") {
            let l = links.swap_remove(i);
            assert(l@ == ls[i as int]);
            assert(rest.len() > 0);
            assert(occurs(rest[0], "notion"@));
            assert(first_notion(rest) == Some(rest[0]));
            assert(first_notion(ls) == Some(l@));
            assert(notion_link_spec(*rfc) == first_notion(ls));
            return Some(l);
        }
        i = i + 1;
    }
    None
}

/// The builder of the review task for an RFC, in the given project.
pub open spec fn rfc_builder_spec(summary: Seq<char>, project: Seq<char>) -> BuilderView {
    BuilderView {
        description: "RFC Review: "@ + summary,
        contexts: seq![ActionCategory::Computer, ActionCategory::Work],
        tags: seq!["rnr"@],
        project: Some(project),
        ..TaskBuilder::new_spec()
    }
}

/// The review task for an RFC: it needs the RFC's Jira summary.
pub fn rfc_review(rfc: &Task, project: &str) -> (r: Result<TaskBuilder, CommandError>)
    ensures
        match lookup(rfc.udas@, "jirasummary"@) {
            Some(UdaValue::Str(s)) => r is Ok && r->Ok_0@ == rfc_builder_spec(s@, project@),
            _ => r == Err::<TaskBuilder, CommandError>(CommandError::MissingSummary),
        },
{
    let summary = match uda_str(rfc, "jirasummary") {
        Some(s) => s,
        None => {
            return Err(CommandError::MissingSummary);
        },
    };
    let description = join2("RFC Review: ", summary.as_str());
    let mut b = TaskBuilder::new();
    let contexts: [ActionCategory; 2] = [ActionCategory::Computer, ActionCategory::Work];
    let tags: [&str; 1] = ["rnr"];
    proof {
        reveal_strlit("rnr");
    }
    b.with_description(description.as_str()).with_contexts(contexts.as_slice()).with_tags(tags.as_slice())
        .with_project(Project::new(project));
    assert(Seq::<ActionCategory>::empty() + contexts@ =~= seq![ActionCategory::Computer, ActionCategory::Work]);
    assert(Seq::<Seq<char>>::empty() + tags@.map_values(|t: &str| t@) =~= seq!["rnr"@]);
    Ok(b)
}

/// An RFC's Jira URL, which its review task links to.
pub fn jira_url(rfc: &Task) -> (r: Result<String, CommandError>)
    ensures
        match lookup(rfc.udas@, "jiraurl"@) {
            Some(UdaValue::Str(s)) => r is Ok && r->Ok_0@ == s@,
            _ => r == Err::<String, CommandError>(CommandError::MissingJiraUrl),
        },
{
    match uda_str(rfc, "jiraurl") {
        Some(s) => Ok(s.clone()),
        None => Err(CommandError::MissingJiraUrl),
    }
}

/// Each item once, at its first place.
pub open spec fn distinct(s: Seq<Seq<char>>) -> Seq<Seq<char>>
    decreases s.len(),
{
    if s.len() == 0 {
        Seq::empty()
    } else {
        let d = distinct(s.drop_last());
        if d.contains(s.last()) {
            d
        } else {
            d.push(s.last())
        }
    }
}

pub open spec fn text_uda(t: Task, key: Seq<char>) -> Seq<Seq<char>> {
    match lookup(t.udas@, key) {
        Some(UdaValue::Str(s)) => seq![s@],
        _ => Seq::empty(),
    }
}

/// The links in the annotations, in order.
pub open spec fn annotation_links(anns: Seq<Annotation>) -> Seq<Seq<char>>
    decreases anns.len(),
{
    if anns.len() == 0 {
        Seq::empty()
    } else {
        annotation_links(anns.drop_last()) + found_links(anns.last().description@)
    }
}

/// Everything a task links to: its Jira and GitHub URLs, then the links in
/// its annotations, each once.
pub open spec fn task_links_spec(t: Task) -> Seq<Seq<char>> {
    distinct(text_uda(t, "jiraurl"@) + text_uda(t, "githuburl"@) + annotation_links(t.annotations@))
}

/// Adds `s` unless it is there already.
fn add_once(v: &mut Vec<String>, s: String, Ghost(all): Ghost<Seq<Seq<char>>>)
    requires
        views(old(v)@) == distinct(all),
    ensures
        views(final(v)@) == distinct(all.push(s@)),
{
    assert(all.push(s@).drop_last() =~= all);
    if !contains_str(v, &s) {
        let ghost before = views(v@);
        v.push(s);
        assert(views(v@) =~= before.push(all.push(s@).last()));
    }
}

fn add_all(v: &mut Vec<String>, items: Vec<String>, Ghost(all): Ghost<Seq<Seq<char>>>)
    requires
        views(old(v)@) == distinct(all),
    ensures
        views(final(v)@) == distinct(all + views(items@)),
{
    let mut items = items;
    let ghost xs = views(items@);
    let mut i: usize = 0;
    assert(all + xs.subrange(0, 0) =~= all);
    while i < items.len()
        invariant
            i <= items@.len(),
            xs == views(items@),
            views(v@) == distinct(all + xs.subrange(0, i as int)),
        decreases items@.len() - i,
    {
        let s = items[i].clone();
        add_once(v, s, Ghost(all + xs.subrange(0, i as int)));
        assert((all + xs.subrange(0, i as int)).push(xs[i as int]) =~= all + xs.subrange(0, i + 1));
        i = i + 1;
    }
    assert(xs.subrange(0, i as int) =~= xs);
}

/// Everything the task links to, each link once.
pub fn task_links(t: &Task) -> (r: Vec<String>)
    ensures
        views(r@) == task_links_spec(*t),
{
    let mut r: Vec<String> = Vec::new();
    let ghost mut all: Seq<Seq<char>> = Seq::empty();
    assert(views(r@) =~= distinct(all));
    match uda_str(t, "jiraurl") {
        Some(u) => {
            add_once(&mut r, u.clone(), Ghost(all));
            proof {
                all = all.push(u@);
            }
        },
        None => {},
    }
    assert(all =~= text_uda(*t, "jiraurl"@));
    match uda_str(t, "githuburl") {
        Some(u) => {
            add_once(&mut r, u.clone(), Ghost(all));
            proof {
                all = all.push(u@);
            }
        },
        None => {},
    }
    assert(all =~= text_uda(*t, "jiraurl"@) + text_uda(*t, "githuburl"@));
    let ghost head = all;
    let mut i: usize = 0;
    assert(t.annotations@.subrange(0, 0) =~= Seq::<Annotation>::empty());
    assert(head + annotation_links(t.annotations@.subrange(0, 0)) =~= head);
    while i < t.annotations.len()
        invariant
            i <= t.annotations@.len(),
            views(r@) == distinct(head + annotation_links(t.annotations@.subrange(0, i as int))),
        decreases t.annotations@.len() - i,
    {
        let found = links_in(t.annotations[i].description.as_str());
        let ghost before = head + annotation_links(t.annotations@.subrange(0, i as int));
        add_all(&mut r, found, Ghost(before));
        assert(t.annotations@.subrange(0, i + 1).drop_last() =~= t.annotations@.subrange(0, i as int));
        assert(before + found_links(t.annotations@[i as int].description@) =~= head + annotation_links(
            t.annotations@.subrange(0, i + 1),
        ));
        i = i + 1;
    }
    assert(t.annotations@.subrange(0, i as int) =~= t.annotations@);
    r
}

} // verus!
