//! The values shown for a task's fields in tables and detail views.
use vstd::prelude::*;

use crate::task::{valid_date, Annotation, Date, Task, UdaValue};
use crate::text::{decimal, join2, to_decimal};

verus! {

/// The English abbreviation (`Mon` .. `Sun`) of the weekday of a day, given
/// by year, month and day.
pub uninterp spec fn weekday_name(year: u32, month: u32, day: u32) -> Seq<char>;

/// Relies on chrono: `NaiveDate::weekday` of that year, month and day, shown
/// as its three-letter English name.
#[verifier::external_body]
fn weekday(year: u32, month: u32, day: u32) -> (r: String)
    requires
        valid_date(year as int, month as int, day as int),
    ensures
        r@ == weekday_name(year, month, day),
{
    match chrono::NaiveDate::from_ymd_opt(year as i32, month, day) {
        Some(date) => chrono::Datelike::weekday(&date).to_string(),
        None => String::new(),
    }
}

/// A day as `YYYY-MM-DD Www`.
pub open spec fn dated(d: Date) -> Seq<char> {
    d.iso_spec() + " "@ + weekday_name(d.year_spec(), d.month_spec(), d.day_spec())
}

fn dated_text(d: &Date) -> (r: String)
    ensures
        r@ == dated(*d),
{
    let mut r = d.iso();
    r.append(" ");
    let w = weekday(d.year(), d.month(), d.day());
    r.append(w.as_str());
    r
}

/// An annotation as `YYYY-MM-DD text`.
pub open spec fn annotation_line(a: Annotation) -> Seq<char> {
    a.entry.iso_spec() + " "@ + a.description@
}

/// The lines joined with newlines.
pub open spec fn joined(ls: Seq<Seq<char>>) -> Seq<char>
    decreases ls.len(),
{
    if ls.len() == 0 {
        Seq::empty()
    } else if ls.len() == 1 {
        ls[0]
    } else {
        joined(ls.drop_last()) + "\n"@ + ls.last()
    }
}

/// A task's annotations, one per line.
pub open spec fn annotations_text(t: Task) -> Seq<char> {
    joined(t.annotations@.map_values(|a: Annotation| annotation_line(a)))
}

/// A task's description followed by its annotations, each on an indented line.
pub open spec fn annotated(desc: Seq<char>, anns: Seq<Annotation>) -> Seq<char>
    decreases anns.len(),
{
    if anns.len() == 0 {
        desc
    } else {
        annotated(desc, anns.drop_last()) + "\n    "@ + annotation_line(anns.last())
    }
}

fn line_of(a: &Annotation) -> (r: String)
    ensures
        r@ == annotation_line(*a),
{
    let mut r = a.entry.iso();
    r.append(" ");
    r.append(a.description.as_str());
    r
}

pub(crate) fn annotations_of(t: &Task) -> (r: String)
    ensures
        r@ == annotations_text(*t),
{
    let ghost ls = t.annotations@.map_values(|a: Annotation| annotation_line(a));
    let mut r = String::new();
    let mut i: usize = 0;
    while i < t.annotations.len()
        invariant
            i <= t.annotations@.len(),
            ls == t.annotations@.map_values(|a: Annotation| annotation_line(a)),
            r@ == joined(ls.subrange(0, i as int)),
        decreases t.annotations@.len() - i,
    {
        let ghost before = r@;
        assert(ls.subrange(0, i + 1).drop_last() =~= ls.subrange(0, i as int));
        if i > 0 {
            r.append("\n");
        }
        let l = line_of(&t.annotations[i]);
        r.append(l.as_str());
        proof {
            if i == 0 {
                assert(ls.subrange(0, 0) =~= Seq::<Seq<char>>::empty());
                assert(r@ =~= ls.subrange(0, 1)[0]);
            } else {
                assert(r@ =~= joined(ls.subrange(0, i as int)) + "\n"@ + ls.subrange(0, i + 1).last());
            }
        }
        i = i + 1;
    }
    assert(ls.subrange(0, i as int) =~= ls);
    r
}

impl Task {
    pub fn annotated_description(&self) -> (r: String)
        ensures
            r@ == annotated(self.description@, self.annotations@),
    {
        let mut r = self.description.clone();
        let mut i: usize = 0;
        assert(self.annotations@.subrange(0, 0) =~= Seq::<Annotation>::empty());
        while i < self.annotations.len()
            invariant
                i <= self.annotations@.len(),
                r@ == annotated(self.description@, self.annotations@.subrange(0, i as int)),
            decreases self.annotations@.len() - i,
        {
            assert(self.annotations@.subrange(0, i + 1).drop_last() =~= self.annotations@.subrange(0, i as int));
            r.append("\n    ");
            let l = line_of(&self.annotations[i]);
            r.append(l.as_str());
            i = i + 1;
        }
        assert(self.annotations@.subrange(0, i as int) =~= self.annotations@);
        r
    }
}

/// The value of the first attribute with that name, if any.
pub open spec fn lookup(udas: Seq<(String, UdaValue)>, key: Seq<char>) -> Option<UdaValue>
    decreases udas.len(),
{
    if udas.len() == 0 {
        None
    } else if udas[0].0@ == key {
        Some(udas[0].1)
    } else {
        lookup(udas.drop_first(), key)
    }
}

/// The text of a string attribute, or nothing when it is absent or not text.
pub open spec fn uda_text(t: Task, key: Seq<char>) -> Seq<char> {
    match lookup(t.udas@, key) {
        Some(UdaValue::Str(s)) => s@,
        _ => Seq::empty(),
    }
}

/// A string attribute of a task, or `None` when it is absent or not text.
pub fn uda_str<'a>(t: &'a Task, key: &str) -> (r: Option<&'a String>)
    ensures
        match lookup(t.udas@, key@) {
            Some(UdaValue::Str(s)) => r == Some(&s),
            _ => r is None,
        },
{
    let wanted = String::from_str(key);
    let mut i: usize = 0;
    assert(t.udas@.subrange(0, t.udas@.len() as int) =~= t.udas@);
    while i < t.udas.len()
        invariant
            i <= t.udas@.len(),
            wanted@ == key@,
            lookup(t.udas@, key@) == lookup(t.udas@.subrange(i as int, t.udas@.len() as int), key@),
        decreases t.udas@.len() - i,
    {
        let ghost rest = t.udas@.subrange(i as int, t.udas@.len() as int);
        assert(rest.drop_first() =~= t.udas@.subrange(i + 1, t.udas@.len() as int));
        if t.udas[i].0 == wanted {
            return match &t.udas[i].1 {
                UdaValue::Str(s) => Some(s),
                _ => None,
            };
        }
        i = i + 1;
    }
    None
}

/// The GitHub attributes a pull-request task carries.
#[derive(Clone, Copy, Debug, PartialEq, Eq, Structural)]
pub enum UDA {
    GithubTitle,
    GithubBody,
    GithubUser,
    GithubUrl,
    GithubState,
}

impl UDA {
    pub open spec fn key_spec(self) -> Seq<char> {
        match self {
            UDA::GithubTitle => "githubtitle"@,
            UDA::GithubBody => "githubbody"@,
            UDA::GithubUser => "githubuser"@,
            UDA::GithubUrl => "githuburl"@,
            UDA::GithubState => "githubstate"@,
        }
    }

    pub fn uda_key(&self) -> (r: &'static str)
        ensures
            r@ == self.key_spec(),
    {
        match self {
            UDA::GithubTitle => "githubtitle",
            UDA::GithubBody => "githubbody",
            UDA::GithubUser => "githubuser",
            UDA::GithubUrl => "githuburl",
            UDA::GithubState => "githubstate",
        }
    }

    pub open spec fn name_spec(self) -> Seq<char> {
        match self {
            UDA::GithubTitle => "Title"@,
            UDA::GithubBody => "Body"@,
            UDA::GithubUser => "User"@,
            UDA::GithubUrl => "URL"@,
            UDA::GithubState => "State"@,
        }
    }

    /// The label of the attribute in a detail view.
    pub fn name(&self) -> (r: &'static str)
        ensures
            r@ == self.name_spec(),
    {
        match self {
            UDA::GithubTitle => "Title",
            UDA::GithubBody => "Body",
            UDA::GithubUser => "User",
            UDA::GithubUrl => "URL",
            UDA::GithubState => "State",
        }
    }

    /// The attribute's text, or empty when the task has none.
    pub fn get_raw_value(&self, task: &Task) -> (r: String)
        ensures
            r@ == uda_text(*task, self.key_spec()),
    {
        match uda_str(task, self.uda_key()) {
            Some(s) => s.clone(),
            None => String::new(),
        }
    }
}

/// The columns of a task table.
#[derive(Clone, Copy, Debug, PartialEq, Eq, Structural)]
pub enum Field {
    Description,
    AnnotatedDescription,
    Annotations,
    Due,
    ID,
    Next,
    Project,
    Waiting,
}

impl Field {
    pub open spec fn name_spec(self) -> Seq<char> {
        match self {
            Field::Description => "Description"@,
            Field::AnnotatedDescription => "Description"@,
            Field::Annotations => "Annotations"@,
            Field::Due => "Due"@,
            Field::ID => "ID"@,
            Field::Next => "Next label"@,
            Field::Project => "Project"@,
            Field::Waiting => "Waiting"@,
        }
    }

    /// The column's label.
    pub fn name(&self) -> (r: &'static str)
        ensures
            r@ == self.name_spec(),
    {
        match self {
            Field::Description => "Description",
            Field::AnnotatedDescription => "Description",
            Field::Annotations => "Annotations",
            Field::Due => "Due",
            Field::ID => "ID",
            Field::Next => "Next label",
            Field::Project => "Project",
            Field::Waiting => "Waiting",
        }
    }

    /// What the column shows for a task, on the given day.
    pub open spec fn value_spec(self, t: Task, today: Date) -> Seq<char> {
        match self {
            Field::Description => t.description@,
            Field::AnnotatedDescription => annotated(t.description@, t.annotations@),
            Field::Annotations => annotations_text(t),
            Field::Due => match t.due {
                Some(d) => if d == today {
                    "Today"@
                } else if d.before(today) {
                    "Overdue ("@ + d.iso_spec() + ")"@
                } else {
                    dated(d)
                },
                None => "None"@,
            },
            Field::ID => decimal(
                match t.id {
                    Some(id) => id as nat,
                    None => 0,
                },
            ),
            Field::Next => if t.is_next_spec() {
                "N"@
            } else {
                Seq::empty()
            },
            Field::Project => match t.project {
                Some(p) => p@,
                None => Seq::empty(),
            },
            Field::Waiting => match t.wait {
                Some(d) => dated(d),
                None => "Ready"@,
            },
        }
    }

    pub fn get_value(&self, task: &Task, today: &Date) -> (r: String)
        ensures
            r@ == self.value_spec(*task, *today),
    {
        match self {
            Field::Description => task.description.clone(),
            Field::AnnotatedDescription => task.annotated_description(),
            Field::Annotations => annotations_of(task),
            Field::Due => match &task.due {
                Some(d) => if *d == *today {
                    String::from_str("Today")
                } else if d.precedes(today) {
                    let mut r = join2("Overdue (", d.iso().as_str());
                    r.append(")");
                    r
                } else {
                    dated_text(d)
                },
                None => String::from_str("None"),
            },
            Field::ID => to_decimal(
                match task.id {
                    Some(id) => id,
                    None => 0,
                },
            ),
            Field::Next => if task.is_next() {
                String::from_str("N")
            } else {
                String::new()
            },
            Field::Project => match &task.project {
                Some(p) => p.clone(),
                None => String::new(),
            },
            Field::Waiting => match &task.wait {
                Some(d) => dated_text(d),
                None => String::from_str("Ready"),
            },
        }
    }
}

} // verus!
