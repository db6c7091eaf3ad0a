//! Tasks as the store holds them, and the builder for new ones.
use vstd::prelude::*;

use crate::error::WorkflowError;
use crate::text::{decimal, join2, owned, padded_decimal, to_decimal, views, zero_padded};

verus! {

/// The situational labels a task can carry; each one is a store tag.
#[derive(Clone, Copy, Debug, PartialEq, Eq, Structural)]
pub enum ActionCategory {
    Agenda,
    Anywhere,
    Computer,
    Errands,
    Home,
    Phone,
    ReadAndReview,
    Work,
}

impl ActionCategory {
    /// The store tag of a context.
    pub open spec fn tag_spec(self) -> Seq<char> {
        match self {
            ActionCategory::Agenda => "@agenda"@,
            ActionCategory::Anywhere => "@anywhere"@,
            ActionCategory::Computer => "@computer"@,
            ActionCategory::Errands => "@errands"@,
            ActionCategory::Home => "@home"@,
            ActionCategory::Phone => "@phone"@,
            ActionCategory::ReadAndReview => "@rnr"@,
            ActionCategory::Work => "@work"@,
        }
    }

    /// Every context, in the order the prompt offers them.
    pub open spec fn all() -> Seq<ActionCategory> {
        seq![
            ActionCategory::Agenda,
            ActionCategory::Anywhere,
            ActionCategory::Computer,
            ActionCategory::Errands,
            ActionCategory::Home,
            ActionCategory::Phone,
            ActionCategory::ReadAndReview,
            ActionCategory::Work,
        ]
    }

    pub fn list() -> (r: Vec<ActionCategory>)
        ensures
            r@ == Self::all(),
    {
        let r = vec![
            ActionCategory::Agenda,
            ActionCategory::Anywhere,
            ActionCategory::Computer,
            ActionCategory::Errands,
            ActionCategory::Home,
            ActionCategory::Phone,
            ActionCategory::ReadAndReview,
            ActionCategory::Work,
        ];
        assert(r@ =~= Self::all());
        r
    }

    pub fn tag(&self) -> (r: &'static str)
        ensures
            r@ == self.tag_spec(),
    {
        match self {
            ActionCategory::Agenda => "@agenda",
            ActionCategory::Anywhere => "@anywhere",
            ActionCategory::Computer => "@computer",
            ActionCategory::Errands => "@errands",
            ActionCategory::Home => "@home",
            ActionCategory::Phone => "@phone",
            ActionCategory::ReadAndReview => "@rnr",
            ActionCategory::Work => "@work",
        }
    }

    /// The name shown in prompts.
    pub open spec fn label_spec(self) -> Seq<char> {
        match self {
            ActionCategory::Agenda => "Agenda"@,
            ActionCategory::Anywhere => "Anywhere"@,
            ActionCategory::Computer => "Computer"@,
            ActionCategory::Errands => "Errands"@,
            ActionCategory::Home => "Home"@,
            ActionCategory::Phone => "Phone"@,
            ActionCategory::ReadAndReview => "ReadAndReview"@,
            ActionCategory::Work => "Work"@,
        }
    }

    pub fn label(&self) -> (r: &'static str)
        ensures
            r@ == self.label_spec(),
    {
        match self {
            ActionCategory::Agenda => "Agenda",
            ActionCategory::Anywhere => "Anywhere",
            ActionCategory::Computer => "Computer",
            ActionCategory::Errands => "Errands",
            ActionCategory::Home => "Home",
            ActionCategory::Phone => "Phone",
            ActionCategory::ReadAndReview => "ReadAndReview",
            ActionCategory::Work => "Work",
        }
    }
}

/// How much concentration a task asks for.
#[derive(Clone, Copy, Debug, PartialEq, Eq, Structural)]
pub enum Brainpower {
    Low,
    Medium,
    High,
}

impl Brainpower {
    pub open spec fn all() -> Seq<Brainpower> {
        seq![Brainpower::Low, Brainpower::Medium, Brainpower::High]
    }

    pub fn list() -> (r: Vec<Brainpower>)
        ensures
            r@ == Self::all(),
    {
        let r = vec![Brainpower::Low, Brainpower::Medium, Brainpower::High];
        assert(r@ =~= Self::all());
        r
    }

    /// The value of the store's `brain` attribute.
    pub open spec fn uda_spec(self) -> Seq<char> {
        match self {
            Brainpower::Low => "L"@,
            Brainpower::Medium => "M"@,
            Brainpower::High => "H"@,
        }
    }

    pub fn uda(&self) -> (r: &'static str)
        ensures
            r@ == self.uda_spec(),
    {
        match self {
            Brainpower::Low => "L",
            Brainpower::Medium => "M",
            Brainpower::High => "H",
        }
    }

    pub open spec fn label_spec(self) -> Seq<char> {
        match self {
            Brainpower::Low => "Low"@,
            Brainpower::Medium => "Medium"@,
            Brainpower::High => "High"@,
        }
    }

    /// The name shown in prompts.
    pub fn label(&self) -> (r: &'static str)
        ensures
            r@ == self.label_spec(),
    {
        match self {
            Brainpower::Low => "Low",
            Brainpower::Medium => "Medium",
            Brainpower::High => "High",
        }
    }
}

/// A rough effort estimate, stored in minutes.
#[derive(Clone, Copy, Debug, PartialEq, Eq, Structural)]
pub enum Estimate {
    Small,
    Medium,
    Large,
    XLarge,
    Unknown,
}

impl Estimate {
    pub open spec fn all() -> Seq<Estimate> {
        seq![Estimate::Small, Estimate::Medium, Estimate::Large, Estimate::XLarge, Estimate::Unknown]
    }

    pub fn list() -> (r: Vec<Estimate>)
        ensures
            r@ == Self::all(),
    {
        let r = vec![
            Estimate::Small,
            Estimate::Medium,
            Estimate::Large,
            Estimate::XLarge,
            Estimate::Unknown,
        ];
        assert(r@ =~= Self::all());
        r
    }

    pub open spec fn minutes_spec(self) -> u64 {
        match self {
            Estimate::Small => 30,
            Estimate::Medium => 360,
            Estimate::Large => 1440,
            Estimate::XLarge => 2880,
            Estimate::Unknown => 9999,
        }
    }

    /// The estimate in minutes, as the store's `est` attribute holds it.
    pub fn minutes(&self) -> (r: u64)
        ensures
            r == self.minutes_spec(),
    {
        match self {
            Estimate::Small => 30,
            Estimate::Medium => 360,
            Estimate::Large => 1440,
            Estimate::XLarge => 2880,
            Estimate::Unknown => 9999,
        }
    }

    pub open spec fn label_spec(self) -> Seq<char> {
        match self {
            Estimate::Small => "Thirty minutes"@,
            Estimate::Medium => "Six hours"@,
            Estimate::Large => "One day"@,
            Estimate::XLarge => "Two days"@,
            Estimate::Unknown => "More than two days (not well understood)"@,
        }
    }

    /// The name shown in prompts.
    pub fn label(&self) -> (r: &'static str)
        ensures
            r@ == self.label_spec(),
    {
        match self {
            Estimate::Small => "Thirty minutes",
            Estimate::Medium => "Six hours",
            Estimate::Large => "One day",
            Estimate::XLarge => "Two days",
            Estimate::Unknown => "More than two days (not well understood)",
        }
    }
}


/// A named grouping of tasks; the empty name stands for "no project".
#[derive(Clone, Debug)]
pub struct Project(pub String);

impl Project {
    pub open spec fn name(self) -> Seq<char> {
        self.0@
    }

    pub fn new(name: &str) -> (r: Project)
        ensures
            r.name() == name@,
    {
        Project(String::from_str(name))
    }

    /// A copy of this project.
    pub fn duplicate(&self) -> (r: Project)
        ensures
            r == *self,
    {
        Project(self.0.clone())
    }

    pub fn as_str(&self) -> (r: &str)
        ensures
            r@ == self.name(),
    {
        self.0.as_str()
    }
}

/// What a builder holds, as plain values.
pub struct BuilderView {
    pub description: Seq<char>,
    pub contexts: Seq<ActionCategory>,
    pub tags: Seq<Seq<char>>,
    pub project: Option<Seq<char>>,
    pub wait: Option<Seq<char>>,
    pub due: Option<Seq<char>>,
    pub estimate: Estimate,
    pub brainpower: Brainpower,
}

/// Collects the fields of a task that does not exist yet.
#[derive(Clone, Debug)]
pub struct TaskBuilder {
    description: String,
    context: Vec<ActionCategory>,
    tags: Vec<String>,
    project: Option<Project>,
    wait: Option<String>,
    due: Option<String>,
    estimate: Estimate,
    brainpower: Brainpower,
}

pub open spec fn opt_view(o: Option<String>) -> Option<Seq<char>> {
    match o {
        Some(s) => Some(s@),
        None => None,
    }
}

impl View for TaskBuilder {
    type V = BuilderView;

    closed spec fn view(&self) -> BuilderView {
        BuilderView {
            description: self.description@,
            contexts: self.context@,
            tags: views(self.tags@),
            project: match self.project {
                Some(p) => Some(p.name()),
                None => None,
            },
            wait: opt_view(self.wait),
            due: opt_view(self.due),
            estimate: self.estimate,
            brainpower: self.brainpower,
        }
    }
}

impl BuilderView {
    /// A builder is ready to become a task once it has a description and a context.
    pub open spec fn is_complete(self) -> bool {
        self.description.len() > 0 && self.contexts.len() > 0
    }
}

/// `+tag` for each tag, as the store's command line adds tags.
pub open spec fn plus_tags(tags: Seq<Seq<char>>) -> Seq<Seq<char>> {
    tags.map_values(|t: Seq<char>| "+"@ + t)
}

pub open spec fn context_tags(cs: Seq<ActionCategory>) -> Seq<Seq<char>> {
    cs.map_values(|c: ActionCategory| c.tag_spec())
}

/// An optional `key:value` argument.
pub open spec fn keyed(key: Seq<char>, v: Option<Seq<char>>) -> Seq<Seq<char>> {
    match v {
        Some(x) => seq![key + x],
        None => seq![],
    }
}

/// The arguments of the store command that creates the task a builder describes.
pub open spec fn add_args(b: BuilderView) -> Seq<Seq<char>> {
    seq!["add"@, "brain:"@ + b.brainpower.uda_spec(), "est:"@ + decimal(b.estimate.minutes_spec() as nat)]
        + keyed("proj:"@, b.project)
        + plus_tags(context_tags(b.contexts))
        + plus_tags(b.tags)
        + keyed("wait:"@, b.wait)
        + keyed("due:"@, b.due)
        + seq![b.description]
}

/// Appends `key:value` when a value is present.
fn push_keyed(args: &mut Vec<String>, key: &str, v: &Option<String>)
    ensures
        views(final(args)@) == views(old(args)@) + keyed(key@, opt_view(*v)),
{
    match v {
        Some(x) => {
            args.push(join2(key, x.as_str()));
        },
        None => {},
    }
    assert(views(final(args)@) =~= views(old(args)@) + keyed(key@, opt_view(*v)));
}

impl TaskBuilder {
    pub open spec fn new_spec() -> BuilderView {
        BuilderView {
            description: Seq::empty(),
            contexts: Seq::empty(),
            tags: Seq::empty(),
            project: None,
            wait: None,
            due: None,
            estimate: Estimate::Small,
            brainpower: Brainpower::Medium,
        }
    }

    /// An empty builder: no description, contexts or tags, a small estimate
    /// and medium brainpower.
    pub fn new() -> (r: TaskBuilder)
        ensures
            r@ == Self::new_spec(),
    {
        let r = TaskBuilder {
            description: String::new(),
            context: Vec::new(),
            tags: Vec::new(),
            project: None,
            wait: None,
            due: None,
            estimate: Estimate::Small,
            brainpower: Brainpower::Medium,
        };
        assert(r@.tags =~= Seq::<Seq<char>>::empty());
        assert(r@ =~= Self::new_spec());
        r
    }

    pub fn with_description(&mut self, desc: &str) -> (r: &mut Self)
        ensures
            r@ == (BuilderView { description: desc@, ..old(self)@ }),
            final(self)@ == final(r)@,
    {
        self.description = String::from_str(desc);
        self
    }

    /// Adds contexts after those already present.
    pub fn with_contexts(&mut self, contexts: &[ActionCategory]) -> (r: &mut Self)
        ensures
            r@ == (BuilderView { contexts: old(self)@.contexts + contexts@, ..old(self)@ }),
            final(self)@ == final(r)@,
    {
        let mut i: usize = 0;
        while i < contexts.len()
            invariant
                i <= contexts@.len(),
                self@ == (BuilderView { contexts: old(self)@.contexts + contexts@.subrange(0, i as int), ..old(self)@ }),
            decreases contexts@.len() - i,
        {
            self.context.push(contexts[i]);
            i = i + 1;
            assert(self@.contexts =~= old(self)@.contexts + contexts@.subrange(0, i as int));
        }
        assert(contexts@.subrange(0, i as int) =~= contexts@);
        self
    }

    pub fn with_project(&mut self, project: Project) -> (r: &mut Self)
        ensures
            r@ == (BuilderView { project: Some(project.name()), ..old(self)@ }),
            final(self)@ == final(r)@,
    {
        self.project = Some(project);
        self
    }

    /// Adds one free tag after those already present.
    pub fn with_tag(&mut self, tag: &str) -> (r: &mut Self)
        ensures
            r@ == (BuilderView { tags: old(self)@.tags.push(tag@), ..old(self)@ }),
            final(self)@ == final(r)@,
    {
        self.tags.push(String::from_str(tag));
        assert(views(self.tags@) =~= old(self)@.tags.push(tag@));
        self
    }

    /// Adds free tags after those already present, in order.
    pub fn with_tags(&mut self, tags: &[&str]) -> (r: &mut Self)
        ensures
            r@ == (BuilderView {
                tags: old(self)@.tags + tags@.map_values(|t: &str| t@),
                ..old(self)@
            }),
            final(self)@ == final(r)@,
    {
        let mut i: usize = 0;
        while i < tags.len()
            invariant
                i <= tags@.len(),
                self@ == (BuilderView {
                    tags: old(self)@.tags + tags@.subrange(0, i as int).map_values(|t: &str| t@),
                    ..old(self)@
                }),
            decreases tags@.len() - i,
        {
            self.with_tag(tags[i]);
            i = i + 1;
            assert(self@.tags =~= old(self)@.tags + tags@.subrange(0, i as int).map_values(|t: &str| t@));
        }
        assert(tags@.subrange(0, i as int) =~= tags@);
        self
    }

    pub fn with_wait(&mut self, wait: &str) -> (r: &mut Self)
        ensures
            r@ == (BuilderView { wait: Some(wait@), ..old(self)@ }),
            final(self)@ == final(r)@,
    {
        self.wait = Some(String::from_str(wait));
        self
    }

    pub fn with_due(&mut self, due: &str) -> (r: &mut Self)
        ensures
            r@ == (BuilderView { due: Some(due@), ..old(self)@ }),
            final(self)@ == final(r)@,
    {
        self.due = Some(String::from_str(due));
        self
    }

    pub fn with_estimate(&mut self, estimate: Estimate) -> (r: &mut Self)
        ensures
            r@ == (BuilderView { estimate, ..old(self)@ }),
            final(self)@ == final(r)@,
    {
        self.estimate = estimate;
        self
    }

    pub fn with_brainpower(&mut self, brainpower: Brainpower) -> (r: &mut Self)
        ensures
            r@ == (BuilderView { brainpower, ..old(self)@ }),
            final(self)@ == final(r)@,
    {
        self.brainpower = brainpower;
        self
    }

    /// The arguments of the store command that creates the task.
    pub fn args(&self) -> (r: Vec<String>)
        ensures
            views(r@) == add_args(self@),
    {
        let mut args: Vec<String> = Vec::new();
        args.push(String::from_str("add"));
        args.push(join2("brain:", self.brainpower.uda()));
        let est = to_decimal(self.estimate.minutes());
        args.push(join2("est:", est.as_str()));
        let ghost head = views(args@);
        assert(head =~= seq!["add"@, "brain:"@ + self@.brainpower.uda_spec(), "est:"@ + decimal(self@.estimate.minutes_spec() as nat)]);
        let proj: Option<String> = match &self.project {
            Some(p) => Some(p.0.clone()),
            None => None,
        };
        push_keyed(&mut args, "proj:", &proj);
        let ghost after_proj = views(args@);
        let mut i: usize = 0;
        while i < self.context.len()
            invariant
                i <= self.context@.len(),
                views(args@) == after_proj + plus_tags(context_tags(self.context@.subrange(0, i as int))),
            decreases self.context@.len() - i,
        {
            let ghost before = views(args@);
            let t = join2("+", self.context[i].tag());
            args.push(t);
            assert(views(args@) =~= before.push(t@));
            assert(self.context@.subrange(0, i + 1) =~= self.context@.subrange(0, i as int).push(self.context@[i as int]));
            i = i + 1;
            assert(views(args@) =~= after_proj + plus_tags(context_tags(self.context@.subrange(0, i as int))));
        }
        assert(self.context@.subrange(0, i as int) =~= self.context@);
        let ghost after_ctx = views(args@);
        let mut j: usize = 0;
        while j < self.tags.len()
            invariant
                j <= self.tags@.len(),
                views(args@) == after_ctx + plus_tags(views(self.tags@.subrange(0, j as int))),
            decreases self.tags@.len() - j,
        {
            let ghost before = views(args@);
            let t = join2("+", self.tags[j].as_str());
            args.push(t);
            assert(views(args@) =~= before.push(t@));
            assert(self.tags@.subrange(0, j + 1) =~= self.tags@.subrange(0, j as int).push(self.tags@[j as int]));
            j = j + 1;
            assert(views(args@) =~= after_ctx + plus_tags(views(self.tags@.subrange(0, j as int))));
        }
        assert(self.tags@.subrange(0, j as int) =~= self.tags@);
        push_keyed(&mut args, "wait:", &self.wait);
        push_keyed(&mut args, "due:", &self.due);
        args.push(self.description.clone());
        assert(views(args@) =~= add_args(self@));
        args
    }
}


/// Where a task is in its life.
#[derive(Clone, Copy, Debug, PartialEq, Eq, Structural)]
pub enum TaskStatus {
    Pending,
    Completed,
    Deleted,
    Waiting,
    Recurring,
}

/// A calendar day of the years 1 to 9999.
#[derive(Clone, Copy, Debug, PartialEq, Eq, Structural)]
pub struct Date {
    year: u32,
    month: u32,
    day: u32,
}

pub open spec fn is_leap(y: int) -> bool {
    (y % 4 == 0 && y % 100 != 0) || y % 400 == 0
}

pub open spec fn days_in_month(y: int, m: int) -> int {
    if m == 2 {
        if is_leap(y) { 29 } else { 28 }
    } else if m == 4 || m == 6 || m == 9 || m == 11 {
        30
    } else {
        31
    }
}

/// Whether year, month and day name a day of the proleptic Gregorian calendar.
pub open spec fn valid_date(y: int, m: int, d: int) -> bool {
    1 <= y <= 9999 && 1 <= m <= 12 && 1 <= d <= days_in_month(y, m)
}

impl Date {
    #[verifier::type_invariant]
    pub closed spec fn inv(self) -> bool {
        valid_date(self.year as int, self.month as int, self.day as int)
    }

    pub closed spec fn year_spec(self) -> u32 {
        self.year
    }

    pub closed spec fn month_spec(self) -> u32 {
        self.month
    }

    pub closed spec fn day_spec(self) -> u32 {
        self.day
    }

    /// The date of that year, month and day, if there is one.
    pub fn new(year: u32, month: u32, day: u32) -> (r: Option<Date>)
        ensures
            r is Some <==> valid_date(year as int, month as int, day as int),
            r is Some ==> r->Some_0.year_spec() == year && r->Some_0.month_spec() == month
                && r->Some_0.day_spec() == day,
    {
        if 1 <= year && year <= 9999 && 1 <= month && month <= 12 && 1 <= day {
            let leap = (year % 4 == 0 && year % 100 != 0) || year % 400 == 0;
            let last: u32 = if month == 2 {
                if leap { 29 } else { 28 }
            } else if month == 4 || month == 6 || month == 9 || month == 11 {
                30
            } else {
                31
            };
            if day <= last {
                return Some(Date { year, month, day });
            }
        }
        None
    }

    pub fn year(&self) -> (r: u32)
        ensures
            r == self.year_spec(),
            1 <= r <= 9999,
    {
        proof {
            use_type_invariant(self);
        }
        self.year
    }

    pub fn month(&self) -> (r: u32)
        ensures
            r == self.month_spec(),
            1 <= r <= 12,
    {
        proof {
            use_type_invariant(self);
        }
        self.month
    }

    pub fn day(&self) -> (r: u32)
        ensures
            r == self.day_spec(),
            valid_date(self.year_spec() as int, self.month_spec() as int, r as int),
    {
        proof {
            use_type_invariant(self);
        }
        self.day
    }

    /// Whether this day comes before `other`.
    pub open spec fn before(self, other: Date) -> bool {
        self.year_spec() < other.year_spec() || (self.year_spec() == other.year_spec() && (self.month_spec()
            < other.month_spec() || (self.month_spec() == other.month_spec() && self.day_spec()
            < other.day_spec())))
    }

    pub fn precedes(&self, other: &Date) -> (r: bool)
        ensures
            r == self.before(*other),
    {
        self.year < other.year || (self.year == other.year && (self.month < other.month || (self.month
            == other.month && self.day < other.day)))
    }

    /// The day as `YYYY-MM-DD`.
    pub open spec fn iso_spec(self) -> Seq<char> {
        zero_padded(decimal(self.year_spec() as nat), 4) + "-"@ + zero_padded(decimal(self.month_spec() as nat), 2)
            + "-"@ + zero_padded(decimal(self.day_spec() as nat), 2)
    }

    pub fn iso(&self) -> (r: String)
        ensures
            r@ == self.iso_spec(),
    {
        let mut r = padded_decimal(self.year as u64, 4);
        r.append("-");
        let m = padded_decimal(self.month as u64, 2);
        r.append(m.as_str());
        r.append("-");
        let d = padded_decimal(self.day as u64, 2);
        r.append(d.as_str());
        r
    }
}

/// A timestamped note on a task.
#[derive(Clone, Debug)]
pub struct Annotation {
    pub entry: Date,
    pub description: String,
}

/// The value of a user-defined attribute.
#[derive(Clone, Debug)]
pub enum UdaValue {
    Str(String),
    Number(u64),
    /// A value of another kind (a fraction), which nothing here reads.
    Other,
}

/// A copy of a task as the store reported it.
#[derive(Clone, Debug)]
pub struct Task {
    /// Present while the task is pending; the store reuses ids.
    pub id: Option<u64>,
    /// Stable for the task's whole life.
    pub uuid: String,
    pub description: String,
    pub project: Option<String>,
    pub tags: Vec<String>,
    /// In order of entry.
    pub annotations: Vec<Annotation>,
    pub status: TaskStatus,
    pub wait: Option<Date>,
    pub due: Option<Date>,
    /// User-defined attributes, by name.
    pub udas: Vec<(String, UdaValue)>,
}

/// The arguments of a store command on the task with this id.
pub open spec fn on_task(id: u64, args: Seq<Seq<char>>) -> Seq<Seq<char>> {
    seq!["rc.confirmation=off"@, decimal(id as nat)] + args
}

/// The command a task's own operation runs: addressed by its id, or refused
/// when it has none.
pub open spec fn task_command(t: Task, args: Seq<Seq<char>>) -> Result<Seq<Seq<char>>, WorkflowError> {
    match t.id {
        Some(id) => Ok(on_task(id, args)),
        None => Err(WorkflowError::MissingId),
    }
}

pub open spec fn result_views(r: Result<Vec<String>, WorkflowError>) -> Result<Seq<Seq<char>>, WorkflowError> {
    match r {
        Ok(v) => Ok(views(v@)),
        Err(e) => Err(e),
    }
}

pub open spec fn tickle_args(wait: Seq<char>) -> Seq<Seq<char>> {
    seq!["modify"@, "+tickle"@, "wait:"@ + wait]
}

pub open spec fn someday_args() -> Seq<Seq<char>> {
    seq!["modify"@, "-in"@, "-@home"@, "-@work"@, "proj:maybe"@]
}

pub open spec fn reference_args() -> Seq<Seq<char>> {
    seq!["modify"@, "-in"@, "-@home"@, "-@work"@, "+reference"@]
}

pub open spec fn strs(tags: Seq<&str>) -> Seq<Seq<char>> {
    tags.map_values(|t: &str| t@)
}

/// The annotation that records which task to resume.
pub open spec fn resume_note(uuid: Seq<char>) -> Seq<char> {
    "DTR:"@ + uuid
}

/// Prefixes each tag with `sign`.
fn signed_tags(sign: &str, tags: &[&str]) -> (r: Vec<String>)
    ensures
        views(r@) == strs(tags@).map_values(|t: Seq<char>| sign@ + t),
{
    let mut r: Vec<String> = Vec::new();
    let mut i: usize = 0;
    while i < tags.len()
        invariant
            i <= tags@.len(),
            views(r@) == strs(tags@.subrange(0, i as int)).map_values(|t: Seq<char>| sign@ + t),
        decreases tags@.len() - i,
    {
        let ghost before = views(r@);
        let t = join2(sign, tags[i]);
        r.push(t);
        assert(views(r@) =~= before.push(t@));
        assert(tags@.subrange(0, i + 1) =~= tags@.subrange(0, i as int).push(tags@[i as int]));
        i = i + 1;
        assert(views(r@) =~= strs(tags@.subrange(0, i as int)).map_values(|t: Seq<char>| sign@ + t));
    }
    assert(tags@.subrange(0, i as int) =~= tags@);
    r
}

impl Task {
    pub open spec fn tag_views(self) -> Seq<Seq<char>> {
        views(self.tags@)
    }

    /// The full arguments of a store command on the task.
    pub fn command(&self, args: Vec<String>) -> (r: Result<Vec<String>, WorkflowError>)
        ensures
            result_views(r) == task_command(*self, views(args@)),
    {
        match self.id {
            Some(id) => {
                let mut v: Vec<String> = Vec::new();
                v.push(owned("rc.confirmation=off"));
                v.push(to_decimal(id));
                let ghost head = views(v@);
                let mut args = args;
                let ghost rest = views(args@);
                v.append(&mut args);
                assert(views(v@) =~= head + rest);
                assert(views(v@) =~= on_task(id, rest));
                Ok(v)
            },
            None => Err(WorkflowError::MissingId),
        }
    }

    pub fn finish(&self) -> (r: Result<Vec<String>, WorkflowError>)
        ensures
            result_views(r) == task_command(*self, seq!["done"@]),
    {
        let args = vec![owned("done")];
        assert(views(args@) =~= seq!["done"@]);
        self.command(args)
    }

    pub fn delete(&self) -> (r: Result<Vec<String>, WorkflowError>)
        ensures
            result_views(r) == task_command(*self, seq!["delete"@]),
    {
        let args = vec![owned("delete")];
        assert(views(args@) =~= seq!["delete"@]);
        self.command(args)
    }

    pub fn annotate(&self, msg: &str) -> (r: Result<Vec<String>, WorkflowError>)
        ensures
            result_views(r) == task_command(*self, seq!["annotate"@, msg@]),
    {
        let args = vec![owned("annotate"), owned(msg)];
        assert(views(args@) =~= seq!["annotate"@, msg@]);
        self.command(args)
    }

    pub fn begin(&self) -> (r: Result<Vec<String>, WorkflowError>)
        ensures
            result_views(r) == task_command(*self, seq!["start"@]),
    {
        let args = vec![owned("start")];
        assert(views(args@) =~= seq!["start"@]);
        self.command(args)
    }

    pub fn stop(&self) -> (r: Result<Vec<String>, WorkflowError>)
        ensures
            result_views(r) == task_command(*self, seq!["stop"@]),
    {
        let args = vec![owned("stop")];
        assert(views(args@) =~= seq!["stop"@]);
        self.command(args)
    }

    /// Hides the task until `wait` and marks it for the tickler.
    pub fn tickle(&self, wait: &str) -> (r: Result<Vec<String>, WorkflowError>)
        ensures
            result_views(r) == task_command(*self, tickle_args(wait@)),
    {
        let args = vec![owned("modify"), owned("+tickle"), join2("wait:", wait)];
        assert(views(args@) =~= tickle_args(wait@));
        self.command(args)
    }

    /// Moves the task to the someday/maybe project, out of the inbox and the
    /// home and work contexts.
    pub fn someday(&self) -> (r: Result<Vec<String>, WorkflowError>)
        ensures
            result_views(r) == task_command(*self, someday_args()),
    {
        let args = vec![owned("modify"), owned("-in"), owned("-@home"), owned("-@work"), owned("proj:maybe")];
        assert(views(args@) =~= someday_args());
        self.command(args)
    }

    /// Files the task for reference, out of the inbox and the home and work
    /// contexts.
    pub fn reference(&self) -> (r: Result<Vec<String>, WorkflowError>)
        ensures
            result_views(r) == task_command(*self, reference_args()),
    {
        let args = vec![owned("modify"), owned("-in"), owned("-@home"), owned("-@work"), owned("+reference")];
        assert(views(args@) =~= reference_args());
        self.command(args)
    }

    pub fn add_tags(&self, tags: &[&str]) -> (r: Result<Vec<String>, WorkflowError>)
        ensures
            result_views(r) == task_command(*self, seq!["modify"@] + strs(tags@).map_values(|t: Seq<char>| "+"@ + t)),
    {
        let mut args = vec![owned("modify")];
        let ghost head = views(args@);
        let mut rest = signed_tags("+", tags);
        let ghost tail = views(rest@);
        args.append(&mut rest);
        assert(views(args@) =~= head + tail);
        assert(head =~= seq!["modify"@]);
        self.command(args)
    }

    pub fn remove_tags(&self, tags: &[&str]) -> (r: Result<Vec<String>, WorkflowError>)
        ensures
            result_views(r) == task_command(*self, seq!["modify"@] + strs(tags@).map_values(|t: Seq<char>| "-"@ + t)),
    {
        let mut args = vec![owned("modify")];
        let ghost head = views(args@);
        let mut rest = signed_tags("-", tags);
        let ghost tail = views(rest@);
        args.append(&mut rest);
        assert(views(args@) =~= head + tail);
        assert(head =~= seq!["modify"@]);
        self.command(args)
    }

    /// Records on the task that `task` is to be resumed once this one is done.
    pub fn set_resumable(&self, task: &Task) -> (r: Result<Vec<String>, WorkflowError>)
        ensures
            result_views(r) == task_command(*self, seq!["annotate"@, resume_note(task.uuid@)]),
    {
        let note = join2("DTR:", task.uuid.as_str());
        self.annotate(note.as_str())
    }

    pub fn has_tag(&self, tag: &str) -> (r: bool)
        ensures
            r == self.tag_views().contains(tag@),
    {
        let wanted = owned(tag);
        let mut i: usize = 0;
        while i < self.tags.len()
            invariant
                i <= self.tags@.len(),
                wanted@ == tag@,
                forall|j: int| 0 <= j < i ==> self.tags@[j]@ != tag@,
            decreases self.tags@.len() - i,
        {
            if self.tags[i] == wanted {
                assert(self.tag_views()[i as int] == tag@);
                return true;
            }
            i = i + 1;
        }
        assert(!self.tag_views().contains(tag@)) by {
            if self.tag_views().contains(tag@) {
                let j = choose|j: int| 0 <= j < self.tag_views().len() && self.tag_views()[j] == tag@;
                assert(self.tags@[j]@ == tag@);
            }
        }
        false
    }

    /// The builder of the follow-up to a delegated task: an inbox item hidden
    /// until `wait`, in the work and home contexts, described by `msg`.
    pub open spec fn follow_up_spec(msg: Seq<char>, wait: Seq<char>) -> BuilderView {
        BuilderView {
            description: msg,
            contexts: seq![ActionCategory::Work, ActionCategory::Home],
            tags: seq!["in"@, "tickle"@],
            wait: Some(wait),
            ..TaskBuilder::new_spec()
        }
    }

    pub fn follow_up(msg: &str, wait: &str) -> (r: TaskBuilder)
        ensures
            r@ == Self::follow_up_spec(msg@, wait@),
    {
        let mut b = TaskBuilder::new();
        let tags: [&str; 2] = ["in", "tickle"];
        let contexts: [ActionCategory; 2] = [ActionCategory::Work, ActionCategory::Home];
        proof {
            reveal_strlit("in");
            reveal_strlit("tickle");
        }
        b.with_tags(tags.as_slice()).with_wait(wait).with_contexts(contexts.as_slice()).with_description(msg);
        assert(strs(tags@) =~= seq!["in"@, "tickle"@]);
        assert(Seq::<Seq<char>>::empty() + strs(tags@) =~= seq!["in"@, "tickle"@]);
        assert(Seq::<ActionCategory>::empty() + contexts@ =~= seq![ActionCategory::Work, ActionCategory::Home]);
        b
    }

    /// A task is next when it carries the `next` tag and is not completed.
    pub open spec fn is_next_spec(self) -> bool {
        self.status != TaskStatus::Completed && self.tag_views().contains("next"@)
    }

    pub fn is_next(&self) -> (r: bool)
        ensures
            r == self.is_next_spec(),
    {
        if self.status == TaskStatus::Completed {
            return false;
        }
        self.has_tag("next")
    }
}

} // verus!
