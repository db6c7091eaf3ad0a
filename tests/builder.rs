use durandal::store::{export_args, projects, projects_excluding};
use durandal::workflow::{Creation, Reply, Request};
use durandal::task::{ActionCategory, Brainpower, Estimate, Project, Task, TaskBuilder, TaskStatus};

fn task(id: Option<u64>, desc: &str, tags: &[&str]) -> Task {
    Task {
        id,
        uuid: format!("uuid-{}", desc),
        description: desc.to_string(),
        project: None,
        tags: tags.iter().map(|t| t.to_string()).collect(),
        annotations: Vec::new(),
        status: TaskStatus::Pending,
        wait: None,
        due: None,
        udas: Vec::new(),
    }
}

#[test]
fn builder_round_trip_fields() {
    let mut b = TaskBuilder::new();
    b.with_description("Write spec")
        .with_contexts(&[ActionCategory::Computer])
        .with_estimate(Estimate::Medium)
        .with_brainpower(Brainpower::High);
    assert_eq!(
        b.args(),
        vec!["add", "brain:H", "est:360", "+@computer", "Write spec"]
    );
    // the store confirms the creation, and the task is read back by its id
    let creation = Creation::new(&b);
    let creation = creation.step(Reply::Output("Created task 17.\n".to_string())).unwrap();
    match creation.request() {
        Some(Request::Export { args }) => {
            assert_eq!(args, vec!["rc.json.array=on", "rc.confirmation=off", "17", "export"])
        }
        other => panic!("unexpected {:?}", other),
    }
    let stored = task(Some(17), "Write spec", &["@computer"]);
    match creation.step(Reply::Tasks(vec![stored])).unwrap() {
        Creation::Created { task } => {
            assert_eq!(task.description, "Write spec");
            assert_eq!(task.project, None);
            assert_eq!(task.tags, vec!["@computer"]);
        }
        other => panic!("unexpected {:?}", other),
    }
}

#[test]
fn builder_args_with_everything() {
    let mut b = TaskBuilder::new();
    b.with_description("Call mom")
        .with_project(Project::new("family"))
        .with_contexts(&[ActionCategory::Phone, ActionCategory::ReadAndReview])
        .with_tags(&["in", "x"])
        .with_tag("y")
        .with_wait("+1d")
        .with_due("friday")
        .with_estimate(Estimate::Unknown)
        .with_brainpower(Brainpower::Low);
    assert_eq!(
        b.args(),
        vec![
            "add", "brain:L", "est:9999", "proj:family", "+@phone", "+@rnr", "+in", "+x", "+y", "wait:+1d",
            "due:friday", "Call mom"
        ]
    );
}

#[test]
fn builder_defaults() {
    let b = TaskBuilder::new();
    assert_eq!(b.args(), vec!["add", "brain:M", "est:30", ""]);
}

#[test]
fn enum_lists() {
    assert_eq!(ActionCategory::list().len(), 8);
    assert_eq!(ActionCategory::Work.tag(), "@work");
    assert_eq!(ActionCategory::ReadAndReview.label(), "ReadAndReview");
    assert_eq!(Brainpower::list(), vec![Brainpower::Low, Brainpower::Medium, Brainpower::High]);
    assert_eq!(Brainpower::High.uda(), "H");
    assert_eq!(Estimate::list().iter().map(|e| e.minutes()).collect::<Vec<_>>(), vec![30, 360, 1440, 2880, 9999]);
    assert_eq!(Estimate::Large.label(), "One day");
}

#[test]
fn task_commands() {
    let t = task(Some(12), "x", &["next"]);
    assert_eq!(t.finish().unwrap(), vec!["rc.confirmation=off", "12", "done"]);
    assert_eq!(t.delete().unwrap(), vec!["rc.confirmation=off", "12", "delete"]);
    assert_eq!(t.annotate("hi there").unwrap(), vec!["rc.confirmation=off", "12", "annotate", "hi there"]);
    assert_eq!(t.begin().unwrap(), vec!["rc.confirmation=off", "12", "start"]);
    assert_eq!(t.stop().unwrap(), vec!["rc.confirmation=off", "12", "stop"]);
    assert_eq!(t.tickle("+2d").unwrap(), vec!["rc.confirmation=off", "12", "modify", "+tickle", "wait:+2d"]);
    assert_eq!(
        t.someday().unwrap(),
        vec!["rc.confirmation=off", "12", "modify", "-in", "-@home", "-@work", "proj:maybe"]
    );
    assert_eq!(
        t.reference().unwrap(),
        vec!["rc.confirmation=off", "12", "modify", "-in", "-@home", "-@work", "+reference"]
    );
    assert_eq!(t.add_tags(&["a", "b"]).unwrap(), vec!["rc.confirmation=off", "12", "modify", "+a", "+b"]);
    assert_eq!(t.remove_tags(&["next"]).unwrap(), vec!["rc.confirmation=off", "12", "modify", "-next"]);
    let other = task(Some(3), "y", &[]);
    assert_eq!(
        t.set_resumable(&other).unwrap(),
        vec!["rc.confirmation=off", "12", "annotate", "DTR:uuid-y"]
    );
}

#[test]
fn task_without_id_cannot_be_addressed() {
    let t = task(None, "gone", &[]);
    assert_eq!(t.finish(), Err(durandal::error::WorkflowError::MissingId));
}

#[test]
fn tags_and_next() {
    let mut t = task(Some(1), "x", &["next", "in"]);
    assert!(t.has_tag("in"));
    assert!(!t.has_tag("ne"));
    assert!(t.is_next());
    t.status = TaskStatus::Completed;
    assert!(!t.is_next());
}

#[test]
fn follow_up_builder() {
    let b = Task::follow_up("ping Bob", "+2d");
    assert_eq!(
        b.args(),
        vec!["add", "brain:M", "est:30", "+@work", "+@home", "+in", "+tickle", "wait:+2d", "ping Bob"]
    );
}

#[test]
fn export_arguments_split_like_a_shell() {
    assert_eq!(
        export_args("proj:home status:pending"),
        vec!["rc.json.array=on", "rc.confirmation=off", "proj:home", "status:pending", "export"]
    );
    assert_eq!(
        export_args("status:pending proj:hum.bw 'githubuser!~mattcl' \"(bw)PR\""),
        vec![
            "rc.json.array=on", "rc.confirmation=off", "status:pending", "proj:hum.bw", "githubuser!~mattcl",
            "(bw)PR", "export"
        ]
    );
    assert_eq!(export_args("'unbalanced"), vec!["rc.json.array=on", "rc.confirmation=off", "export"]);
}

#[test]
fn project_filter() {
    assert_eq!(Project::new("home").tasks_filter(), "proj:home status:pending");
}

#[test]
fn project_listing() {
    let ps = projects("home\nwork\n");
    assert_eq!(ps.iter().map(|p| p.0.clone()).collect::<Vec<_>>(), vec!["home", "work", ""]);
    let ps = projects_excluding("home\nmaybe\nwork", &vec!["maybe".to_string()]);
    assert_eq!(ps.iter().map(|p| p.0.clone()).collect::<Vec<_>>(), vec!["home", "work"]);
    assert_eq!(projects("").len(), 1);
}
