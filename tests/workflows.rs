use durandal::error::WorkflowError;
use durandal::task::{Annotation, Date, Project, Task, TaskStatus, UdaValue};
use durandal::workflow::finish::Finishing;
use durandal::workflow::interrupt::Interruption;
use durandal::workflow::rfc::RfcReview;
use durandal::workflow::create::NewTask;
use durandal::workflow::inbox::InboxItem;
use durandal::workflow::next::NextTask;
use durandal::workflow::pr::Pr;
use durandal::workflow::{Reply, Request, StatefulEnum};

fn task(id: Option<u64>, desc: &str, tags: &[&str]) -> Task {
    Task {
        id,
        uuid: format!("uuid-{}", desc),
        description: desc.to_string(),
        project: None,
        tags: tags.iter().map(|t| t.to_string()).collect(),
        annotations: Vec::new(),
        status: TaskStatus::Pending,
        wait: None,
        due: None,
        udas: Vec::new(),
    }
}

fn pending<W: StatefulEnum>(w: &W) -> Request {
    w.request().unwrap().expect("a non-terminal state asks for something")
}

fn run_args<W: StatefulEnum>(w: &W) -> Vec<String> {
    match pending(w) {
        Request::Run { args } => args,
        other => panic!("expected a store command, got {:?}", other),
    }
}

fn is_prompt(r: &Request) -> bool {
    matches!(
        r,
        Request::Confirm { .. } | Request::Select { .. } | Request::MultiSelect { .. } | Request::Input { .. }
    )
}

#[test]
fn new_task_reprompts_until_a_context_is_chosen() {
    let mut w = NewTask::new();
    w = w.step(Reply::Confirmed(false)).unwrap();
    w = w.step(Reply::Text("Write spec".to_string())).unwrap();
    assert!(matches!(pending(&w), Request::MultiSelect { .. }));
    w = w.step(Reply::SelectedMany(vec![])).unwrap();
    assert!(matches!(pending(&w), Request::Show { .. }));
    w = w.step(Reply::Ack).unwrap();
    assert!(matches!(pending(&w), Request::MultiSelect { .. }));
    w = w.step(Reply::SelectedMany(vec![])).unwrap();
    w = w.step(Reply::Ack).unwrap();
    assert!(matches!(pending(&w), Request::MultiSelect { .. }));
    // the third answer, Work, is accepted and the brainpower prompt follows
    w = w.step(Reply::SelectedMany(vec![7])).unwrap();
    match pending(&w) {
        Request::Select { items, default, .. } => {
            assert_eq!(items, vec!["Low", "Medium", "High"]);
            assert_eq!(default, 1);
        }
        other => panic!("unexpected {:?}", other),
    }
    w = w.step(Reply::Selected(1)).unwrap();
    w = w.step(Reply::Selected(0)).unwrap();
    w = w.step(Reply::Confirmed(false)).unwrap();
    assert_eq!(run_args(&w), vec!["add", "brain:M", "est:30", "+@work", "Write spec"]);
}

#[test]
fn new_task_full_run() {
    let mut w = NewTask::new();
    match pending(&w) {
        Request::Confirm { prompt, default } => {
            assert_eq!(prompt, "Is this part of a project?");
            assert!(default);
        }
        other => panic!("unexpected {:?}", other),
    }
    w = w.step(Reply::Confirmed(true)).unwrap();
    assert_eq!(run_args(&w), vec!["_projects"]);
    w = w.step(Reply::Output("home\nwork\n".to_string())).unwrap();
    match pending(&w) {
        Request::Select { items, default, .. } => {
            assert_eq!(items, vec!["--New project--", "home", "work", ""]);
            assert_eq!(default, 0);
        }
        other => panic!("unexpected {:?}", other),
    }
    w = w.step(Reply::Selected(2)).unwrap();
    // an empty description is asked again
    w = w.step(Reply::Text(String::new())).unwrap();
    assert!(matches!(pending(&w), Request::Input { .. }));
    w = w.step(Reply::Text("Ship it".to_string())).unwrap();
    w = w.step(Reply::SelectedMany(vec![2, 7])).unwrap();
    w = w.step(Reply::Selected(2)).unwrap();
    w = w.step(Reply::Selected(1)).unwrap();
    w = w.step(Reply::Confirmed(true)).unwrap();
    w = w.step(Reply::Text("friday".to_string())).unwrap();
    assert_eq!(
        run_args(&w),
        vec!["add", "brain:H", "est:360", "proj:work", "+@computer", "+@work", "due:friday", "Ship it"]
    );
    w = w.step(Reply::Output("Created task 42.\n".to_string())).unwrap();
    match pending(&w) {
        Request::Export { args } => {
            assert_eq!(args, vec!["rc.json.array=on", "rc.confirmation=off", "42", "export"])
        }
        other => panic!("unexpected {:?}", other),
    }
    let created = task(Some(42), "Ship it", &["@computer", "@work"]);
    w = w.step(Reply::Tasks(vec![created])).unwrap();
    match pending(&w) {
        Request::Show { text } => assert_eq!(text, "Added a new task with id 42"),
        other => panic!("unexpected {:?}", other),
    }
    w = w.step(Reply::Ack).unwrap();
    assert!(w.terminated());
    assert_eq!(w.task().unwrap().description, "Ship it");
    assert!(w.request().unwrap().is_none());
    assert_eq!(w.step(Reply::Ack).err(), Some(WorkflowError::Terminated));
}

#[test]
fn new_task_creation_errors() {
    let mut w = NewTask::for_project(Project::new("p"));
    w = w.step(Reply::Text("d".to_string())).unwrap();
    w = w.step(Reply::SelectedMany(vec![0])).unwrap();
    w = w.step(Reply::Selected(0)).unwrap();
    w = w.step(Reply::Selected(0)).unwrap();
    w = w.step(Reply::Confirmed(false)).unwrap();
    assert_eq!(run_args(&w), vec!["add", "brain:L", "est:30", "proj:p", "+@agenda", "d"]);
    let bad = w.clone().step(Reply::Output("oops".to_string()));
    assert_eq!(bad.err(), Some(WorkflowError::UnreadableConfirmation));
    let wrong = w.clone().step(Reply::Ack);
    assert_eq!(wrong.err(), Some(WorkflowError::UnexpectedReply));
    let w = w.step(Reply::Output("Created task 5.".to_string())).unwrap();
    assert_eq!(w.step(Reply::Tasks(vec![])).err(), Some(WorkflowError::TaskNotFound));
}

#[test]
fn new_task_rejects_unknown_choices() {
    let w = NewTask::new().step(Reply::Confirmed(false)).unwrap();
    let w = w.step(Reply::Text("d".to_string())).unwrap();
    assert_eq!(w.clone().step(Reply::SelectedMany(vec![8])).err(), Some(WorkflowError::NoSuchChoice));
    let w = w.step(Reply::SelectedMany(vec![1])).unwrap();
    assert_eq!(w.step(Reply::Selected(3)).err(), Some(WorkflowError::NoSuchChoice));
}

#[test]
fn inbox_do_it_waits_for_done() {
    let mut w = InboxItem::new(task(Some(9), "Take out trash", &["in"]));
    w = w.step(Reply::Confirmed(true)).unwrap();
    w = w.step(Reply::Selected(0)).unwrap();
    for answer in [false, false] {
        match pending(&w) {
            Request::Confirm { prompt, .. } => assert_eq!(prompt, "Is it done?"),
            other => panic!("unexpected {:?}", other),
        }
        w = w.step(Reply::Confirmed(answer)).unwrap();
    }
    assert!(is_prompt(&pending(&w)));
    w = w.step(Reply::Confirmed(true)).unwrap();
    assert_eq!(run_args(&w), vec!["rc.confirmation=off", "9", "done"]);
    w = w.step(Reply::Output(String::new())).unwrap();
    assert!(w.terminated());
    assert_eq!(w.summary(), Some("Task finished"));
}

#[test]
fn inbox_delegate_by_email() {
    let mut w = InboxItem::new(task(Some(3), "Review budget", &["in"]));
    w = w.step(Reply::Confirmed(true)).unwrap();
    w = w.step(Reply::Selected(2)).unwrap();
    match pending(&w) {
        Request::Select { items, .. } => assert_eq!(items[1], "Send an email to this person"),
        other => panic!("unexpected {:?}", other),
    }
    w = w.step(Reply::Selected(1)).unwrap();
    w = w.step(Reply::Text("ping Bob".to_string())).unwrap();
    w = w.step(Reply::Text("+2d".to_string())).unwrap();
    assert_eq!(
        run_args(&w),
        vec!["add", "brain:M", "est:30", "+@work", "+@home", "+in", "+tickle", "wait:+2d", "ping Bob"]
    );
    w = w.step(Reply::Output("Created task 7.".to_string())).unwrap();
    w = w.step(Reply::Tasks(vec![task(Some(7), "ping Bob", &["in", "tickle"])])).unwrap();
    assert_eq!(
        run_args(&w),
        vec!["rc.confirmation=off", "7", "annotate", "follow up from Review budget"]
    );
    w = w.step(Reply::Output(String::new())).unwrap();
    assert_eq!(run_args(&w), vec!["rc.confirmation=off", "7", "annotate", "Sent an email"]);
    w = w.step(Reply::Output(String::new())).unwrap();
    assert_eq!(run_args(&w), vec!["rc.confirmation=off", "3", "delete"]);
    w = w.step(Reply::Output(String::new())).unwrap();
    assert!(w.terminated());
    assert_eq!(w.summary(), Some("Task delegated (original deleted)"));
}

#[test]
fn inbox_not_actionable_branches() {
    let start = || InboxItem::new(task(Some(4), "Idea", &["in"])).step(Reply::Confirmed(false)).unwrap();
    let trash = start().step(Reply::Selected(0)).unwrap();
    assert_eq!(run_args(&trash), vec!["rc.confirmation=off", "4", "delete"]);
    let trash = trash.step(Reply::Output(String::new())).unwrap();
    assert_eq!(trash.summary(), Some("Task deleted"));

    let reference = start().step(Reply::Selected(2)).unwrap();
    assert_eq!(
        run_args(&reference),
        vec!["rc.confirmation=off", "4", "modify", "-in", "-@home", "-@work", "+reference"]
    );

    let later = start().step(Reply::Selected(1)).unwrap().step(Reply::Confirmed(true)).unwrap();
    match pending(&later) {
        Request::Input { default, .. } => assert_eq!(default, Some("+1d".to_string())),
        other => panic!("unexpected {:?}", other),
    }
    let later = later.step(Reply::Text("+1w".to_string())).unwrap();
    assert_eq!(run_args(&later), vec!["rc.confirmation=off", "4", "modify", "+tickle", "wait:+1w"]);
    let later = later.step(Reply::Output(String::new())).unwrap();
    assert_eq!(later.summary(), Some("Task incubated"));

    let maybe = start().step(Reply::Selected(1)).unwrap().step(Reply::Confirmed(false)).unwrap();
    assert_eq!(
        run_args(&maybe),
        vec!["rc.confirmation=off", "4", "modify", "-in", "-@home", "-@work", "proj:maybe"]
    );
}

#[test]
fn inbox_defer_runs_new_task_then_deletes() {
    let mut w = InboxItem::new(task(Some(5), "Plan trip", &["in"]));
    w = w.step(Reply::Confirmed(true)).unwrap();
    w = w.step(Reply::Selected(1)).unwrap();
    match pending(&w) {
        Request::Confirm { prompt, .. } => assert_eq!(prompt, "Is this part of a project?"),
        other => panic!("unexpected {:?}", other),
    }
    w = w.step(Reply::Confirmed(false)).unwrap();
    w = w.step(Reply::Text("Book flights".to_string())).unwrap();
    w = w.step(Reply::SelectedMany(vec![2])).unwrap();
    w = w.step(Reply::Selected(1)).unwrap();
    w = w.step(Reply::Selected(0)).unwrap();
    w = w.step(Reply::Confirmed(false)).unwrap();
    w = w.step(Reply::Output("Created task 11.".to_string())).unwrap();
    w = w.step(Reply::Tasks(vec![task(Some(11), "Book flights", &[])])).unwrap();
    w = w.step(Reply::Ack).unwrap();
    assert_eq!(run_args(&w), vec!["rc.confirmation=off", "5", "delete"]);
    w = w.step(Reply::Output(String::new())).unwrap();
    assert!(w.terminated());
    assert_eq!(w.summary(), Some("Task deferred (original deleted)"));
}

#[test]
fn terminal_states_refuse_steps() {
    let w = InboxItem::new(task(Some(4), "Idea", &[]))
        .step(Reply::Confirmed(false))
        .unwrap()
        .step(Reply::Selected(0))
        .unwrap()
        .step(Reply::Output(String::new()))
        .unwrap();
    assert!(w.terminated());
    assert!(w.request().unwrap().is_none());
    assert_eq!(w.step(Reply::Ack).err(), Some(WorkflowError::Terminated));
    let start = InboxItem::new(task(Some(4), "Idea", &[]));
    assert!(!start.terminated());
}

#[test]
fn missing_id_is_reported() {
    let w = InboxItem::new(task(None, "Idea", &[])).step(Reply::Confirmed(false)).unwrap();
    let w = w.step(Reply::Selected(0)).unwrap();
    assert_eq!(w.request().err(), Some(WorkflowError::MissingId));
}

#[test]
fn next_action_present_is_left_alone() {
    let w = NextTask::new(Project::new("home"));
    let q = pending(&w);
    assert!(!is_prompt(&q));
    match q {
        Request::Export { args } => assert_eq!(
            args,
            vec!["rc.json.array=on", "rc.confirmation=off", "proj:home", "status:pending", "export"]
        ),
        other => panic!("unexpected {:?}", other),
    }
    let tasks = vec![task(Some(1), "a", &[]), task(Some(2), "b", &["next"])];
    let w = w.step(Reply::Tasks(tasks)).unwrap();
    assert!(w.terminated());
    assert_eq!(w.summary(), None);
}

#[test]
fn next_action_forced_clears_tag_first() {
    let w = NextTask::with_force(Project::new("home"));
    let tasks = vec![task(Some(1), "a", &[]), task(Some(2), "b", &["next"])];
    let w = w.step(Reply::Tasks(tasks)).unwrap();
    assert_eq!(run_args(&w), vec!["rc.confirmation=off", "2", "modify", "-next"]);
    let w = w.step(Reply::Output(String::new())).unwrap();
    match pending(&w) {
        Request::Show { text } => assert!(text.contains("-> home")),
        other => panic!("unexpected {:?}", other),
    }
    let w = w.step(Reply::Ack).unwrap();
    match pending(&w) {
        Request::Select { items, .. } => assert_eq!(items, vec!["a", "b", "--New task--"]),
        other => panic!("unexpected {:?}", other),
    }
    let w = w.step(Reply::Selected(0)).unwrap();
    assert_eq!(run_args(&w), vec!["rc.confirmation=off", "1", "modify", "+next"]);
    let w = w.step(Reply::Output(String::new())).unwrap();
    assert!(w.terminated());
    assert_eq!(w.summary(), Some("Next task selected"));
}

#[test]
fn next_action_new_task_for_project() {
    let w = NextTask::new(Project::new("home"));
    let w = w.step(Reply::Tasks(vec![task(Some(1), "a", &[])])).unwrap();
    let w = w.step(Reply::Ack).unwrap();
    let mut w = w.step(Reply::Selected(1)).unwrap();
    match pending(&w) {
        Request::Input { prompt, .. } => assert_eq!(prompt, "What is the action?"),
        other => panic!("unexpected {:?}", other),
    }
    w = w.step(Reply::Text("Fix sink".to_string())).unwrap();
    w = w.step(Reply::SelectedMany(vec![4])).unwrap();
    w = w.step(Reply::Selected(1)).unwrap();
    w = w.step(Reply::Selected(0)).unwrap();
    w = w.step(Reply::Confirmed(false)).unwrap();
    assert_eq!(run_args(&w), vec!["add", "brain:M", "est:30", "proj:home", "+@home", "Fix sink"]);
    w = w.step(Reply::Output("Created task 8.".to_string())).unwrap();
    w = w.step(Reply::Tasks(vec![task(Some(8), "Fix sink", &[])])).unwrap();
    w = w.step(Reply::Ack).unwrap();
    assert_eq!(run_args(&w), vec!["rc.confirmation=off", "8", "modify", "+next"]);
}

#[test]
fn pr_review_opens_and_hides() {
    let mut t = task(Some(6), "PR", &[]);
    t.udas.push(("githuburl".to_string(), UdaValue::Str("https://example.com/pr/1".to_string())));
    t.udas.push(("githubtitle".to_string(), UdaValue::Str("Fix it".to_string())));
    let mut w = Pr::new(t);
    match pending(&w) {
        Request::Detail { rows } => {
            assert_eq!(rows[0], ("ID".to_string(), "6".to_string()));
            assert_eq!(rows[1], ("Title".to_string(), "Fix it".to_string()));
            assert_eq!(rows[2], ("User".to_string(), String::new()));
            assert_eq!(rows[4], ("URL".to_string(), "https://example.com/pr/1".to_string()));
        }
        other => panic!("unexpected {:?}", other),
    }
    w = w.step(Reply::Ack).unwrap();
    w = w.step(Reply::Confirmed(true)).unwrap();
    match pending(&w) {
        Request::Open { url } => assert_eq!(url, "https://example.com/pr/1"),
        other => panic!("unexpected {:?}", other),
    }
    w = w.step(Reply::Ack).unwrap();
    w = w.step(Reply::Confirmed(true)).unwrap();
    w = w.step(Reply::Text("+3d".to_string())).unwrap();
    assert_eq!(run_args(&w), vec!["rc.confirmation=off", "6", "modify", "+tickle", "wait:+3d"]);
    w = w.step(Reply::Output(String::new())).unwrap();
    assert!(w.terminated());
}

#[test]
fn pr_review_needs_url_to_open() {
    let w = Pr::new(task(Some(6), "PR", &[])).step(Reply::Ack).unwrap();
    assert_eq!(w.step(Reply::Confirmed(true)).err(), Some(WorkflowError::MissingUrl));
}

#[test]
fn finishing_resumes_the_interrupted_task() {
    let mut active = task(Some(4), "Urgent fix", &["interrupt"]);
    active.annotations.push(Annotation { entry: Date::new(2024, 1, 2).unwrap(), description: "DTR:abc".to_string() });
    let mut w = Finishing::new();
    w = w.step(Reply::Tasks(vec![active])).unwrap();
    match pending(&w) {
        Request::Show { text } => assert_eq!(text, "Finishing: Urgent fix"),
        other => panic!("unexpected {:?}", other),
    }
    w = w.step(Reply::Ack).unwrap();
    assert_eq!(run_args(&w), vec!["rc.confirmation=off", "4", "done"]);
    w = w.step(Reply::Output(String::new())).unwrap();
    match pending(&w) {
        Request::Export { args } => assert_eq!(args, vec!["rc.json.array=on", "rc.confirmation=off", "abc", "export"]),
        other => panic!("unexpected {:?}", other),
    }
    assert_eq!(w.clone().step(Reply::Tasks(vec![])).err(), Some(WorkflowError::ResumeNotFound));
    w = w.step(Reply::Tasks(vec![task(Some(2), "Write report", &[])])).unwrap();
    w = w.step(Reply::Ack).unwrap();
    assert_eq!(run_args(&w), vec!["rc.confirmation=off", "2", "start"]);
    w = w.step(Reply::Output(String::new())).unwrap();
    assert!(w.terminated());
}

#[test]
fn finishing_checks_the_project_next_action() {
    let mut active = task(Some(4), "Step one", &[]);
    active.project = Some("home".to_string());
    let w = Finishing::new();
    assert_eq!(w.clone().step(Reply::Tasks(vec![])).err(), Some(WorkflowError::NoActiveTask));
    assert_eq!(
        w.clone().step(Reply::Tasks(vec![task(Some(1), "a", &[]), task(Some(2), "b", &[])])).err(),
        Some(WorkflowError::SeveralActiveTasks)
    );
    let w = w.step(Reply::Tasks(vec![active])).unwrap().step(Reply::Ack).unwrap();
    let w = w.step(Reply::Output(String::new())).unwrap();
    match pending(&w) {
        Request::Export { args } => assert_eq!(
            args,
            vec!["rc.json.array=on", "rc.confirmation=off", "proj:home", "status:pending", "export"]
        ),
        other => panic!("unexpected {:?}", other),
    }
    let w = w.step(Reply::Tasks(vec![task(Some(5), "Step two", &[])])).unwrap();
    // the project's next action is checked by the selection workflow
    let w = w.step(Reply::Tasks(vec![task(Some(5), "Step two", &["next"])])).unwrap();
    assert!(w.terminated());
}

#[test]
fn interruption_stops_creates_and_links() {
    let mut w = Interruption::new();
    w = w.step(Reply::Tasks(vec![task(Some(3), "Deep work", &[])])).unwrap();
    assert_eq!(run_args(&w), vec!["rc.confirmation=off", "3", "stop"]);
    w = w.step(Reply::Output(String::new())).unwrap();
    match pending(&w) {
        Request::Show { text } => assert_eq!(text, "Stopped 3 Deep work"),
        other => panic!("unexpected {:?}", other),
    }
    w = w.step(Reply::Ack).unwrap();
    w = w.step(Reply::Text("Help a colleague".to_string())).unwrap();
    w = w.step(Reply::SelectedMany(vec![7])).unwrap();
    w = w.step(Reply::Selected(1)).unwrap();
    w = w.step(Reply::Selected(0)).unwrap();
    w = w.step(Reply::Confirmed(false)).unwrap();
    assert_eq!(run_args(&w), vec!["add", "brain:M", "est:30", "proj:interrupt", "+@work", "Help a colleague"]);
    w = w.step(Reply::Output("Created task 8.".to_string())).unwrap();
    w = w.step(Reply::Tasks(vec![task(Some(8), "Help a colleague", &[])])).unwrap();
    w = w.step(Reply::Ack).unwrap();
    assert_eq!(run_args(&w), vec!["rc.confirmation=off", "8", "modify", "+interrupt"]);
    w = w.step(Reply::Output(String::new())).unwrap();
    assert_eq!(run_args(&w), vec!["rc.confirmation=off", "8", "annotate", "DTR:uuid-Deep work"]);
    w = w.step(Reply::Output(String::new())).unwrap();
    assert_eq!(run_args(&w), vec!["rc.confirmation=off", "8", "start"]);
    w = w.step(Reply::Output(String::new())).unwrap();
    match pending(&w) {
        Request::Show { text } => assert_eq!(text, "started 8"),
        other => panic!("unexpected {:?}", other),
    }
    w = w.step(Reply::Ack).unwrap();
    assert!(w.terminated());
}

#[test]
fn rfc_review_files_a_task_and_links_it() {
    let mut rfc = task(Some(21), "RFC: new api", &["rfc_inbox"]);
    assert!(RfcReview::new(rfc.clone(), "rnr").unwrap().is_none());
    rfc.udas.push((
        "jiradescription".to_string(),
        UdaValue::Str("Doc at https://www.notion.so/team/api-123".to_string()),
    ));
    assert_eq!(RfcReview::new(rfc.clone(), "rnr").err(), Some(durandal::commands::CommandError::MissingSummary));
    rfc.udas.push(("jirasummary".to_string(), UdaValue::Str("New API".to_string())));
    let unlinked = RfcReview::new(rfc.clone(), "rnr").unwrap().unwrap();
    rfc.udas.push(("jiraurl".to_string(), UdaValue::Str("https://jira.example.com/ABC-1".to_string())));
    let mut w = RfcReview::new(rfc, "rnr").unwrap().unwrap();
    assert_eq!(
        run_args(&w),
        vec!["add", "brain:M", "est:30", "proj:rnr", "+@computer", "+@work", "+rnr", "RFC Review: New API"]
    );
    w = w.step(Reply::Output("Created task 30.\n".to_string())).unwrap();
    w = w.step(Reply::Tasks(vec![task(Some(30), "RFC Review: New API", &[])])).unwrap();
    assert_eq!(run_args(&w), vec!["rc.confirmation=off", "21", "modify", "-rfc_inbox"]);
    w = w.step(Reply::Output(String::new())).unwrap();
    assert_eq!(run_args(&w), vec!["rc.confirmation=off", "30", "annotate", "https://jira.example.com/ABC-1"]);
    w = w.step(Reply::Output(String::new())).unwrap();
    assert_eq!(run_args(&w), vec!["rc.confirmation=off", "30", "annotate", "https://www.notion.so/team/api-123"]);
    w = w.step(Reply::Output(String::new())).unwrap();
    match pending(&w) {
        Request::Show { text } => assert_eq!(text, "Added rnr task for 'RFC Review: New API'"),
        other => panic!("unexpected {:?}", other),
    }
    w = w.step(Reply::Ack).unwrap();
    assert!(w.terminated());

    // without a Jira URL the review stops after the RFC leaves the inbox
    let w = unlinked.step(Reply::Output("Created task 31.".to_string())).unwrap();
    let w = w.step(Reply::Tasks(vec![task(Some(31), "RFC Review: New API", &[])])).unwrap();
    assert_eq!(w.step(Reply::Output(String::new())).err(), Some(WorkflowError::MissingJiraUrl));
}
