use durandal::commands::{
    external_subcommand, iou_servers, next_label, resume_uuid, single_active, unseen, CommandError,
};
use durandal::error::DurandalError;
use durandal::external::ExternalCommand;
use durandal::links::{jira_url, notion_link, rfc_review, task_links};
use durandal::scrum::{scrum_bound, scrum_filter};
use durandal::table::{Field, UDA};
use durandal::task::{Annotation, Date, Task, TaskStatus, UdaValue};

fn task(id: Option<u64>, desc: &str) -> Task {
    Task {
        id,
        uuid: format!("uuid-{}", desc),
        description: desc.to_string(),
        project: None,
        tags: Vec::new(),
        annotations: Vec::new(),
        status: TaskStatus::Pending,
        wait: None,
        due: None,
        udas: Vec::new(),
    }
}

fn day(y: u32, m: u32, d: u32) -> Date {
    Date::new(y, m, d).unwrap()
}

fn note(d: Date, text: &str) -> Annotation {
    Annotation { entry: d, description: text.to_string() }
}

#[test]
fn one_active_task() {
    assert_eq!(single_active(&vec![]).err(), Some(CommandError::NoActiveTask));
    assert_eq!(
        single_active(&vec![task(Some(1), "a"), task(Some(2), "b")]).err(),
        Some(CommandError::SeveralActiveTasks)
    );
    assert_eq!(single_active(&vec![task(Some(1), "a")]).unwrap().description, "a");
}

#[test]
fn resume_uses_latest_mark() {
    let mut t = task(Some(1), "a");
    assert_eq!(resume_uuid(&t), None);
    t.annotations.push(note(day(2024, 1, 2), "DTR:first"));
    t.annotations.push(note(day(2024, 1, 3), "DTR:second"));
    t.annotations.push(note(day(2024, 1, 4), "plain"));
    assert_eq!(resume_uuid(&t), Some("second".to_string()));
}

#[test]
fn labels_and_servers() {
    let mut t = task(Some(12), "Write");
    t.project = Some("home".to_string());
    assert_eq!(next_label(&t), "12 home: Write");
    assert_eq!(next_label(&task(None, "x")), "0 : x");
    assert_eq!(iou_servers(&vec![], None).err(), Some(CommandError::NoIouServer));
    let one = vec!["http://a".to_string()];
    assert_eq!(iou_servers(&one, None).unwrap(), one);
    let two = vec!["http://a".to_string(), "http://b".to_string()];
    assert_eq!(iou_servers(&two, Some(1)).unwrap(), vec!["http://b".to_string()]);
    assert_eq!(iou_servers(&two, Some(2)).err(), Some(CommandError::NoSuchServer));
    assert_eq!(iou_servers(&two, None).err(), Some(CommandError::NoSuchServer));
    assert_eq!(CommandError::NoIouServer.message(), "Invalid configuration: IOU server list is empty");
}

#[test]
fn external_subcommands() {
    assert_eq!(external_subcommand("durandal", "durandal-task"), Some("task".to_string()));
    assert_eq!(external_subcommand("durandal", "durandaltask"), None);
    assert_eq!(external_subcommand("durandal", "other"), None);
    let missing = ExternalCommand::new().prefix("hopeit").name("ismissing").args(&["x".to_string()]).build();
    match missing {
        Err(DurandalError::UnknownExternalCommand(name)) => assert_eq!(name, "hopeit-ismissing"),
        other => panic!("unexpected {:?}", other),
    }
    let found = ExternalCommand::new().prefix("a").name("b").args(&["x".to_string()]).resolve(true).unwrap();
    assert_eq!(found.executable(), "a-b");
    assert_eq!(found.args(), &vec!["x".to_string()]);
    assert_eq!(
        DurandalError::UnknownExternalCommand("a-b".to_string()).message(),
        "The external command 'a-b' could not be found"
    );
}

#[test]
fn tables_show_each_task_once() {
    let tasks = vec![task(Some(1), "a"), task(Some(2), "b"), task(Some(3), "c")];
    let mut seen = vec!["uuid-b".to_string()];
    assert_eq!(unseen(&tasks, &mut seen), vec![0, 2]);
    assert_eq!(seen, vec!["uuid-b", "uuid-a", "uuid-c"]);
    assert_eq!(unseen(&tasks, &mut seen), Vec::<usize>::new());
}

#[test]
fn dates_and_fields() {
    assert!(Date::new(2023, 2, 29).is_none());
    assert!(Date::new(2024, 2, 29).is_some());
    assert!(Date::new(2024, 13, 1).is_none());
    let today = day(2024, 3, 15);
    let mut t = task(Some(7), "Pay rent");
    assert_eq!(Field::Due.get_value(&t, &today), "None");
    t.due = Some(day(2024, 3, 15));
    assert_eq!(Field::Due.get_value(&t, &today), "Today");
    t.due = Some(day(2024, 3, 1));
    assert_eq!(Field::Due.get_value(&t, &today), "Overdue (2024-03-01)");
    t.due = Some(day(2024, 3, 18));
    assert_eq!(Field::Due.get_value(&t, &today), "2024-03-18 Mon");
    assert_eq!(Field::Waiting.get_value(&t, &today), "Ready");
    t.wait = Some(day(2024, 3, 16));
    assert_eq!(Field::Waiting.get_value(&t, &today), "2024-03-16 Sat");
    assert_eq!(Field::ID.get_value(&t, &today), "7");
    assert_eq!(Field::Project.get_value(&t, &today), "");
    t.tags.push("next".to_string());
    assert_eq!(Field::Next.get_value(&t, &today), "N");
    t.annotations.push(note(day(2024, 1, 2), "first"));
    t.annotations.push(note(day(2024, 1, 3), "second"));
    assert_eq!(Field::Annotations.get_value(&t, &today), "2024-01-02 first\n2024-01-03 second");
    assert_eq!(
        Field::AnnotatedDescription.get_value(&t, &today),
        "Pay rent\n    2024-01-02 first\n    2024-01-03 second"
    );
    assert_eq!(Field::Next.name(), "Next label");
    assert_eq!(UDA::GithubUrl.uda_key(), "githuburl");
    assert_eq!(UDA::GithubBody.name(), "Body");
}

#[test]
fn rfc_links() {
    let mut rfc = task(Some(9), "RFC");
    assert_eq!(notion_link(&rfc), None);
    rfc.udas.push((
        "jiradescription".to_string(),
        UdaValue::Str("see https://example.com/a and https://www.notion.so/doc-1 for details".to_string()),
    ));
    assert_eq!(notion_link(&rfc), Some("https://www.notion.so/doc-1".to_string()));
    assert_eq!(rfc_review(&rfc, "rnr").err(), Some(CommandError::MissingSummary));
    assert_eq!(jira_url(&rfc).err(), Some(CommandError::MissingJiraUrl));
    rfc.udas.push(("jirasummary".to_string(), UdaValue::Str("New API".to_string())));
    rfc.udas.push(("jiraurl".to_string(), UdaValue::Str("https://jira/ABC-1".to_string())));
    assert_eq!(
        rfc_review(&rfc, "rnr").unwrap().args(),
        vec!["add", "brain:M", "est:30", "proj:rnr", "+@computer", "+@work", "+rnr", "RFC Review: New API"]
    );
    assert_eq!(jira_url(&rfc).unwrap(), "https://jira/ABC-1");
}

#[test]
fn links_of_a_task() {
    let mut t = task(Some(2), "x");
    t.udas.push(("jiraurl".to_string(), UdaValue::Str("https://jira.example.com/A-1".to_string())));
    t.udas.push(("githuburl".to_string(), UdaValue::Str("https://github.com/o/r/pull/1".to_string())));
    t.annotations.push(note(day(2024, 1, 1), "also https://jira.example.com/A-1 and https://example.org/x"));
    assert_eq!(
        task_links(&t),
        vec!["https://jira.example.com/A-1", "https://github.com/o/r/pull/1", "https://example.org/x"]
    );
}

#[test]
fn scrum_period() {
    assert_eq!(scrum_bound(Some(4), 2), "today-4d");
    assert_eq!(scrum_bound(None, 0), "today-3d");
    assert_eq!(scrum_bound(None, 6), "today-2d");
    assert_eq!(scrum_bound(None, 3), "yesterday");
    assert_eq!(scrum_filter("end:after:{{bound}}", "yesterday").unwrap(), "end:after:yesterday");
    assert_eq!(scrum_filter("{{#if}}", "x").err(), Some(CommandError::BadTemplate));
}

#[test]
fn config_defaults() {
    assert_eq!(durandal::config::default_in_progress(), "-in +@work +ACTIVE");
    assert!(durandal::config::default_due().starts_with("-in +@work"));
    assert!(durandal::config::default_waiting().contains("+tickle"));
}
