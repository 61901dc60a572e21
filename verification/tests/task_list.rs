use focus_tasks::task_list::TaskList;

#[test]
fn task_list_names() {
    assert_eq!(TaskList::Urgent.as_str(), "urgent");
    assert_eq!(TaskList::Daily.as_str(), "daily");
    assert_eq!(TaskList::Weekly.as_str(), "weekly");
    assert_eq!(TaskList::Backlog.as_str(), "backlog");
}

#[test]
fn task_list_parse_round_trip() {
    for list in [
        TaskList::Urgent,
        TaskList::Daily,
        TaskList::Weekly,
        TaskList::Backlog,
    ] {
        assert_eq!(TaskList::parse(list.as_str()), Ok(list));
    }
}

#[test]
fn task_list_parse_rejects_unknown() {
    assert_eq!(
        TaskList::parse("Urgent"),
        Err("invalid task list: Urgent".to_string())
    );
    assert_eq!(TaskList::parse(""), Err("invalid task list: ".to_string()));
    assert_eq!(
        TaskList::parse("daily "),
        Err("invalid task list: daily ".to_string())
    );
}
