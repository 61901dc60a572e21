use focus_tasks::title::normalize_task_title;

#[test]
fn task_create_rejects_empty_title() {
    assert_eq!(normalize_task_title(""), Err("title is empty".to_string()));
    assert_eq!(
        normalize_task_title("   "),
        Err("title is empty".to_string())
    );
}

#[test]
fn task_create_trims_title() {
    assert_eq!(normalize_task_title("  hi  "), Ok("hi"));
}

#[test]
fn title_trims_unicode_whitespace() {
    assert_eq!(normalize_task_title("\u{3000}\tзадача \u{a0}\n"), Ok("задача"));
    assert_eq!(normalize_task_title("\u{2028}\u{85}"), Err("title is empty".to_string()));
}

#[test]
fn title_keeps_inner_whitespace() {
    assert_eq!(normalize_task_title(" a  b "), Ok("a  b"));
}

#[test]
fn normalized_title_is_stable() {
    let once = normalize_task_title("\t buy milk \n").unwrap();
    assert_eq!(normalize_task_title(once), Ok(once));
}
