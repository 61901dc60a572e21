use focus_tasks::schema::{has_column, migration_plan, MigrationStep};

fn names(v: &[&str]) -> Vec<String> {
    v.iter().map(|s| s.to_string()).collect()
}

#[test]
fn plan_for_oldest_table() {
    let plan = migration_plan(&names(&["id", "title", "done"]));
    assert_eq!(
        plan,
        vec![
            MigrationStep::AddCompletedAt,
            MigrationStep::BackfillCompletedAt,
            MigrationStep::AddPosition,
            MigrationStep::NumberPositions,
            MigrationStep::AddCreatedAt,
            MigrationStep::BackfillCreatedAt,
            MigrationStep::AddList,
            MigrationStep::BackfillList,
        ]
    );
}

#[test]
fn plan_for_table_with_position() {
    let plan = migration_plan(&names(&["id", "title", "done", "completed_at", "position"]));
    assert_eq!(
        plan,
        vec![
            MigrationStep::BackfillCompletedAt,
            MigrationStep::AddCreatedAt,
            MigrationStep::BackfillCreatedAt,
            MigrationStep::AddList,
            MigrationStep::BackfillList,
        ]
    );
}

#[test]
fn plan_for_current_table() {
    let plan = migration_plan(&names(&[
        "id",
        "title",
        "done",
        "completed_at",
        "position",
        "created_at",
        "list",
    ]));
    assert_eq!(
        plan,
        vec![
            MigrationStep::BackfillCompletedAt,
            MigrationStep::BackfillCreatedAt,
            MigrationStep::BackfillList,
        ]
    );
}

#[test]
fn has_column_matches_exact_names() {
    let cols = names(&["id", "created_at"]);
    assert!(has_column(&cols, "created_at"));
    assert!(!has_column(&cols, "created"));
    assert!(!has_column(&cols, "list"));
}
