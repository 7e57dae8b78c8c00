use workopilot::database::{
    completed_at_for, default_session_name, is_after, is_overdue, month_range, pad_number,
    pending_migrations, task_migrations, unscheduled_query, AIMetadata, Migration, TaskContext,
    TaskFull, TaskTimestamps,
};

#[test]
fn new_task_is_pending_and_empty() {
    let task = TaskFull::created_at(
        "t-1".to_string(),
        "Login".to_string(),
        3,
        "feature".to_string(),
        "2024-05-01T10:00:00+00:00".to_string(),
    );
    assert_eq!(task.schema_version, 2);
    assert!(!task.initialized);
    assert_eq!((task.id.as_str(), task.title.as_str()), ("t-1", "Login"));
    assert_eq!((task.status.as_str(), task.priority, task.category.as_str()), ("pending", 3, "feature"));
    assert!(task.complexity.is_none());
    assert!(task.subtasks.is_empty());
    assert!(task.context.business_rules.is_empty() && task.context.description.is_none());
    assert_eq!(task.ai_metadata.tokens_used, 0);
    assert!(!task.ai_metadata.structuring_complete);
    assert_eq!(task.timestamps.created_at, "2024-05-01T10:00:00+00:00");
    assert!(task.timestamps.started_at.is_none() && task.timestamps.completed_at.is_none());
    assert_eq!(task.modified_at.as_deref(), Some("2024-05-01T10:00:00+00:00"));
    assert_eq!(task.modified_by.as_deref(), Some("user"));
    assert!(task.project_id.is_none() && task.due_date.is_none() && task.scheduled_date.is_none());
}

#[test]
fn new_task_is_stamped_with_the_time() {
    let task = TaskFull::new("t".to_string(), "T".to_string(), 1, "bug".to_string());
    assert_eq!(task.modified_at.as_deref(), Some(task.timestamps.created_at.as_str()));
    assert!(task.timestamps.created_at.len() >= 20);
    assert!(task.timestamps.created_at.contains('T'));
    assert_eq!(task.status, "pending");
}

#[test]
fn defaults_are_empty() {
    let context = TaskContext::default();
    assert!(context.description.is_none() && context.technical_notes.is_none());
    assert!(context.business_rules.is_empty() && context.acceptance_criteria.is_none());
    let ai = AIMetadata::default();
    assert!(ai.last_interaction.is_none() && ai.last_completed_action.is_none());
    assert!(ai.session_ids.is_empty());
    let stamps = TaskTimestamps::default();
    assert!(stamps.created_at.is_empty());
}

#[test]
fn only_done_tasks_are_completed() {
    assert_eq!(completed_at_for("done", "now".to_string()), Some("now".to_string()));
    assert_eq!(completed_at_for("completed", "now".to_string()), None);
    assert_eq!(completed_at_for("", "now".to_string()), None);
}

#[test]
fn numbers_are_padded_with_zeros_behind_the_sign() {
    assert_eq!(pad_number(2024, 4), "2024");
    assert_eq!(pad_number(5, 4), "0005");
    assert_eq!(pad_number(0, 2), "00");
    assert_eq!(pad_number(-5, 4), "-005");
    assert_eq!(pad_number(-5, 2), "-5");
    assert_eq!(pad_number(12345, 4), "12345");
    assert_eq!(pad_number(7, 0), "7");
    assert_eq!(pad_number(i32::MIN, 4), "-2147483648");
    assert_eq!(pad_number(i32::MAX, 12), "002147483647");
    assert_eq!(pad_number(-7, 3), format!("{:03}", -7));
    assert_eq!(pad_number(42, 5), format!("{:05}", 42));
}

#[test]
fn month_runs_to_the_first_of_the_next() {
    assert_eq!(month_range(2024, 2), ("2024-02-01".to_string(), "2024-03-01".to_string()));
    assert_eq!(month_range(2024, 12), ("2024-12-01".to_string(), "2025-01-01".to_string()));
    assert_eq!(month_range(999, 9), ("0999-09-01".to_string(), "0999-10-01".to_string()));
    assert_eq!(month_range(2024, 13), ("2024-13-01".to_string(), "2024-14-01".to_string()));
    assert_eq!(month_range(-1, 0), ("-001-00-01".to_string(), "-001-01-01".to_string()));
}

#[test]
fn texts_are_ordered_character_by_character() {
    assert!(is_after("2024-05-02", "2024-05-01"));
    assert!(!is_after("2024-05-01", "2024-05-01"));
    assert!(!is_after("2024-05-01", "2024-05-02"));
    assert!(is_after("2024-05-01T00", "2024-05-01"));
    assert!(!is_after("", "a"));
    assert!(is_after("a", ""));
    assert!(!is_after("", ""));
    assert!(is_after("é", "z"));
    assert!(is_after("\u{10000}", "\u{ffff}"));
    assert!(is_after("b", "abc"));
    for (a, b) in [("é", "z"), ("\u{10000}", "\u{ffff}"), ("ab", "a"), ("a", "ab"), ("", "")] {
        assert_eq!(is_after(a, b), a > b);
    }
}

#[test]
fn padding_agrees_with_the_standard_library() {
    for i in [0, 1, -1, 9, 10, -10, 99, 100, 999, 1000, -999, -1000, 2024, i32::MAX, i32::MIN] {
        assert_eq!(pad_number(i, 4), format!("{:04}", i));
        assert_eq!(pad_number(i, 2), format!("{:02}", i));
        assert_eq!(pad_number(i, 0), format!("{}", i));
        assert_eq!(pad_number(i, 13), format!("{:013}", i));
    }
}

#[test]
fn task_is_overdue_past_its_due_date() {
    assert!(!is_overdue("2024-05-01", None, "2030-01-01"));
    assert!(!is_overdue("2024-05-01", Some("2024-05-01"), "2024-05-01"));
    assert!(is_overdue("2024-05-02", Some("2024-05-01"), "2024-04-01"));
    assert!(is_overdue("2024-04-01", Some("2024-05-01"), "2024-05-02"));
    assert!(!is_overdue("2024-04-01", Some("2024-05-01"), "2024-04-30"));
}

#[test]
fn unscheduled_query_numbers_its_parameters() {
    let base = BASE;
    let order = ORDER;
    assert_eq!(unscheduled_query(false, false, false), format!("{}{}", base, order));
    assert_eq!(
        unscheduled_query(true, false, false),
        format!("{} AND project_id = ?1{}", base, order)
    );
    assert_eq!(
        unscheduled_query(false, true, false),
        format!("{} AND category = ?1{}", base, order)
    );
    assert_eq!(
        unscheduled_query(false, false, true),
        format!("{} AND priority = ?1{}", base, order)
    );
    assert_eq!(
        unscheduled_query(true, true, false),
        format!("{} AND project_id = ?1 AND category = ?2{}", base, order)
    );
    assert_eq!(
        unscheduled_query(true, false, true),
        format!("{} AND project_id = ?1 AND priority = ?2{}", base, order)
    );
    assert_eq!(
        unscheduled_query(false, true, true),
        format!("{} AND category = ?1 AND priority = ?2{}", base, order)
    );
    assert_eq!(
        unscheduled_query(true, true, true),
        format!("{} AND project_id = ?1 AND category = ?2 AND priority = ?3{}", base, order)
    );
}

#[test]
fn missing_columns_are_added_in_order() {
    let migrations = task_migrations();
    assert_eq!(migrations.len(), 11);
    let columns: Vec<&str> = migrations.iter().map(|m| m.column).collect();
    assert_eq!(
        columns,
        vec![
            "complexity",
            "initialized",
            "schema_version",
            "context_description",
            "context_business_rules",
            "context_technical_notes",
            "context_acceptance_criteria",
            "ai_metadata",
            "timestamps_started_at",
            "modified_at",
            "modified_by",
        ]
    );
    assert_eq!(pending_migrations("tasks", &migrations, &vec![]).len(), 11);
    let have: Vec<String> = columns.iter().map(|c| c.to_string()).collect();
    assert!(pending_migrations("tasks", &migrations, &have).is_empty());
    let have = vec![
        "id".to_string(),
        "initialized".to_string(),
        "complexity".to_string(),
        "modified_by".to_string(),
        "ai_metadata".to_string(),
    ];
    let pending = pending_migrations("tasks", &migrations, &have);
    assert_eq!(pending.len(), 7);
    assert_eq!(pending[0], "ALTER TABLE tasks ADD COLUMN schema_version INTEGER DEFAULT 2");
    assert_eq!(pending[1], "ALTER TABLE tasks ADD COLUMN context_description TEXT");
    assert_eq!(pending[6], "ALTER TABLE tasks ADD COLUMN modified_at TEXT");
    assert!(!pending.contains(&"ALTER TABLE tasks ADD COLUMN initialized INTEGER DEFAULT 0".to_string()));
    let all = pending_migrations("tasks", &migrations, &vec![]);
    assert_eq!(all[0], "ALTER TABLE tasks ADD COLUMN complexity TEXT");
    assert_eq!(all[1], "ALTER TABLE tasks ADD COLUMN initialized INTEGER DEFAULT 0");
    assert_eq!(all[10], "ALTER TABLE tasks ADD COLUMN modified_by TEXT");
}

#[test]
fn migrations_of_the_caller_are_filtered_too() {
    let migrations = vec![
        Migration { column: "a", definition: "TEXT" },
        Migration { column: "b", definition: "TEXT" },
        Migration { column: "a", definition: "INTEGER DEFAULT 0" },
    ];
    assert_eq!(
        pending_migrations("projects", &migrations, &vec!["b".to_string()]),
        vec![
            "ALTER TABLE projects ADD COLUMN a TEXT",
            "ALTER TABLE projects ADD COLUMN a INTEGER DEFAULT 0"
        ]
    );
    assert!(pending_migrations("projects", &Vec::new(), &vec!["b".to_string()]).is_empty());
}

#[test]
fn session_name_is_the_project_name_in_lower_case_with_hyphens() {
    assert_eq!(default_session_name("My Cool Project"), "my-cool-project");
    assert_eq!(default_session_name("  Ünïcode  "), "--ünïcode--");
    assert_eq!(default_session_name("tab\tstays"), "tab\tstays");
    assert_eq!(default_session_name(""), "");
}

const BASE: &str = "SELECT id, project_id, title, description, priority, category, status, due_date, json_path, created_at, scheduled_date\n             FROM tasks\n             WHERE scheduled_date IS NULL AND status != 'done'";

const ORDER: &str = " ORDER BY priority ASC, due_date ASC NULLS LAST, created_at DESC";
