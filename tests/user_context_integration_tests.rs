//! Checks on the shape of the repository contracts.

struct MockHandler {
    user_id: String,
}

#[test]
fn test_user_decision_repository_trait_methods() {
    let methods = vec![
        "create_decision",
        "find_decision_by_id",
        "find_decisions_by_user",
        "update_decision",
        "delete_decision",
        "find_decisions_by_category",
        "find_decisions_by_scope",
        "increment_applied_count",
        "archive_decision",
    ];

    assert_eq!(methods.len(), 9);
}

#[test]
fn test_user_goal_repository_trait_methods() {
    let methods = vec![
        "create_goal",
        "find_goal_by_id",
        "find_goals_by_user",
        "find_goals_by_status",
        "find_goals_by_project",
        "update_goal",
        "delete_goal",
        "update_goal_status",
        "find_goals_by_priority",
    ];

    assert_eq!(methods.len(), 9);
}

#[test]
fn test_user_preference_repository_trait_methods() {
    let methods = vec![
        "create_preference",
        "find_preference_by_id",
        "find_preferences_by_user",
        "find_preferences_by_type",
        "update_preference",
        "delete_preference",
        "find_automation_applicable_preferences",
        "increment_frequency",
    ];

    assert_eq!(methods.len(), 8);
}

#[test]
fn test_known_issue_repository_trait_methods() {
    let methods = vec![
        "create_issue",
        "find_issue_by_id",
        "find_issues_by_user",
        "find_issues_by_severity",
        "find_issues_by_category",
        "find_issues_by_component",
        "update_issue",
        "delete_issue",
        "mark_issue_resolved",
    ];

    assert_eq!(methods.len(), 9);
}

#[test]
fn test_contextual_todo_repository_trait_methods() {
    let methods = vec![
        "create_todo",
        "find_todo_by_id",
        "find_todos_by_user",
        "find_todos_by_entity",
        "find_todos_by_project",
        "find_todos_by_status",
        "update_todo",
        "delete_todo",
        "update_todo_status",
    ];

    assert_eq!(methods.len(), 9);
}

#[test]
fn test_handler_creation_pattern() {
    let handler = MockHandler {
        user_id: "test_user".to_string(),
    };

    assert_eq!(handler.user_id, "test_user");
}
