use user_context::clock::Timestamp;
use user_context::codes::{
    DecisionCategory, GoalStatus, IssueCategory, IssueSeverity, PreferenceType, TodoContextType,
    TodoStatus,
};
use user_context::decision::UserDecision;
use user_context::goal::UserGoal;
use user_context::issue::KnownIssue;
use user_context::preference::UserPreference;
use user_context::row::{found, StoreError};
use user_context::scope::ContextScope;
use user_context::todo::ContextualTodo;
use user_context::tools::UserContextToolName;

fn stamp(s: &str) -> Timestamp {
    Timestamp::parse(s).expect("valid timestamp")
}

#[test]
fn test_tool_names_valid() {
    assert_eq!(UserContextToolName::ManageUserDecision.as_str(), "manage_user_decision");
    assert_eq!(UserContextToolName::ManageUserGoal.as_str(), "manage_user_goal");
    assert_eq!(UserContextToolName::ManageUserPreference.as_str(), "manage_user_preference");
    assert_eq!(UserContextToolName::ManageKnownIssue.as_str(), "manage_known_issue");
    assert_eq!(UserContextToolName::ManageContextualTodo.as_str(), "manage_contextual_todo");
}

#[test]
fn tool_names_parse_back() {
    for t in [
        UserContextToolName::ManageUserDecision,
        UserContextToolName::ManageUserGoal,
        UserContextToolName::ManageUserPreference,
        UserContextToolName::ManageKnownIssue,
        UserContextToolName::ManageContextualTodo,
        UserContextToolName::QueryUserContext,
        UserContextToolName::ExportUserContext,
    ] {
        assert_eq!(UserContextToolName::parse(t.as_str()), Some(t));
    }
    assert_eq!(UserContextToolName::parse("drop_tables"), None);
}

#[test]
fn decision_request_defaults() {
    let d = UserDecision::from_request("user123", "Use Tokio", "tool_choice", None, None, None);
    assert_eq!(d.user_id, "user123");
    assert_eq!(d.decision_category, DecisionCategory::ToolChoice);
    assert_eq!(d.scope, ContextScope::Global);
    assert_eq!(d.confidence_score, 500_000);
    let e = UserDecision::from_request("u", "t", "bogus", Some("why"), Some("p"), Some(2_000_000));
    assert_eq!(e.decision_category, DecisionCategory::Other);
    assert_eq!(e.reason, Some("why".to_string()));
    assert_eq!(e.related_project_id, Some("p".to_string()));
    assert_eq!(e.confidence_score, 1_000_000);
    let f = UserDecision::from_request("u", "t", "other", None, None, Some(-200_000));
    assert_eq!(f.confidence_score, 0);
}

#[test]
fn decision_edits_touch_only_given_fields() {
    let mut d = UserDecision::from_request("u", "old", "security", Some("r"), None, None);
    d.apply_edits(Some("new"), None, Some(900_000), &stamp("2024-01-01T00:00:00Z"));
    assert_eq!(d.decision_text, "new");
    assert_eq!(d.reason, Some("r".to_string()));
    assert_eq!(d.confidence_score, 900_000);
    assert_eq!(d.updated_at, Some(stamp("2024-01-01T00:00:00Z")));
}

#[test]
fn goal_request_clamps_priority() {
    let g = UserGoal::from_request("u", "g", Some("d"), Some("p"), Some(0));
    assert_eq!(g.priority, 1);
    assert_eq!(g.status, GoalStatus::Planned);
    assert_eq!(g.project_id, Some("p".to_string()));
    let mut h = UserGoal::from_request("u", "g", None, None, None);
    assert_eq!(h.priority, 3);
    h.apply_edits(None, Some("desc"), Some(7), &stamp("2024-01-01T00:00:00Z"));
    assert_eq!(h.priority, 5);
    assert_eq!(h.description, Some("desc".to_string()));
    assert_eq!(h.goal_text, "g");
}

#[test]
fn preference_request_and_edits() {
    let mut p = UserPreference::from_request("u", "editor", "vim", "tool", false, None);
    assert_eq!(p.preference_type, PreferenceType::Tool);
    assert!(!p.applies_to_automation);
    assert!(p.tags.is_empty());
    p.apply_edits(Some("helix"), Some(vec!["editor".to_string()]), &stamp("2024-01-01T00:00:00Z"));
    assert_eq!(p.preference_value, "helix");
    assert_eq!(p.tags, vec!["editor".to_string()]);
}

#[test]
fn issue_request_and_edits() {
    let mut i = KnownIssue::from_request("u", "leak", "performance", "high", vec!["database".to_string()]);
    assert_eq!(i.severity, IssueSeverity::High);
    assert_eq!(i.issue_category, IssueCategory::Performance);
    assert_eq!(i.affected_components, vec!["database".to_string()]);
    i.apply_edits(Some("slow leak"));
    assert_eq!(i.issue_description, "slow leak");
    i.apply_edits(None);
    assert_eq!(i.issue_description, "slow leak");
}

#[test]
fn todo_request_and_edits() {
    let mut t = ContextualTodo::from_request("u", "task", "goal_step", Some("g1"), Some(9));
    assert_eq!(t.context_type, TodoContextType::GoalStep);
    assert_eq!(t.related_entity_id, Some("g1".to_string()));
    assert_eq!(t.priority, 5);
    assert_eq!(t.status, TodoStatus::Pending);
    t.apply_edits(Some("renamed"), None, &stamp("2024-01-01T00:00:00Z"));
    assert_eq!(t.task_description, "renamed");
    assert_eq!(t.priority, 5);
    t.apply_edits(None, Some(0), &stamp("2024-01-02T00:00:00Z"));
    assert_eq!(t.priority, 1);
}

#[test]
fn missing_lookup_is_not_found() {
    assert_eq!(found::<u32>(None), Err(StoreError::NotFound));
    assert_eq!(found(Some(4u32)), Ok(4));
}
