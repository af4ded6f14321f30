use user_context::codes::{
    DecisionCategory, EntityStatus, EntityType, GoalStatus, IssueCategory, IssueSeverity,
    PreferenceType, ResolutionStatus, TodoContextType, TodoStatus,
};
use user_context::scope::ContextScope;

#[test]
fn test_issue_severity_enum_conversions() {
    assert_eq!(IssueSeverity::Low.as_str(), "low");
    assert_eq!(IssueSeverity::Medium.as_str(), "medium");
    assert_eq!(IssueSeverity::High.as_str(), "high");
    assert_eq!(IssueSeverity::Critical.as_str(), "critical");
}

#[test]
fn decision_category_codes_round_trip() {
    for c in [
        DecisionCategory::Architecture,
        DecisionCategory::ToolChoice,
        DecisionCategory::Constraint,
        DecisionCategory::Workflow,
        DecisionCategory::Performance,
        DecisionCategory::Security,
        DecisionCategory::Other,
    ] {
        assert_eq!(DecisionCategory::from_str(c.as_str()), c);
    }
    assert_eq!(DecisionCategory::ToolChoice.as_str(), "tool_choice");
    assert_eq!(DecisionCategory::from_str("bogus"), DecisionCategory::Other);
    assert_eq!(DecisionCategory::from_str(""), DecisionCategory::Other);
}

#[test]
fn other_enum_codes_round_trip() {
    for s in [GoalStatus::Planned, GoalStatus::InProgress, GoalStatus::Completed, GoalStatus::Blocked] {
        assert_eq!(GoalStatus::from_str(s.as_str()), s);
    }
    for t in [
        PreferenceType::Tool,
        PreferenceType::Framework,
        PreferenceType::Constraint,
        PreferenceType::Pattern,
        PreferenceType::Other,
    ] {
        assert_eq!(PreferenceType::from_str(t.as_str()), t);
    }
    for c in [
        IssueCategory::Integration,
        IssueCategory::Performance,
        IssueCategory::Deployment,
        IssueCategory::Data,
        IssueCategory::Workflow,
        IssueCategory::Other,
    ] {
        assert_eq!(IssueCategory::from_str(c.as_str()), c);
    }
    for r in [
        ResolutionStatus::Unresolved,
        ResolutionStatus::WorkaroundAvailable,
        ResolutionStatus::Fixed,
        ResolutionStatus::NoActionNeeded,
    ] {
        assert_eq!(ResolutionStatus::from_str(r.as_str()), r);
    }
    for c in [
        TodoContextType::DecisionImplementation,
        TodoContextType::GoalStep,
        TodoContextType::IssueResolution,
        TodoContextType::PreferenceAdoption,
        TodoContextType::Other,
    ] {
        assert_eq!(TodoContextType::from_str(c.as_str()), c);
    }
    for s in [TodoStatus::Pending, TodoStatus::InProgress, TodoStatus::Completed, TodoStatus::Blocked] {
        assert_eq!(TodoStatus::from_str(s.as_str()), s);
    }
    for e in [
        EntityType::UserDecision,
        EntityType::UserGoal,
        EntityType::KnownIssue,
        EntityType::UserPreference,
    ] {
        assert_eq!(EntityType::from_str(e.as_str()), e);
    }
    for s in [EntityStatus::Active, EntityStatus::Archived, EntityStatus::Superseded] {
        assert_eq!(EntityStatus::from_str(s.as_str()), s);
    }
}

#[test]
fn unknown_codes_fall_back() {
    assert_eq!(IssueSeverity::from_str("urgent"), IssueSeverity::Critical);
    assert_eq!(GoalStatus::from_str("on_hold"), GoalStatus::Planned);
    assert_eq!(PreferenceType::from_str("Tool"), PreferenceType::Other);
    assert_eq!(IssueCategory::from_str("perf"), IssueCategory::Other);
    assert_eq!(ResolutionStatus::from_str("open"), ResolutionStatus::Unresolved);
    assert_eq!(TodoContextType::from_str("code_review"), TodoContextType::Other);
    assert_eq!(TodoStatus::from_str("deferred"), TodoStatus::Pending);
    assert_eq!(EntityType::from_str("project"), EntityType::UserDecision);
    assert_eq!(EntityStatus::from_str("deleted"), EntityStatus::Active);
}

#[test]
fn scope_encodes_to_one_string() {
    assert_eq!(ContextScope::Global.to_string(), "global");
    assert_eq!(ContextScope::Project("alpha".to_string()).to_string(), "project_id:alpha");
    assert_eq!(ContextScope::Workflow("deploy".to_string()).to_string(), "workflow:deploy");
}

#[test]
fn scope_decode_inverts_encode() {
    for v in [
        ContextScope::Global,
        ContextScope::Project("alpha".to_string()),
        ContextScope::Project(String::new()),
        ContextScope::Workflow("release:nightly".to_string()),
        ContextScope::Workflow("é".to_string()),
    ] {
        assert_eq!(ContextScope::from_str(&v.to_string()), v);
    }
}

#[test]
fn malformed_scope_decodes_to_global() {
    assert_eq!(ContextScope::from_str("bogus"), ContextScope::Global);
    assert_eq!(ContextScope::from_str("project:alpha"), ContextScope::Global);
    assert_eq!(ContextScope::from_str(""), ContextScope::Global);
    assert_eq!(ContextScope::from_str("project_id:"), ContextScope::Project(String::new()));
}

#[test]
fn scope_type_names_the_kind() {
    assert_eq!(ContextScope::Global.scope_type(), "global");
    assert_eq!(ContextScope::Project("x".to_string()).scope_type(), "project");
    assert_eq!(ContextScope::Workflow("x".to_string()).scope_type(), "workflow");
}
