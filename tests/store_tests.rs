use user_context::audit::UserContextAuditEntry;
use user_context::clock::{ClockReading, Timestamp};
use user_context::rank::text_at_or_before;
use user_context::codes::{
    DecisionCategory, EntityStatus, EntityType, GoalStatus, IssueCategory, IssueSeverity,
    PreferenceType, ResolutionStatus, TodoContextType, TodoStatus,
};
use user_context::decision::{
    find_decision_by_id, find_decisions_by_category, find_decisions_by_scope,
    find_decisions_by_user, UserDecision, CONFIDENCE_SCALE,
};
use user_context::goal::{find_goal_by_id, find_goals_by_project, find_goals_by_status, GoalStep, UserGoal};
use user_context::issue::{
    find_issue_by_id, find_issues_by_component, find_issues_by_severity, KnownIssue,
};
use user_context::preference::{
    find_automation_applicable_preferences, find_preference_by_id, find_preferences_by_type,
    UserPreference,
};
use user_context::row::{
    delete_outcome, id_params, stamp_params, status_params, update_outcome, SqlValue, StoreError,
};
use user_context::scope::ContextScope;
use user_context::todo::{find_todo_by_id, find_todos_by_entity, find_todos_by_status, ContextualTodo};

fn stamp(s: &str) -> Timestamp {
    Timestamp::parse(s).expect("valid timestamp")
}

fn text(s: &str) -> SqlValue {
    SqlValue::Text(s.to_string())
}

fn decision(user: &str, text: &str, category: DecisionCategory) -> UserDecision {
    UserDecision::new(user.to_string(), text.to_string(), category, ContextScope::Global)
}

#[test]
fn decision_row_round_trip() {
    let mut d = UserDecision::new(
        "user123".to_string(),
        "Use Tokio for async runtime".to_string(),
        DecisionCategory::ToolChoice,
        ContextScope::Project("secure_app".to_string()),
    )
    .with_reason("Industry standard, well-maintained".to_string())
    .with_project("secure_app".to_string())
    .with_confidence(950_000);
    d.referenced_items = vec!["async".to_string(), "runtime".to_string()];
    d.updated_at = Some(stamp("2024-05-01T10:00:00+00:00"));
    let row = d.to_row();
    assert_eq!(row.len(), 14);
    assert_eq!(row[4], text("tool_choice"));
    assert_eq!(row[5], text("project_id:secure_app"));
    assert_eq!(row[7], SqlValue::RealMicros(950_000));
    assert_eq!(row[8], text("[\"async\",\"runtime\"]"));
    let back = find_decision_by_id(&vec![row]).unwrap().unwrap();
    assert_eq!(back, d);
}

#[test]
fn new_records_get_fresh_ids() {
    let a = decision("u", "a", DecisionCategory::Other);
    let b = decision("u", "a", DecisionCategory::Other);
    assert_eq!(a.id.len(), 36);
    assert_ne!(a.id, b.id);
    assert_eq!(a.confidence_score, 500_000);
    assert_eq!(a.status, EntityStatus::Active);
    assert!(Timestamp::parse(a.created_at.as_str()).is_some());
}

#[test]
fn confidence_is_clamped() {
    let high = decision("u", "t", DecisionCategory::Other).with_confidence(1_500_000);
    assert_eq!(high.confidence_score, CONFIDENCE_SCALE);
    let low = decision("u", "t", DecisionCategory::Other).with_confidence(-200_000);
    assert_eq!(low.confidence_score, 0);
    let mid = decision("u", "t", DecisionCategory::Other).with_confidence(750_000);
    assert_eq!(mid.confidence_score, 750_000);
}

#[test]
fn applied_count_counts_every_call() {
    let mut d = decision("u", "t", DecisionCategory::Workflow);
    let stamps = [
        "2024-01-01T00:00:00+00:00",
        "2024-01-02T00:00:00+00:00",
        "2024-01-03T00:00:00+00:00",
    ];
    for s in stamps {
        d.increment_applied_count_at(&stamp(s));
    }
    assert_eq!(d.applied_count, 3);
    assert_eq!(d.last_applied, Some(stamp("2024-01-03T00:00:00+00:00")));
    d.increment_applied_count();
    assert_eq!(d.applied_count, 4);
    assert!(d.last_applied.is_some());
}

#[test]
fn archive_sets_status() {
    let mut d = decision("u", "t", DecisionCategory::Workflow);
    d.archive_at(&stamp("2024-02-02T00:00:00Z"));
    assert_eq!(d.status, EntityStatus::Archived);
    assert_eq!(d.updated_at, Some(stamp("2024-02-02T00:00:00Z")));
}

#[test]
fn category_finder_keeps_only_the_users_category() {
    let mut mine_security = decision("user123", "Use TLS", DecisionCategory::Security);
    mine_security.created_at = stamp("2024-01-01T00:00:00+00:00");
    let mut mine_arch = decision("user123", "Use MVC pattern", DecisionCategory::Architecture);
    mine_arch.created_at = stamp("2024-02-01T00:00:00+00:00");
    let theirs_security = decision("other", "Rotate keys", DecisionCategory::Security);
    let rows = vec![mine_security.to_row(), mine_arch.to_row(), theirs_security.to_row()];
    let found = find_decisions_by_category(&rows, "user123", "security").unwrap();
    assert_eq!(found, vec![mine_security.clone()]);
    let all = find_decisions_by_user(&rows, "user123").unwrap();
    assert_eq!(all, vec![mine_arch, mine_security]);
    assert!(find_decisions_by_category(&rows, "nobody", "security").unwrap().is_empty());
}

#[test]
fn scope_finder_matches_encoded_scope() {
    let d = UserDecision::new(
        "u".to_string(),
        "t".to_string(),
        DecisionCategory::Other,
        ContextScope::Workflow("deploy".to_string()),
    );
    let rows = vec![d.to_row()];
    assert_eq!(find_decisions_by_scope(&rows, "u", "workflow:deploy").unwrap().len(), 1);
    assert_eq!(find_decisions_by_scope(&rows, "u", "global").unwrap().len(), 0);
}

#[test]
fn short_row_is_an_invalid_column() {
    let row = vec![text("id"), text("user")];
    assert_eq!(find_decision_by_id(&vec![row]), Err(StoreError::InvalidColumn(2)));
}

#[test]
fn mistyped_column_is_reported() {
    let mut row = decision("u", "t", DecisionCategory::Other).to_row();
    row[11] = SqlValue::Integer(-1);
    assert_eq!(find_decision_by_id(&vec![row]), Err(StoreError::InvalidColumn(11)));
}

#[test]
fn bad_creation_time_is_an_encoding_failure() {
    let mut row = decision("u", "t", DecisionCategory::Other).to_row();
    row[9] = text("yesterday");
    assert_eq!(find_decision_by_id(&vec![row]), Err(StoreError::Encoding(9)));
}

#[test]
fn lenient_fields_fall_back() {
    let mut row = decision("u", "t", DecisionCategory::Other).to_row();
    row[8] = text("not json");
    row[10] = text("not a time");
    row[4] = text("legacy_category");
    let d = find_decision_by_id(&vec![row]).unwrap().unwrap();
    assert!(d.referenced_items.is_empty());
    assert_eq!(d.updated_at, None);
    assert_eq!(d.decision_category, DecisionCategory::Other);
}

#[test]
fn lookup_of_nothing_is_none() {
    assert_eq!(find_decision_by_id(&Vec::new()), Ok(None));
}

#[test]
fn delete_of_missing_id_is_false() {
    assert!(!delete_outcome(0));
    assert!(delete_outcome(1));
}

#[test]
fn update_of_missing_id_is_not_found() {
    assert_eq!(update_outcome(0), Err(StoreError::NotFound));
    assert_eq!(update_outcome(1), Ok(()));
}

#[test]
fn statement_values_are_in_order() {
    let now = stamp("2024-03-03T03:03:03+00:00");
    assert_eq!(id_params("abc"), vec![text("abc")]);
    assert_eq!(stamp_params("abc", &now), vec![text("2024-03-03T03:03:03+00:00"), text("abc")]);
    assert_eq!(
        status_params("abc", "fixed", &now),
        vec![text("fixed"), text("2024-03-03T03:03:03+00:00"), text("abc")]
    );
    let d = decision("u", "t", DecisionCategory::Security);
    let p = d.update_params(&now);
    assert_eq!(p.len(), 12);
    assert_eq!(p[2], text("security"));
    assert_eq!(p[4], SqlValue::Null);
    assert_eq!(p[6], text("[]"));
    assert_eq!(p[7], text("2024-03-03T03:03:03+00:00"));
    assert_eq!(p[8], SqlValue::Integer(0));
    assert_eq!(p[11], text(&d.id));
}

#[test]
fn goal_completion_percentage() {
    let mut g = UserGoal::new("user123".to_string(), "Test goal".to_string());
    assert_eq!(g.completion_percentage(), 0);
    g.add_step(GoalStep::new(1, "a".to_string()));
    g.add_step(GoalStep::new(2, "b".to_string()));
    g.add_step(GoalStep::new(3, "c".to_string()));
    g.steps[0].status = GoalStatus::Completed;
    assert_eq!(g.completed_steps(), 1);
    assert_eq!(g.completion_percentage(), 3333);
    g.steps[1].status = GoalStatus::Completed;
    g.steps[2].status = GoalStatus::Completed;
    assert_eq!(g.completion_percentage(), 10_000);
}

#[test]
fn goal_builders_and_status() {
    let mut g = UserGoal::new("u".to_string(), "g".to_string())
        .with_description("d".to_string())
        .with_priority(9);
    assert_eq!(g.priority, 5);
    assert_eq!(g.description, Some("d".to_string()));
    assert_eq!(UserGoal::new("u".to_string(), "g".to_string()).with_priority(0).priority, 1);
    g.mark_started_at(&stamp("2024-01-01T00:00:00Z"));
    assert_eq!(g.status, GoalStatus::InProgress);
    g.mark_completed_at(&stamp("2024-01-05T00:00:00Z"));
    assert_eq!(g.status, GoalStatus::Completed);
    assert_eq!(g.completion_date, Some(stamp("2024-01-05T00:00:00Z")));
}

#[test]
fn goal_row_round_trip() {
    let mut g = UserGoal::new("user123".to_string(), "Complete authentication".to_string())
        .with_description("login and tokens".to_string());
    g.project_id = Some("secure_app".to_string());
    g.add_step(GoalStep::new(1, "design".to_string()).with_due_date(stamp("2024-06-01T00:00:00+00:00")));
    g.add_step(GoalStep::new(2, "build \"it\"".to_string()));
    g.steps[0].status = GoalStatus::Completed;
    g.blockers = vec!["approval".to_string()];
    g.related_todos = vec!["t1".to_string(), "t2".to_string()];
    let row = g.to_row();
    assert_eq!(row.len(), 14);
    assert_eq!(
        row[7],
        text("[[1,\"design\",\"completed\",\"2024-06-01T00:00:00+00:00\"],[2,\"build \\\"it\\\"\",\"planned\",null]]")
    );
    let back = find_goal_by_id(&vec![row.clone()]).unwrap().unwrap();
    assert_eq!(back, g);
    let rows = vec![row];
    assert_eq!(find_goals_by_status(&rows, "user123", "planned").unwrap().len(), 1);
    assert_eq!(find_goals_by_project(&rows, "user123", "secure_app").unwrap().len(), 1);
    assert_eq!(find_goals_by_project(&rows, "user123", "other").unwrap().len(), 0);
}

#[test]
fn issue_symptoms_keep_their_order() {
    let mut issue = KnownIssue::new(
        "user123".to_string(),
        "Memory leak in connection pool".to_string(),
        IssueSeverity::High,
        IssueCategory::Performance,
    );
    issue.add_symptom("high memory".to_string());
    issue.add_symptom("timeouts".to_string());
    let row = issue.to_row(&stamp("2024-01-01T00:00:00+00:00"));
    assert_eq!(row.len(), 17);
    assert_eq!(row[3], text("[\"high memory\",\"timeouts\"]"));
    assert_eq!(row[16], SqlValue::Null);
    let back = find_issue_by_id(&vec![row]).unwrap().unwrap();
    assert_eq!(back.symptoms, vec!["high memory".to_string(), "timeouts".to_string()]);
    assert_eq!(back, issue);
}

#[test]
fn issue_resolution_and_workaround() {
    let mut issue = KnownIssue::new("u".to_string(), "d".to_string(), IssueSeverity::Low, IssueCategory::Data)
        .with_workaround("restart".to_string());
    assert_eq!(issue.workaround, Some("restart".to_string()));
    assert_eq!(issue.resolution_status, ResolutionStatus::Unresolved);
    issue.mark_resolved_at(ResolutionStatus::Fixed, &stamp("2024-01-01T00:00:00Z"));
    assert_eq!(issue.resolution_status, ResolutionStatus::Fixed);
    assert_eq!(issue.resolution_date, Some(stamp("2024-01-01T00:00:00Z")));
    let p = issue.update_params(&stamp("2024-01-02T00:00:00Z"));
    assert_eq!(p.len(), 14);
    assert_eq!(p[7], text("data"));
    assert_eq!(p[8], text("fixed"));
    assert_eq!(p[11], text("[]"));
    assert_eq!(p[12], text("2024-01-02T00:00:00Z"));
    assert_eq!(p[13], text(&issue.id));
}

#[test]
fn component_finder_filters_in_memory() {
    let now = stamp("2024-01-01T00:00:00+00:00");
    let mut a = KnownIssue::new("u".to_string(), "a".to_string(), IssueSeverity::Critical, IssueCategory::Data);
    a.affected_components = vec!["database".to_string(), "cache".to_string()];
    let mut b = KnownIssue::new("u".to_string(), "b".to_string(), IssueSeverity::Low, IssueCategory::Data);
    b.affected_components = vec!["api".to_string()];
    let mut c = KnownIssue::new("v".to_string(), "c".to_string(), IssueSeverity::Low, IssueCategory::Data);
    c.affected_components = vec!["database".to_string()];
    let rows = vec![a.to_row(&now), b.to_row(&now), c.to_row(&now)];
    assert_eq!(find_issues_by_component(&rows, "u", "database").unwrap(), vec![a]);
    assert_eq!(find_issues_by_severity(&rows, "u", "low").unwrap(), vec![b]);
    assert!(find_issues_by_component(&rows, "u", "data").unwrap().is_empty());
}

#[test]
fn preference_round_trip_and_finders() {
    let mut p = UserPreference::new(
        "user123".to_string(),
        "code_style".to_string(),
        "snake_case".to_string(),
        PreferenceType::Pattern,
        ContextScope::Global,
    )
    .with_rationale("Consistent with team standards".to_string())
    .with_tags(vec!["style".to_string(), "rust".to_string()]);
    assert_eq!(p.frequency_observed, 1);
    assert_eq!(p.priority, 3);
    assert!(p.applies_to_automation);
    p.increment_frequency_at(&stamp("2024-01-01T00:00:00Z"));
    assert_eq!(p.frequency_observed, 2);
    assert_eq!(p.last_referenced, Some(stamp("2024-01-01T00:00:00Z")));
    let mut q = UserPreference::new(
        "user123".to_string(),
        "editor".to_string(),
        "vim".to_string(),
        PreferenceType::Tool,
        ContextScope::Global,
    );
    q.applies_to_automation = false;
    let rows = vec![p.to_row(), q.to_row()];
    assert_eq!(rows[0][6], SqlValue::Integer(1));
    assert_eq!(rows[1][6], SqlValue::Integer(0));
    assert_eq!(find_preference_by_id(&vec![rows[0].clone()]).unwrap().unwrap(), p);
    assert_eq!(find_automation_applicable_preferences(&rows, "user123").unwrap(), vec![p.clone()]);
    assert_eq!(find_preferences_by_type(&rows, "user123", "tool").unwrap(), vec![q]);
}

#[test]
fn todo_round_trip_and_finders() {
    let mut t = ContextualTodo::new(
        "user123".to_string(),
        "Merge PR #123".to_string(),
        TodoContextType::DecisionImplementation,
    );
    t.related_entity_id = Some("dec_1".to_string());
    t.related_entity_type = Some(EntityType::UserDecision);
    t.project_id = Some("project_alpha".to_string());
    t.due_date = Some(stamp("2024-07-01T12:00:00+00:00"));
    assert_eq!(t.status, TodoStatus::Pending);
    let row = t.to_row();
    assert_eq!(row[5], text("user_decision"));
    assert_eq!(find_todo_by_id(&vec![row.clone()]).unwrap().unwrap(), t);
    let other = ContextualTodo::new("someone".to_string(), "x".to_string(), TodoContextType::Other);
    let rows = vec![row, other.to_row()];
    assert_eq!(find_todos_by_entity(&rows, "dec_1").unwrap(), vec![t.clone()]);
    assert_eq!(find_todos_by_status(&rows, "user123", "pending").unwrap(), vec![t.clone()]);
    t.mark_started_at(&stamp("2024-07-02T00:00:00Z"));
    assert_eq!(t.status, TodoStatus::InProgress);
    t.mark_completed_at(&stamp("2024-07-03T00:00:00Z"));
    assert_eq!(t.status, TodoStatus::Completed);
    assert_eq!(t.completion_date, Some(stamp("2024-07-03T00:00:00Z")));
}

#[test]
fn timestamps_parse_strictly() {
    assert!(Timestamp::parse("2024-01-01T00:00:00Z").is_some());
    assert!(Timestamp::parse("not a date").is_none());
    assert!(Timestamp::parse("2024-13-01T00:00:00Z").is_none());
    let now = Timestamp::now();
    assert!(Timestamp::parse(now.as_str()).is_some());
    assert_eq!(stamp("2024-01-01T00:00:00Z").as_str(), "2024-01-01T00:00:00Z");
}

#[test]
fn audit_entry_records_a_creation() {
    let e = UserContextAuditEntry::create(
        "user123".to_string(),
        "user_decision".to_string(),
        "dec_1".to_string(),
        "{}".to_string(),
        "assistant".to_string(),
    );
    assert_eq!(e.action, "create");
    assert_eq!(e.old_value, None);
    assert_eq!(e.new_value, Some("{}".to_string()));
    assert_eq!(e.id.len(), 36);
}

#[test]
fn new_issue_reloads_its_symptoms() {
    let mut issue = KnownIssue::new(
        "u".to_string(),
        "d".to_string(),
        IssueSeverity::High,
        IssueCategory::Performance,
    );
    issue.add_symptom("high memory".to_string());
    issue.add_symptom("timeouts".to_string());
    let back = find_issue_by_id(&vec![issue.to_row(&Timestamp::now())]).unwrap().unwrap();
    assert_eq!(back.symptoms, vec!["high memory".to_string(), "timeouts".to_string()]);
    assert_eq!(back, issue);
}

#[test]
fn instants_render_as_rfc3339() {
    assert_eq!(Timestamp::from_instant(0, 0).as_str(), "1970-01-01T00:00:00+00:00");
    assert_eq!(
        Timestamp::from_instant(1_700_000_000, 500_000_000).as_str(),
        "2023-11-14T22:13:20.500+00:00"
    );
}

#[test]
fn every_goal_field_is_updated() {
    let mut g = UserGoal::new("u".to_string(), "g".to_string());
    g.project_id = Some("alpha".to_string());
    let p = g.update_params(&stamp("2024-01-01T00:00:00Z"));
    assert_eq!(p.len(), 12);
    assert_eq!(p[2], text("alpha"));
    assert_eq!(p[6], text("2024-01-01T00:00:00Z"));
    assert_eq!(p[11], text(&g.id));
}

#[test]
fn every_preference_and_todo_field_is_updated() {
    let p = UserPreference::new(
        "u".to_string(),
        "editor".to_string(),
        "vim".to_string(),
        PreferenceType::Tool,
        ContextScope::Workflow("dev".to_string()),
    );
    let v = p.update_params(&stamp("2024-01-01T00:00:00Z"));
    assert_eq!(v.len(), 12);
    assert_eq!(v[0], text("editor"));
    assert_eq!(v[2], text("tool"));
    assert_eq!(v[3], text("workflow:dev"));
    assert_eq!(v[9], text("2024-01-01T00:00:00Z"));
    let mut t = ContextualTodo::new("u".to_string(), "t".to_string(), TodoContextType::GoalStep);
    t.related_entity_type = Some(EntityType::UserGoal);
    let w = t.update_params(&stamp("2024-01-01T00:00:00Z"));
    assert_eq!(w.len(), 13);
    assert_eq!(w[1], text("goal_step"));
    assert_eq!(w[3], text("user_goal"));
    assert_eq!(w[10], text("2024-01-01T00:00:00Z"));
    assert_eq!(w[12], text(&t.id));
}

#[test]
fn decisions_list_newest_first() {
    let mut old = decision("u", "old", DecisionCategory::Other);
    old.created_at = stamp("2023-05-01T00:00:00+00:00");
    let mut new = decision("u", "new", DecisionCategory::Other);
    new.created_at = stamp("2024-05-01T00:00:00.250+00:00");
    let mut mid = decision("u", "mid", DecisionCategory::Other);
    mid.created_at = stamp("2024-05-01T00:00:00+00:00");
    let rows = vec![old.to_row(), new.to_row(), mid.to_row()];
    assert_eq!(find_decisions_by_user(&rows, "u").unwrap(), vec![new, mid, old]);
}

#[test]
fn goals_list_by_priority_then_newest() {
    let mut a = UserGoal::new("u".to_string(), "a".to_string()).with_priority(2);
    a.created_at = stamp("2024-01-01T00:00:00+00:00");
    let mut b = UserGoal::new("u".to_string(), "b".to_string()).with_priority(1);
    b.created_at = stamp("2023-01-01T00:00:00+00:00");
    let mut c = UserGoal::new("u".to_string(), "c".to_string()).with_priority(2);
    c.created_at = stamp("2024-06-01T00:00:00+00:00");
    let rows = vec![a.to_row(), b.to_row(), c.to_row()];
    assert_eq!(find_goals_by_status(&rows, "u", "planned").unwrap(), vec![b, c, a]);
}

#[test]
fn todos_list_by_priority_then_due_date() {
    let mut a = ContextualTodo::from_request("u", "a", "other", None, Some(2));
    a.due_date = Some(stamp("2024-03-01T00:00:00+00:00"));
    let b = ContextualTodo::from_request("u", "b", "other", None, Some(2));
    let mut c = ContextualTodo::from_request("u", "c", "other", None, Some(1));
    c.due_date = Some(stamp("2025-01-01T00:00:00+00:00"));
    let rows = vec![a.to_row(), b.to_row(), c.to_row()];
    assert_eq!(find_todos_by_status(&rows, "u", "pending").unwrap(), vec![c, b, a]);
}

#[test]
fn issues_and_preferences_list_in_order() {
    let now = stamp("2024-01-01T00:00:00+00:00");
    let mut early = KnownIssue::new("u".to_string(), "e".to_string(), IssueSeverity::Low, IssueCategory::Data);
    early.learned_date = stamp("2023-01-01T00:00:00+00:00");
    early.affected_components = vec!["db".to_string()];
    let mut late = KnownIssue::new("u".to_string(), "l".to_string(), IssueSeverity::Low, IssueCategory::Data);
    late.learned_date = stamp("2024-01-01T00:00:00+00:00");
    late.affected_components = vec!["db".to_string()];
    let rows = vec![early.to_row(&now), late.to_row(&now)];
    assert_eq!(find_issues_by_component(&rows, "u", "db").unwrap(), vec![late, early]);
    let mut low = UserPreference::new("u".to_string(), "a".to_string(), "x".to_string(), PreferenceType::Tool, ContextScope::Global);
    low.priority = 4;
    let mut high = UserPreference::new("u".to_string(), "b".to_string(), "y".to_string(), PreferenceType::Tool, ContextScope::Global);
    high.priority = 1;
    let prows = vec![low.to_row(), high.to_row()];
    assert_eq!(find_automation_applicable_preferences(&prows, "u").unwrap(), vec![high, low]);
}

#[test]
fn clock_readings_are_held_in_range() {
    assert_eq!(
        Timestamp::from_clock_reading(ClockReading::BeforeEpoch(5, 0)).as_str(),
        "1970-01-01T00:00:00+00:00"
    );
    assert_eq!(
        Timestamp::from_clock_reading(ClockReading::AfterEpoch(u64::MAX, 5)).as_str(),
        "9999-12-31T23:59:59.999999999+00:00"
    );
    assert_eq!(
        Timestamp::from_clock_reading(ClockReading::AfterEpoch(60, 2_000_000_000)).as_str(),
        "1970-01-01T00:01:00.999999999+00:00"
    );
    assert_eq!(
        Timestamp::from_clock_reading(ClockReading::AfterEpoch(86_400, 1_000)).as_str(),
        "1970-01-02T00:00:00.000001+00:00"
    );
}

#[test]
fn texts_compare_by_code_point() {
    assert!(text_at_or_before("2024-01-01", "2024-01-02"));
    assert!(!text_at_or_before("2024-01-02", "2024-01-01"));
    assert!(text_at_or_before("abc", "abc"));
    assert!(text_at_or_before("ab", "abc"));
    assert!(!text_at_or_before("abc", "ab"));
    assert!(text_at_or_before("Z", "a"));
}
