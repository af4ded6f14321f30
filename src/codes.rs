use vstd::prelude::*;
use crate::text::same_text;

verus! {

/// What a decision is about.
#[derive(Debug, Clone, Copy, PartialEq, Eq, Structural)]
pub enum DecisionCategory {
    Architecture,
    ToolChoice,
    Constraint,
    Workflow,
    Performance,
    Security,
    Other,
}

impl DecisionCategory {
    /// The canonical code of the variant.
    pub open spec fn code(self) -> Seq<char> {
        match self {
            DecisionCategory::Architecture => "architecture"@,
            DecisionCategory::ToolChoice => "tool_choice"@,
            DecisionCategory::Constraint => "constraint"@,
            DecisionCategory::Workflow => "workflow"@,
            DecisionCategory::Performance => "performance"@,
            DecisionCategory::Security => "security"@,
            DecisionCategory::Other => "other"@,
        }
    }

    /// The variant a code stands for. Anything unrecognised maps to `Other`.
    pub open spec fn from_code(s: Seq<char>) -> DecisionCategory {
        if s == "architecture"@ {
            DecisionCategory::Architecture
        } else if s == "tool_choice"@ {
            DecisionCategory::ToolChoice
        } else if s == "constraint"@ {
            DecisionCategory::Constraint
        } else if s == "workflow"@ {
            DecisionCategory::Workflow
        } else if s == "performance"@ {
            DecisionCategory::Performance
        } else if s == "security"@ {
            DecisionCategory::Security
        } else {
            DecisionCategory::Other
        }
    }

    /// The canonical code of the variant.
    pub fn as_str(&self) -> (r: &'static str)
        ensures
            r@ == self.code(),
    {
        match self {
            DecisionCategory::Architecture => "architecture",
            DecisionCategory::ToolChoice => "tool_choice",
            DecisionCategory::Constraint => "constraint",
            DecisionCategory::Workflow => "workflow",
            DecisionCategory::Performance => "performance",
            DecisionCategory::Security => "security",
            DecisionCategory::Other => "other",
        }
    }

    /// Total decoding of a code. Anything unrecognised maps to `Other`.
    pub fn from_str(s: &str) -> (r: DecisionCategory)
        ensures
            r == DecisionCategory::from_code(s@),
    {
        if same_text(s, "architecture") {
            DecisionCategory::Architecture
        } else if same_text(s, "tool_choice") {
            DecisionCategory::ToolChoice
        } else if same_text(s, "constraint") {
            DecisionCategory::Constraint
        } else if same_text(s, "workflow") {
            DecisionCategory::Workflow
        } else if same_text(s, "performance") {
            DecisionCategory::Performance
        } else if same_text(s, "security") {
            DecisionCategory::Security
        } else {
            DecisionCategory::Other
        }
    }

    /// Decoding the code of a variant gives the variant back.
    pub proof fn lemma_code_round_trip(self)
        ensures
            DecisionCategory::from_code(self.code()) == self,
    {
        reveal_strlit("architecture");
        reveal_strlit("tool_choice");
        reveal_strlit("constraint");
        reveal_strlit("workflow");
        reveal_strlit("performance");
        reveal_strlit("security");
        reveal_strlit("other");
        assert("architecture"@.len() == 12);
        assert("tool_choice"@.len() == 11);
        assert("constraint"@.len() == 10);
        assert("workflow"@.len() == 8);
        assert("performance"@.len() == 11);
        assert("security"@.len() == 8);
        assert("other"@.len() == 5);
        assert("tool_choice"@[0] != "performance"@[0]);
        assert("workflow"@[0] != "security"@[0]);
    }
}

/// Where a goal, or one of its steps, stands.
#[derive(Debug, Clone, Copy, PartialEq, Eq, Structural)]
pub enum GoalStatus {
    Planned,
    InProgress,
    Completed,
    Blocked,
}

impl GoalStatus {
    /// The canonical code of the variant.
    pub open spec fn code(self) -> Seq<char> {
        match self {
            GoalStatus::Planned => "planned"@,
            GoalStatus::InProgress => "in_progress"@,
            GoalStatus::Completed => "completed"@,
            GoalStatus::Blocked => "blocked"@,
        }
    }

    /// The variant a code stands for. Anything unrecognised maps to `Planned`.
    pub open spec fn from_code(s: Seq<char>) -> GoalStatus {
        if s == "in_progress"@ {
            GoalStatus::InProgress
        } else if s == "completed"@ {
            GoalStatus::Completed
        } else if s == "blocked"@ {
            GoalStatus::Blocked
        } else {
            GoalStatus::Planned
        }
    }

    /// The canonical code of the variant.
    pub fn as_str(&self) -> (r: &'static str)
        ensures
            r@ == self.code(),
    {
        match self {
            GoalStatus::Planned => "planned",
            GoalStatus::InProgress => "in_progress",
            GoalStatus::Completed => "completed",
            GoalStatus::Blocked => "blocked",
        }
    }

    /// Total decoding of a code. Anything unrecognised maps to `Planned`.
    pub fn from_str(s: &str) -> (r: GoalStatus)
        ensures
            r == GoalStatus::from_code(s@),
    {
        if same_text(s, "in_progress") {
            GoalStatus::InProgress
        } else if same_text(s, "completed") {
            GoalStatus::Completed
        } else if same_text(s, "blocked") {
            GoalStatus::Blocked
        } else {
            GoalStatus::Planned
        }
    }

    /// Decoding the code of a variant gives the variant back.
    pub proof fn lemma_code_round_trip(self)
        ensures
            GoalStatus::from_code(self.code()) == self,
    {
        reveal_strlit("planned");
        reveal_strlit("in_progress");
        reveal_strlit("completed");
        reveal_strlit("blocked");
        assert("planned"@.len() == 7);
        assert("in_progress"@.len() == 11);
        assert("completed"@.len() == 9);
        assert("blocked"@.len() == 7);
        assert("planned"@[0] != "blocked"@[0]);
    }
}

/// What kind of thing a preference concerns.
#[derive(Debug, Clone, Copy, PartialEq, Eq, Structural)]
pub enum PreferenceType {
    Tool,
    Framework,
    Constraint,
    Pattern,
    Other,
}

impl PreferenceType {
    /// The canonical code of the variant.
    pub open spec fn code(self) -> Seq<char> {
        match self {
            PreferenceType::Tool => "tool"@,
            PreferenceType::Framework => "framework"@,
            PreferenceType::Constraint => "constraint"@,
            PreferenceType::Pattern => "pattern"@,
            PreferenceType::Other => "other"@,
        }
    }

    /// The variant a code stands for. Anything unrecognised maps to `Other`.
    pub open spec fn from_code(s: Seq<char>) -> PreferenceType {
        if s == "tool"@ {
            PreferenceType::Tool
        } else if s == "framework"@ {
            PreferenceType::Framework
        } else if s == "constraint"@ {
            PreferenceType::Constraint
        } else if s == "pattern"@ {
            PreferenceType::Pattern
        } else {
            PreferenceType::Other
        }
    }

    /// The canonical code of the variant.
    pub fn as_str(&self) -> (r: &'static str)
        ensures
            r@ == self.code(),
    {
        match self {
            PreferenceType::Tool => "tool",
            PreferenceType::Framework => "framework",
            PreferenceType::Constraint => "constraint",
            PreferenceType::Pattern => "pattern",
            PreferenceType::Other => "other",
        }
    }

    /// Total decoding of a code. Anything unrecognised maps to `Other`.
    pub fn from_str(s: &str) -> (r: PreferenceType)
        ensures
            r == PreferenceType::from_code(s@),
    {
        if same_text(s, "tool") {
            PreferenceType::Tool
        } else if same_text(s, "framework") {
            PreferenceType::Framework
        } else if same_text(s, "constraint") {
            PreferenceType::Constraint
        } else if same_text(s, "pattern") {
            PreferenceType::Pattern
        } else {
            PreferenceType::Other
        }
    }

    /// Decoding the code of a variant gives the variant back.
    pub proof fn lemma_code_round_trip(self)
        ensures
            PreferenceType::from_code(self.code()) == self,
    {
        reveal_strlit("tool");
        reveal_strlit("framework");
        reveal_strlit("constraint");
        reveal_strlit("pattern");
        reveal_strlit("other");
        assert("tool"@.len() == 4);
        assert("framework"@.len() == 9);
        assert("constraint"@.len() == 10);
        assert("pattern"@.len() == 7);
        assert("other"@.len() == 5);
    }
}

/// How severe a known issue is, from the most severe down.
#[derive(Debug, Clone, Copy, PartialEq, Eq, Structural)]
pub enum IssueSeverity {
    Critical,
    High,
    Medium,
    Low,
}

impl IssueSeverity {
    /// The canonical code of the variant.
    pub open spec fn code(self) -> Seq<char> {
        match self {
            IssueSeverity::Critical => "critical"@,
            IssueSeverity::High => "high"@,
            IssueSeverity::Medium => "medium"@,
            IssueSeverity::Low => "low"@,
        }
    }

    /// The variant a code stands for. An unrecognised code maps to the most severe variant, `Critical`.
    pub open spec fn from_code(s: Seq<char>) -> IssueSeverity {
        if s == "high"@ {
            IssueSeverity::High
        } else if s == "medium"@ {
            IssueSeverity::Medium
        } else if s == "low"@ {
            IssueSeverity::Low
        } else {
            IssueSeverity::Critical
        }
    }

    /// The canonical code of the variant.
    pub fn as_str(&self) -> (r: &'static str)
        ensures
            r@ == self.code(),
    {
        match self {
            IssueSeverity::Critical => "critical",
            IssueSeverity::High => "high",
            IssueSeverity::Medium => "medium",
            IssueSeverity::Low => "low",
        }
    }

    /// Total decoding of a code. An unrecognised code maps to the most severe variant, `Critical`.
    pub fn from_str(s: &str) -> (r: IssueSeverity)
        ensures
            r == IssueSeverity::from_code(s@),
    {
        if same_text(s, "high") {
            IssueSeverity::High
        } else if same_text(s, "medium") {
            IssueSeverity::Medium
        } else if same_text(s, "low") {
            IssueSeverity::Low
        } else {
            IssueSeverity::Critical
        }
    }

    /// Decoding the code of a variant gives the variant back.
    pub proof fn lemma_code_round_trip(self)
        ensures
            IssueSeverity::from_code(self.code()) == self,
    {
        reveal_strlit("critical");
        reveal_strlit("high");
        reveal_strlit("medium");
        reveal_strlit("low");
        assert("critical"@.len() == 8);
        assert("high"@.len() == 4);
        assert("medium"@.len() == 6);
        assert("low"@.len() == 3);
    }
}

/// Which area a known issue belongs to.
#[derive(Debug, Clone, Copy, PartialEq, Eq, Structural)]
pub enum IssueCategory {
    Integration,
    Performance,
    Deployment,
    Data,
    Workflow,
    Other,
}

impl IssueCategory {
    /// The canonical code of the variant.
    pub open spec fn code(self) -> Seq<char> {
        match self {
            IssueCategory::Integration => "integration"@,
            IssueCategory::Performance => "performance"@,
            IssueCategory::Deployment => "deployment"@,
            IssueCategory::Data => "data"@,
            IssueCategory::Workflow => "workflow"@,
            IssueCategory::Other => "other"@,
        }
    }

    /// The variant a code stands for. Anything unrecognised maps to `Other`.
    pub open spec fn from_code(s: Seq<char>) -> IssueCategory {
        if s == "integration"@ {
            IssueCategory::Integration
        } else if s == "performance"@ {
            IssueCategory::Performance
        } else if s == "deployment"@ {
            IssueCategory::Deployment
        } else if s == "data"@ {
            IssueCategory::Data
        } else if s == "workflow"@ {
            IssueCategory::Workflow
        } else {
            IssueCategory::Other
        }
    }

    /// The canonical code of the variant.
    pub fn as_str(&self) -> (r: &'static str)
        ensures
            r@ == self.code(),
    {
        match self {
            IssueCategory::Integration => "integration",
            IssueCategory::Performance => "performance",
            IssueCategory::Deployment => "deployment",
            IssueCategory::Data => "data",
            IssueCategory::Workflow => "workflow",
            IssueCategory::Other => "other",
        }
    }

    /// Total decoding of a code. Anything unrecognised maps to `Other`.
    pub fn from_str(s: &str) -> (r: IssueCategory)
        ensures
            r == IssueCategory::from_code(s@),
    {
        if same_text(s, "integration") {
            IssueCategory::Integration
        } else if same_text(s, "performance") {
            IssueCategory::Performance
        } else if same_text(s, "deployment") {
            IssueCategory::Deployment
        } else if same_text(s, "data") {
            IssueCategory::Data
        } else if same_text(s, "workflow") {
            IssueCategory::Workflow
        } else {
            IssueCategory::Other
        }
    }

    /// Decoding the code of a variant gives the variant back.
    pub proof fn lemma_code_round_trip(self)
        ensures
            IssueCategory::from_code(self.code()) == self,
    {
        reveal_strlit("integration");
        reveal_strlit("performance");
        reveal_strlit("deployment");
        reveal_strlit("data");
        reveal_strlit("workflow");
        reveal_strlit("other");
        assert("integration"@.len() == 11);
        assert("performance"@.len() == 11);
        assert("deployment"@.len() == 10);
        assert("data"@.len() == 4);
        assert("workflow"@.len() == 8);
        assert("other"@.len() == 5);
        assert("integration"@[0] != "performance"@[0]);
    }
}

/// How far a known issue has been resolved.
#[derive(Debug, Clone, Copy, PartialEq, Eq, Structural)]
pub enum ResolutionStatus {
    Unresolved,
    WorkaroundAvailable,
    Fixed,
    NoActionNeeded,
}

impl ResolutionStatus {
    /// The canonical code of the variant.
    pub open spec fn code(self) -> Seq<char> {
        match self {
            ResolutionStatus::Unresolved => "unresolved"@,
            ResolutionStatus::WorkaroundAvailable => "workaround_available"@,
            ResolutionStatus::Fixed => "fixed"@,
            ResolutionStatus::NoActionNeeded => "no_action_needed"@,
        }
    }

    /// The variant a code stands for. Anything unrecognised maps to `Unresolved`.
    pub open spec fn from_code(s: Seq<char>) -> ResolutionStatus {
        if s == "workaround_available"@ {
            ResolutionStatus::WorkaroundAvailable
        } else if s == "fixed"@ {
            ResolutionStatus::Fixed
        } else if s == "no_action_needed"@ {
            ResolutionStatus::NoActionNeeded
        } else {
            ResolutionStatus::Unresolved
        }
    }

    /// The canonical code of the variant.
    pub fn as_str(&self) -> (r: &'static str)
        ensures
            r@ == self.code(),
    {
        match self {
            ResolutionStatus::Unresolved => "unresolved",
            ResolutionStatus::WorkaroundAvailable => "workaround_available",
            ResolutionStatus::Fixed => "fixed",
            ResolutionStatus::NoActionNeeded => "no_action_needed",
        }
    }

    /// Total decoding of a code. Anything unrecognised maps to `Unresolved`.
    pub fn from_str(s: &str) -> (r: ResolutionStatus)
        ensures
            r == ResolutionStatus::from_code(s@),
    {
        if same_text(s, "workaround_available") {
            ResolutionStatus::WorkaroundAvailable
        } else if same_text(s, "fixed") {
            ResolutionStatus::Fixed
        } else if same_text(s, "no_action_needed") {
            ResolutionStatus::NoActionNeeded
        } else {
            ResolutionStatus::Unresolved
        }
    }

    /// Decoding the code of a variant gives the variant back.
    pub proof fn lemma_code_round_trip(self)
        ensures
            ResolutionStatus::from_code(self.code()) == self,
    {
        reveal_strlit("unresolved");
        reveal_strlit("workaround_available");
        reveal_strlit("fixed");
        reveal_strlit("no_action_needed");
        assert("unresolved"@.len() == 10);
        assert("workaround_available"@.len() == 20);
        assert("fixed"@.len() == 5);
        assert("no_action_needed"@.len() == 16);
    }
}

/// Why a todo exists.
#[derive(Debug, Clone, Copy, PartialEq, Eq, Structural)]
pub enum TodoContextType {
    DecisionImplementation,
    GoalStep,
    IssueResolution,
    PreferenceAdoption,
    Other,
}

impl TodoContextType {
    /// The canonical code of the variant.
    pub open spec fn code(self) -> Seq<char> {
        match self {
            TodoContextType::DecisionImplementation => "decision_implementation"@,
            TodoContextType::GoalStep => "goal_step"@,
            TodoContextType::IssueResolution => "issue_resolution"@,
            TodoContextType::PreferenceAdoption => "preference_adoption"@,
            TodoContextType::Other => "other"@,
        }
    }

    /// The variant a code stands for. Anything unrecognised maps to `Other`.
    pub open spec fn from_code(s: Seq<char>) -> TodoContextType {
        if s == "decision_implementation"@ {
            TodoContextType::DecisionImplementation
        } else if s == "goal_step"@ {
            TodoContextType::GoalStep
        } else if s == "issue_resolution"@ {
            TodoContextType::IssueResolution
        } else if s == "preference_adoption"@ {
            TodoContextType::PreferenceAdoption
        } else {
            TodoContextType::Other
        }
    }

    /// The canonical code of the variant.
    pub fn as_str(&self) -> (r: &'static str)
        ensures
            r@ == self.code(),
    {
        match self {
            TodoContextType::DecisionImplementation => "decision_implementation",
            TodoContextType::GoalStep => "goal_step",
            TodoContextType::IssueResolution => "issue_resolution",
            TodoContextType::PreferenceAdoption => "preference_adoption",
            TodoContextType::Other => "other",
        }
    }

    /// Total decoding of a code. Anything unrecognised maps to `Other`.
    pub fn from_str(s: &str) -> (r: TodoContextType)
        ensures
            r == TodoContextType::from_code(s@),
    {
        if same_text(s, "decision_implementation") {
            TodoContextType::DecisionImplementation
        } else if same_text(s, "goal_step") {
            TodoContextType::GoalStep
        } else if same_text(s, "issue_resolution") {
            TodoContextType::IssueResolution
        } else if same_text(s, "preference_adoption") {
            TodoContextType::PreferenceAdoption
        } else {
            TodoContextType::Other
        }
    }

    /// Decoding the code of a variant gives the variant back.
    pub proof fn lemma_code_round_trip(self)
        ensures
            TodoContextType::from_code(self.code()) == self,
    {
        reveal_strlit("decision_implementation");
        reveal_strlit("goal_step");
        reveal_strlit("issue_resolution");
        reveal_strlit("preference_adoption");
        reveal_strlit("other");
        assert("decision_implementation"@.len() == 23);
        assert("goal_step"@.len() == 9);
        assert("issue_resolution"@.len() == 16);
        assert("preference_adoption"@.len() == 19);
        assert("other"@.len() == 5);
    }
}

/// Where a todo stands.
#[derive(Debug, Clone, Copy, PartialEq, Eq, Structural)]
pub enum TodoStatus {
    Pending,
    InProgress,
    Completed,
    Blocked,
}

impl TodoStatus {
    /// The canonical code of the variant.
    pub open spec fn code(self) -> Seq<char> {
        match self {
            TodoStatus::Pending => "pending"@,
            TodoStatus::InProgress => "in_progress"@,
            TodoStatus::Completed => "completed"@,
            TodoStatus::Blocked => "blocked"@,
        }
    }

    /// The variant a code stands for. Anything unrecognised maps to `Pending`.
    pub open spec fn from_code(s: Seq<char>) -> TodoStatus {
        if s == "in_progress"@ {
            TodoStatus::InProgress
        } else if s == "completed"@ {
            TodoStatus::Completed
        } else if s == "blocked"@ {
            TodoStatus::Blocked
        } else {
            TodoStatus::Pending
        }
    }

    /// The canonical code of the variant.
    pub fn as_str(&self) -> (r: &'static str)
        ensures
            r@ == self.code(),
    {
        match self {
            TodoStatus::Pending => "pending",
            TodoStatus::InProgress => "in_progress",
            TodoStatus::Completed => "completed",
            TodoStatus::Blocked => "blocked",
        }
    }

    /// Total decoding of a code. Anything unrecognised maps to `Pending`.
    pub fn from_str(s: &str) -> (r: TodoStatus)
        ensures
            r == TodoStatus::from_code(s@),
    {
        if same_text(s, "in_progress") {
            TodoStatus::InProgress
        } else if same_text(s, "completed") {
            TodoStatus::Completed
        } else if same_text(s, "blocked") {
            TodoStatus::Blocked
        } else {
            TodoStatus::Pending
        }
    }

    /// Decoding the code of a variant gives the variant back.
    pub proof fn lemma_code_round_trip(self)
        ensures
            TodoStatus::from_code(self.code()) == self,
    {
        reveal_strlit("pending");
        reveal_strlit("in_progress");
        reveal_strlit("completed");
        reveal_strlit("blocked");
        assert("pending"@.len() == 7);
        assert("in_progress"@.len() == 11);
        assert("completed"@.len() == 9);
        assert("blocked"@.len() == 7);
        assert("pending"@[0] != "blocked"@[0]);
    }
}

/// Which of the four other entity kinds a todo points to.
#[derive(Debug, Clone, Copy, PartialEq, Eq, Structural)]
pub enum EntityType {
    UserDecision,
    UserGoal,
    KnownIssue,
    UserPreference,
}

impl EntityType {
    /// The canonical code of the variant.
    pub open spec fn code(self) -> Seq<char> {
        match self {
            EntityType::UserDecision => "user_decision"@,
            EntityType::UserGoal => "user_goal"@,
            EntityType::KnownIssue => "known_issue"@,
            EntityType::UserPreference => "user_preference"@,
        }
    }

    /// The variant a code stands for. Anything unrecognised maps to `UserDecision`.
    pub open spec fn from_code(s: Seq<char>) -> EntityType {
        if s == "user_goal"@ {
            EntityType::UserGoal
        } else if s == "known_issue"@ {
            EntityType::KnownIssue
        } else if s == "user_preference"@ {
            EntityType::UserPreference
        } else {
            EntityType::UserDecision
        }
    }

    /// The canonical code of the variant.
    pub fn as_str(&self) -> (r: &'static str)
        ensures
            r@ == self.code(),
    {
        match self {
            EntityType::UserDecision => "user_decision",
            EntityType::UserGoal => "user_goal",
            EntityType::KnownIssue => "known_issue",
            EntityType::UserPreference => "user_preference",
        }
    }

    /// Total decoding of a code. Anything unrecognised maps to `UserDecision`.
    pub fn from_str(s: &str) -> (r: EntityType)
        ensures
            r == EntityType::from_code(s@),
    {
        if same_text(s, "user_goal") {
            EntityType::UserGoal
        } else if same_text(s, "known_issue") {
            EntityType::KnownIssue
        } else if same_text(s, "user_preference") {
            EntityType::UserPreference
        } else {
            EntityType::UserDecision
        }
    }

    /// Decoding the code of a variant gives the variant back.
    pub proof fn lemma_code_round_trip(self)
        ensures
            EntityType::from_code(self.code()) == self,
    {
        reveal_strlit("user_decision");
        reveal_strlit("user_goal");
        reveal_strlit("known_issue");
        reveal_strlit("user_preference");
        assert("user_decision"@.len() == 13);
        assert("user_goal"@.len() == 9);
        assert("known_issue"@.len() == 11);
        assert("user_preference"@.len() == 15);
    }
}

/// Lifecycle of a decision.
#[derive(Debug, Clone, Copy, PartialEq, Eq, Structural)]
pub enum EntityStatus {
    Active,
    Archived,
    Superseded,
}

impl EntityStatus {
    /// The canonical code of the variant.
    pub open spec fn code(self) -> Seq<char> {
        match self {
            EntityStatus::Active => "active"@,
            EntityStatus::Archived => "archived"@,
            EntityStatus::Superseded => "superseded"@,
        }
    }

    /// The variant a code stands for. Anything unrecognised maps to `Active`.
    pub open spec fn from_code(s: Seq<char>) -> EntityStatus {
        if s == "archived"@ {
            EntityStatus::Archived
        } else if s == "superseded"@ {
            EntityStatus::Superseded
        } else {
            EntityStatus::Active
        }
    }

    /// The canonical code of the variant.
    pub fn as_str(&self) -> (r: &'static str)
        ensures
            r@ == self.code(),
    {
        match self {
            EntityStatus::Active => "active",
            EntityStatus::Archived => "archived",
            EntityStatus::Superseded => "superseded",
        }
    }

    /// Total decoding of a code. Anything unrecognised maps to `Active`.
    pub fn from_str(s: &str) -> (r: EntityStatus)
        ensures
            r == EntityStatus::from_code(s@),
    {
        if same_text(s, "archived") {
            EntityStatus::Archived
        } else if same_text(s, "superseded") {
            EntityStatus::Superseded
        } else {
            EntityStatus::Active
        }
    }

    /// Decoding the code of a variant gives the variant back.
    pub proof fn lemma_code_round_trip(self)
        ensures
            EntityStatus::from_code(self.code()) == self,
    {
        reveal_strlit("active");
        reveal_strlit("archived");
        reveal_strlit("superseded");
        assert("active"@.len() == 6);
        assert("archived"@.len() == 8);
        assert("superseded"@.len() == 10);
    }
}

} // verus!
