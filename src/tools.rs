use vstd::prelude::*;
use crate::text::same_text;

verus! {

/// The operations the protocol surface advertises.
#[derive(Debug, Clone, Copy, PartialEq, Eq, Structural)]
pub enum UserContextToolName {
    ManageUserDecision,
    ManageUserGoal,
    ManageUserPreference,
    ManageKnownIssue,
    ManageContextualTodo,
    QueryUserContext,
    ExportUserContext,
}

impl UserContextToolName {
    /// The advertised name of the operation.
    pub open spec fn name(self) -> Seq<char> {
        match self {
            UserContextToolName::ManageUserDecision => "manage_user_decision"@,
            UserContextToolName::ManageUserGoal => "manage_user_goal"@,
            UserContextToolName::ManageUserPreference => "manage_user_preference"@,
            UserContextToolName::ManageKnownIssue => "manage_known_issue"@,
            UserContextToolName::ManageContextualTodo => "manage_contextual_todo"@,
            UserContextToolName::QueryUserContext => "query_user_context"@,
            UserContextToolName::ExportUserContext => "export_user_context"@,
        }
    }

    /// The operation a name stands for, if any.
    pub open spec fn from_name(s: Seq<char>) -> Option<UserContextToolName> {
        if s == "manage_user_decision"@ {
            Some(UserContextToolName::ManageUserDecision)
        } else if s == "manage_user_goal"@ {
            Some(UserContextToolName::ManageUserGoal)
        } else if s == "manage_user_preference"@ {
            Some(UserContextToolName::ManageUserPreference)
        } else if s == "manage_known_issue"@ {
            Some(UserContextToolName::ManageKnownIssue)
        } else if s == "manage_contextual_todo"@ {
            Some(UserContextToolName::ManageContextualTodo)
        } else if s == "query_user_context"@ {
            Some(UserContextToolName::QueryUserContext)
        } else if s == "export_user_context"@ {
            Some(UserContextToolName::ExportUserContext)
        } else {
            None
        }
    }

    /// The advertised name of the operation.
    pub fn as_str(&self) -> (r: &'static str)
        ensures
            r@ == self.name(),
    {
        match self {
            UserContextToolName::ManageUserDecision => "manage_user_decision",
            UserContextToolName::ManageUserGoal => "manage_user_goal",
            UserContextToolName::ManageUserPreference => "manage_user_preference",
            UserContextToolName::ManageKnownIssue => "manage_known_issue",
            UserContextToolName::ManageContextualTodo => "manage_contextual_todo",
            UserContextToolName::QueryUserContext => "query_user_context",
            UserContextToolName::ExportUserContext => "export_user_context",
        }
    }

    /// The operation a name stands for; `None` for an unknown name.
    pub fn parse(s: &str) -> (r: Option<UserContextToolName>)
        ensures
            r == UserContextToolName::from_name(s@),
    {
        if same_text(s, "manage_user_decision") {
            Some(UserContextToolName::ManageUserDecision)
        } else if same_text(s, "manage_user_goal") {
            Some(UserContextToolName::ManageUserGoal)
        } else if same_text(s, "manage_user_preference") {
            Some(UserContextToolName::ManageUserPreference)
        } else if same_text(s, "manage_known_issue") {
            Some(UserContextToolName::ManageKnownIssue)
        } else if same_text(s, "manage_contextual_todo") {
            Some(UserContextToolName::ManageContextualTodo)
        } else if same_text(s, "query_user_context") {
            Some(UserContextToolName::QueryUserContext)
        } else if same_text(s, "export_user_context") {
            Some(UserContextToolName::ExportUserContext)
        } else {
            None
        }
    }

    /// Parsing the name of an operation gives the operation back.
    pub proof fn lemma_name_round_trip(self)
        ensures
            UserContextToolName::from_name(self.name()) == Some(self),
    {
        reveal_strlit("manage_user_decision");
        reveal_strlit("manage_user_goal");
        reveal_strlit("manage_user_preference");
        reveal_strlit("manage_known_issue");
        reveal_strlit("manage_contextual_todo");
        reveal_strlit("query_user_context");
        reveal_strlit("export_user_context");
        assert("manage_user_decision"@.len() == 20);
        assert("manage_user_goal"@.len() == 16);
        assert("manage_user_preference"@.len() == 22);
        assert("manage_known_issue"@.len() == 18);
        assert("manage_contextual_todo"@.len() == 22);
        assert("query_user_context"@.len() == 18);
        assert("export_user_context"@.len() == 19);
        assert("manage_user_preference"@[7] != "manage_contextual_todo"@[7]);
        assert("manage_known_issue"@[0] != "query_user_context"@[0]);
    }
}

} // verus!
