use vstd::prelude::*;
use vstd::string::*;
use crate::text::{is_prefix, same_text, starts_with, text_after};

verus! {

/// Where a decision or a preference applies.
#[derive(Debug, Clone, PartialEq, Eq)]
pub enum ContextScope {
    Global,
    Project(String),
    Workflow(String),
}

/// The mathematical value of a [`ContextScope`].
pub enum ScopeModel {
    Global,
    Project(Seq<char>),
    Workflow(Seq<char>),
}

impl View for ContextScope {
    type V = ScopeModel;

    open spec fn view(&self) -> ScopeModel {
        match self {
            ContextScope::Global => ScopeModel::Global,
            ContextScope::Project(id) => ScopeModel::Project(id@),
            ContextScope::Workflow(name) => ScopeModel::Workflow(name@),
        }
    }
}

/// The single-column text of a scope.
pub open spec fn encode_scope(m: ScopeModel) -> Seq<char> {
    match m {
        ScopeModel::Global => "global"@,
        ScopeModel::Project(id) => "project_id:"@ + id,
        ScopeModel::Workflow(name) => "workflow:"@ + name,
    }
}

/// The scope a column text stands for: `global`, `project_id:<id>` or
/// `workflow:<name>`; any other text is the global scope.
pub open spec fn decode_scope(s: Seq<char>) -> ScopeModel {
    if s == "global"@ {
        ScopeModel::Global
    } else if is_prefix("project_id:"@, s) {
        ScopeModel::Project(s.subrange("project_id:"@.len() as int, s.len() as int))
    } else if is_prefix("workflow:"@, s) {
        ScopeModel::Workflow(s.subrange("workflow:"@.len() as int, s.len() as int))
    } else {
        ScopeModel::Global
    }
}

/// The kind of a scope, without its argument.
pub open spec fn scope_kind(m: ScopeModel) -> Seq<char> {
    match m {
        ScopeModel::Global => "global"@,
        ScopeModel::Project(_) => "project"@,
        ScopeModel::Workflow(_) => "workflow"@,
    }
}

impl ContextScope {
    /// Encodes the scope as one string.
    pub fn to_string(&self) -> (r: String)
        ensures
            r@ == encode_scope(self@),
    {
        match self {
            ContextScope::Global => "global".to_owned(),
            ContextScope::Project(id) => "project_id:".to_owned().concat(id.as_str()),
            ContextScope::Workflow(name) => "workflow:".to_owned().concat(name.as_str()),
        }
    }

    /// Decodes a scope string; malformed text decodes to `Global`.
    pub fn from_str(s: &str) -> (r: ContextScope)
        ensures
            r@ == decode_scope(s@),
    {
        proof {
            reveal_strlit("project_id:");
            reveal_strlit("workflow:");
        }
        if same_text(s, "global") {
            ContextScope::Global
        } else if starts_with(s, "project_id:") {
            ContextScope::Project(text_after(s, 11))
        } else if starts_with(s, "workflow:") {
            ContextScope::Workflow(text_after(s, 9))
        } else {
            ContextScope::Global
        }
    }

    /// The kind of the scope: `global`, `project` or `workflow`.
    pub fn scope_type(&self) -> (r: &'static str)
        ensures
            r@ == scope_kind(self@),
    {
        match self {
            ContextScope::Global => "global",
            ContextScope::Project(_) => "project",
            ContextScope::Workflow(_) => "workflow",
        }
    }
}

/// Decoding the encoding of any scope gives that scope back.
pub proof fn lemma_scope_round_trip(m: ScopeModel)
    ensures
        decode_scope(encode_scope(m)) == m,
{
    reveal_strlit("global");
    reveal_strlit("project_id:");
    reveal_strlit("workflow:");
    assert("global"@.len() == 6);
    assert("project_id:"@.len() == 11);
    assert("workflow:"@.len() == 9);
    match m {
        ScopeModel::Global => {},
        ScopeModel::Project(id) => {
            let s = "project_id:"@ + id;
            assert(s.len() != "global"@.len());
            assert(s.subrange(0, 11) =~= "project_id:"@);
            assert(s.subrange(11, s.len() as int) =~= id);
        },
        ScopeModel::Workflow(name) => {
            let s = "workflow:"@ + name;
            assert(s.len() != "global"@.len());
            assert(s[0] == "workflow:"@[0]);
            assert("workflow:"@[0] != "project_id:"@[0]);
            assert(!is_prefix("project_id:"@, s)) by {
                if is_prefix("project_id:"@, s) {
                    assert(s.subrange(0, 11)[0] == s[0]);
                }
            }
            assert(s.subrange(0, 9) =~= "workflow:"@);
            assert(s.subrange(9, s.len() as int) =~= name);
        },
    }
}

} // verus!
