use vstd::prelude::*;
use crate::clock::Timestamp;
use crate::ident::fresh_id;

verus! {

/// An append-only record of a change to one of a user's entities.
#[derive(Debug, Clone, PartialEq)]
pub struct UserContextAuditEntry {
    pub id: String,
    pub user_id: String,
    pub entity_type: String,
    pub entity_id: String,
    pub action: String,
    pub old_value: Option<String>,
    pub new_value: Option<String>,
    pub changed_by: String,
    pub changed_at: Timestamp,
    pub reason: Option<String>,
}

impl UserContextAuditEntry {
    /// The entry for a creation, stamped now: action `create`, no old value,
    /// the new value as given, a fresh id and no reason.
    pub fn create(
        user_id: String,
        entity_type: String,
        entity_id: String,
        new_value: String,
        changed_by: String,
    ) -> (r: UserContextAuditEntry)
        ensures
            r.id@.len() == 36,
            r.user_id@ == user_id@,
            r.entity_type@ == entity_type@,
            r.entity_id@ == entity_id@,
            r.action@ == "create"@,
            r.old_value is None,
            r.new_value.deep_view() == Some(new_value@),
            r.changed_by@ == changed_by@,
            r.reason is None,
            r.changed_at.wf(),
    {
        let ghost nv = new_value@;
        let r = UserContextAuditEntry {
            id: fresh_id(),
            user_id,
            entity_type,
            entity_id,
            action: "create".to_owned(),
            old_value: None,
            new_value: Some(new_value),
            changed_by,
            changed_at: Timestamp::now(),
            reason: None,
        };
        assert(r.new_value.deep_view() == Some(nv));
        r
    }
}

} // verus!
