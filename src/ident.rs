use vstd::prelude::*;

verus! {

/// Relies on uuid's `Uuid::new_v4` and its hyphenated `Display`: a fresh
/// random identifier, 36 characters long.
#[verifier::external_body]
pub(crate) fn fresh_id() -> (r: String)
    ensures
        r@.len() == 36,
{
    uuid::Uuid::new_v4().to_string()
}

} // verus!
