use vstd::prelude::*;

verus! {

/// The JSON array text that serde_json writes for a list of strings.
pub uninterp spec fn json_of_texts(v: Seq<Seq<char>>) -> Seq<char>;

/// The list of strings that serde_json reads from a text, if it is a JSON
/// array of strings.
pub uninterp spec fn texts_of_json(s: Seq<char>) -> Option<Seq<Seq<char>>>;

/// The JSON text that serde_json writes for a list of goal steps, each a
/// `(step_number, description, status, due_date)` tuple.
pub uninterp spec fn json_of_steps(v: Seq<(u32, Seq<char>, Seq<char>, Option<Seq<char>>)>) -> Seq<
    char,
>;

/// The goal-step tuples that serde_json reads from a text, if it holds them.
pub uninterp spec fn steps_of_json(s: Seq<char>) -> Option<
    Seq<(u32, Seq<char>, Seq<char>, Option<Seq<char>>)>,
>;

/// Relies on `serde_json::to_string` for a `Vec<String>`: a JSON array of the
/// strings in order, which `serde_json::from_str` reads back unchanged.
/// Serialising strings cannot fail, so the result is unwrapped.
#[verifier::external_body]
pub(crate) fn texts_to_json(v: &Vec<String>) -> (r: String)
    ensures
        r@ == json_of_texts(v.deep_view()),
        texts_of_json(r@) == Some(v.deep_view()),
{
    serde_json::to_string(v).unwrap()
}

/// Relies on `serde_json::from_str::<Vec<String>>`: the list when the text is
/// a JSON array of strings, else `None`.
#[verifier::external_body]
pub(crate) fn texts_from_json(s: &str) -> (r: Option<Vec<String>>)
    ensures
        r.deep_view() == texts_of_json(s@),
{
    serde_json::from_str::<Vec<String>>(s).ok()
}

/// Relies on `serde_json::to_string` for a `Vec` of
/// `(u32, String, String, Option<String>)`: a JSON array of four-element
/// arrays, which `serde_json::from_str` reads back unchanged. Serialising
/// these values cannot fail, so the result is unwrapped.
#[verifier::external_body]
pub(crate) fn steps_to_json(v: &Vec<(u32, String, String, Option<String>)>) -> (r: String)
    ensures
        r@ == json_of_steps(v.deep_view()),
        steps_of_json(r@) == Some(v.deep_view()),
{
    serde_json::to_string(v).unwrap()
}

/// Relies on `serde_json::from_str::<Vec<(u32, String, String, Option<String>)>>`:
/// the tuples when the text holds them, else `None`.
#[verifier::external_body]
pub(crate) fn steps_from_json(s: &str) -> (r: Option<Vec<(u32, String, String, Option<String>)>>)
    ensures
        r.deep_view() == steps_of_json(s@),
{
    serde_json::from_str::<Vec<(u32, String, String, Option<String>)>>(s).ok()
}

} // verus!
