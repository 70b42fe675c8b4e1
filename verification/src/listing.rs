//! The filter box and the sort of the administration tables: a row is
//! shown when the query occurs in one of its texts, ignoring ASCII case.
use vstd::prelude::*;
use crate::sorting::SortDirection;
use crate::text::{ascii_lowercase, contains_text, text_contains, to_ascii_lowercase, trim, trimmed};

verus! {

/// The column a table is sorted by, and the direction.
#[derive(Clone, Copy, Debug)]
pub struct SortSpec<K> {
    pub key: K,
    pub direction: SortDirection,
}

/// The query of a filter box: its text trimmed and in ASCII lower case.
pub open spec fn spec_query(filter: Seq<char>) -> Seq<char> {
    ascii_lowercase(trimmed(filter))
}

/// Reads the query of a filter box.
pub fn query_text(filter: &str) -> (r: String)
    ensures
        r@ == spec_query(filter@),
{
    to_ascii_lowercase(trim(filter))
}

/// Whether a query (already in lower case) occurs in a text, ignoring the
/// text's ASCII case.
pub open spec fn field_matches(query: Seq<char>, field: Seq<char>) -> bool {
    text_contains(ascii_lowercase(field), query)
}

/// Tells whether a query occurs in a text, ignoring the text's ASCII case.
pub fn matches_field(query: &str, field: &str) -> (r: bool)
    ensures
        r == field_matches(query@, field@),
{
    let lower = to_ascii_lowercase(field);
    contains_text(lower.as_str(), query)
}

/// The text of an optional field, empty when absent.
pub open spec fn text_or_empty(value: Option<String>) -> Seq<char> {
    match value {
        Some(s) => s@,
        None => Seq::empty(),
    }
}

/// Tells whether a query occurs in an optional text (an absent one being
/// empty).
pub fn matches_optional(query: &str, field: &Option<String>) -> (r: bool)
    ensures
        r == field_matches(query@, text_or_empty(*field)),
{
    match field {
        Some(s) => matches_field(query, s.as_str()),
        None => {
            proof {
                reveal_strlit("");
                assert(""@ =~= Seq::<char>::empty());
            }
            matches_field(query, "")
        },
    }
}

/// Whether a query occurs in one of several texts.
pub open spec fn any_field_matches(query: Seq<char>, fields: Seq<String>) -> bool {
    exists|i: int| 0 <= i < fields.len() && field_matches(query, #[trigger] fields[i]@)
}

/// Tells whether a query occurs in one of several texts.
pub fn matches_any(query: &str, fields: &Vec<String>) -> (r: bool)
    ensures
        r == any_field_matches(query@, fields@),
{
    let mut i: usize = 0;
    while i < fields.len()
        invariant
            i <= fields@.len(),
            forall|j: int| 0 <= j < i ==> !field_matches(query@, #[trigger] fields@[j]@),
        decreases fields@.len() - i,
    {
        if matches_field(query, fields[i].as_str()) {
            return true;
        }
        i = i + 1;
    }
    false
}

} // verus!
