//! The correction of a quarantined inbound order: its reason is checked
//! here, and the corrected order is taken as the result of parsing it.
use vstd::prelude::*;
use crate::text::{trim, trimmed};

verus! {

/// A control character (general category Cc), as `char::is_control` tells.
pub open spec fn is_control(c: char) -> bool {
    (c as u32) <= 0x1f || (0x7f <= (c as u32) && (c as u32) <= 0x9f)
}

/// Whether a character is a control character.
pub fn control(c: char) -> (r: bool)
    ensures
        r == is_control(c),
{
    let v = c as u32;
    v <= 0x1f || (0x7f <= v && v <= 0x9f)
}

/// The message when the reason is blank.
pub open spec fn reason_required_message() -> Seq<char> {
    "Correction reason is required."@
}

/// The message when the reason is too long or holds a control character.
pub open spec fn reason_invalid_message() -> Seq<char> {
    "Correction reason must be 500 characters or fewer."@
}

/// The reason of a correction: trimmed, not blank, at most 500 characters
/// and free of control characters; otherwise the message shown.
pub open spec fn spec_correction_reason(reason: Seq<char>) -> Result<Seq<char>, Seq<char>> {
    let t = trimmed(reason);
    if t.len() == 0 {
        Err(reason_required_message())
    } else if t.len() > 500 || exists|i: int| 0 <= i < t.len() && is_control(#[trigger] t[i]) {
        Err(reason_invalid_message())
    } else {
        Ok(t)
    }
}

/// Checks the reason of a correction.
pub fn correction_reason(reason: &str) -> (r: Result<String, String>)
    ensures
        match (r, spec_correction_reason(reason@)) {
            (Ok(t), Ok(s)) => t@ == s,
            (Err(m), Err(s)) => m@ == s,
            _ => false,
        },
{
    let t = trim(reason);
    let n = t.unicode_len();
    if n == 0 {
        return Err(String::from_str("Correction reason is required."));
    }
    if n > 500 {
        return Err(String::from_str("Correction reason must be 500 characters or fewer."));
    }
    let mut i: usize = 0;
    while i < n
        invariant
            n == t@.len(),
            t@ == trimmed(reason@),
            0 < n <= 500,
            i <= n,
            forall|j: int| 0 <= j < i ==> !is_control(#[trigger] t@[j]),
        decreases n - i,
    {
        if control(t.get_char(i)) {
            assert(is_control(t@[i as int]));
            return Err(String::from_str("Correction reason must be 500 characters or fewer."));
        }
        i = i + 1;
    }
    assert(!exists|j: int| 0 <= j < t@.len() && is_control(#[trigger] t@[j]));
    Ok(String::from_str(t))
}

/// A correction of a quarantined inbound order.
#[derive(Clone, Debug)]
pub struct CorrectionRequest<O> {
    pub expected_revision: u64,
    pub reason: String,
    pub order: O,
}

/// The text that leads the message of an order that did not parse.
pub open spec fn invalid_order_prefix() -> Seq<char> {
    "Corrected order JSON is invalid: "@
}

/// Assembles a correction from the processing's revision, the typed reason
/// and the outcome of parsing the corrected order: the reason's message
/// first, then the parser's, else the request.
pub fn correction_request<O>(
    expected_revision: u64,
    reason: &str,
    order: Result<O, String>,
) -> (r: Result<CorrectionRequest<O>, String>)
    ensures
        match spec_correction_reason(reason@) {
            Err(s) => r matches Err(m) && m@ == s,
            Ok(s) => match order {
                Err(e) => r matches Err(m) && m@ == invalid_order_prefix() + e@,
                Ok(o) => r matches Ok(c) && c.expected_revision == expected_revision
                    && c.reason@ == s && c.order == o,
            },
        },
{
    let reason = match correction_reason(reason) {
        Ok(t) => t,
        Err(m) => return Err(m),
    };
    match order {
        Ok(o) => Ok(CorrectionRequest { expected_revision, reason, order: o }),
        Err(e) => {
            let mut message = String::from_str("Corrected order JSON is invalid: ");
            message.append(e.as_str());
            Err(message)
        },
    }
}

} // verus!
