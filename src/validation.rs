//! Structural validation of commands: every violation is collected.
use vstd::prelude::*;

use crate::failure::{violations_view, FieldViolation};

verus! {

/// Fewest characters that a required text holds.
pub const MIN_TEXT_LEN: u64 = 1;

/// Most characters that a required text holds.
pub const MAX_TEXT_LEN: u64 = 100;

/// A required text holds between 1 and 100 characters.
pub open spec fn length_ok(s: Seq<char>) -> bool {
    MIN_TEXT_LEN <= s.len() && s.len() <= MAX_TEXT_LEN
}

/// The violation that a length rule on `field` yields for `value`, if any.
pub open spec fn length_violation(field: Seq<char>, value: Seq<char>) -> Seq<(Seq<char>, Seq<char>)> {
    if length_ok(value) {
        Seq::empty()
    } else {
        seq![(field, "length"@)]
    }
}

/// Relies on validator's `ValidateLength` for `String`: the number of
/// characters lies between the bounds given.
#[verifier::external_body]
fn length_within(s: &String, min: u64, max: u64) -> (r: bool)
    ensures
        r == (min <= s@.len() && s@.len() <= max),
{
    validator::ValidateLength::<u64>::validate_length(s, Some(min), Some(max), None)
}

/// Checks the length rule of one field and records its violation.
pub fn check_length(field: &str, value: &String, out: &mut Vec<FieldViolation>)
    ensures
        violations_view(final(out)@) == violations_view(old(out)@) + length_violation(field@, value@),
{
    if !length_within(value, MIN_TEXT_LEN, MAX_TEXT_LEN) {
        let v = FieldViolation { field: String::from_str(field), error: String::from_str("length") };
        out.push(v);
        assert(violations_view(final(out)@) =~= violations_view(old(out)@) + length_violation(field@, value@));
    } else {
        assert(violations_view(final(out)@) =~= violations_view(old(out)@) + length_violation(field@, value@));
    }
}

} // verus!
