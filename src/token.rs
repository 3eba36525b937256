use vstd::prelude::*;

verus! {

/// Length of a token in its hyphenated text form.
pub const TOKEN_LEN: usize = 36;

/// Relies on `uuid::Uuid::new_v4` and its hyphenated `to_string`: 122 random
/// bits from the operating system's generator, written as 36 characters.
#[verifier::external_body]
pub(crate) fn new_token() -> (r: String)
    ensures
        r@.len() == TOKEN_LEN,
{
    uuid::Uuid::new_v4().to_string()
}

} // verus!
