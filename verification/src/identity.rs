use vstd::prelude::*;

verus! {

/// The 128-bit value denoted by a string, when the string is a well-formed
/// UUID, and nothing otherwise.
pub uninterp spec fn uuid_of(s: Seq<char>) -> Option<u128>;

/// The canonical (hyphenated, lower-case) text of a 128-bit user identity.
pub uninterp spec fn uuid_str(u: u128) -> Seq<char>;

/// Relies on uuid::Uuid::parse_str: whether a string is a well-formed UUID,
/// and which 128-bit value it denotes, depend on the string alone.
#[verifier::external_body]
pub(crate) fn parse_user_id(s: &str) -> (r: Option<u128>)
    ensures
        r == uuid_of(s@),
{
    match uuid::Uuid::parse_str(s) {
        Ok(u) => Some(u.as_u128()),
        Err(_) => None,
    }
}

/// Relies on uuid::Uuid::from_u128 and its display form: the canonical text
/// of a UUID value, which uuid::Uuid::parse_str parses back to that value.
#[verifier::external_body]
pub(crate) fn user_id_string(u: u128) -> (r: String)
    ensures
        r@ == uuid_str(u),
        uuid_of(r@) == Some(u),
{
    uuid::Uuid::from_u128(u).to_string()
}

} // verus!
