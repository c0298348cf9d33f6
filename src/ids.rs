//! Record identifiers: UUIDs held as their 128-bit value.

use vstd::prelude::*;

verus! {

/// What `uuid::Uuid::parse_str` makes of a text: the UUID's 128-bit value,
/// or `None` where the text is no UUID.
pub uninterp spec fn uuid_of(s: Seq<char>) -> Option<u128>;

/// Relies on `uuid::Uuid::now_v7`: a time-ordered UUID, drawn from the clock
/// and a random source, so nothing is known of its value.
#[verifier::external_body]
pub(crate) fn fresh_id() -> (r: u128) {
    uuid::Uuid::now_v7().as_u128()
}

/// Relies on `uuid::Uuid::parse_str`, whose result depends on the text
/// alone.
#[verifier::external_body]
fn parse_uuid_str(s: &str) -> (r: Option<u128>)
    ensures
        r == uuid_of(s@),
{
    match uuid::Uuid::parse_str(s) {
        Ok(u) => Some(u.as_u128()),
        Err(_) => None,
    }
}

/// The identifier written in `s`, or `None` where `s` is no UUID.
pub fn parse_id(s: &String) -> (r: Option<u128>)
    ensures
        r == uuid_of(s@),
{
    parse_uuid_str(s.as_str())
}

/// What [`parse_optional_id`] makes of an optional text.
pub open spec fn optional_uuid(s: Option<String>) -> Result<Option<u128>, ()> {
    match s {
        None => Ok(None),
        Some(t) => match uuid_of(t@) {
            Some(v) => Ok(Some(v)),
            None => Err(()),
        },
    }
}

/// The identifier written in `s`, if one is given.
///
/// `Ok(None)` where no text is given, `Err(())` where the text is no UUID.
pub fn parse_optional_id(s: &Option<String>) -> (r: Result<Option<u128>, ()>)
    ensures
        r == optional_uuid(*s),
{
    match s {
        None => Ok(None),
        Some(t) => match parse_id(t) {
            Some(v) => Ok(Some(v)),
            None => Err(()),
        },
    }
}

} // verus!
