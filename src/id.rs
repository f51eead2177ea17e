use vstd::prelude::*;

verus! {

/// The identifier that a text denotes, if it is a UUID in one of the forms that
/// `uuid` reads (simple, hyphenated, urn, braced).
pub uninterp spec fn uuid_of_text(s: Seq<char>) -> Option<u128>;

/// Relies on `uuid::Uuid::parse_str`, read as a 128-bit value by `Uuid::as_u128`:
/// the outcome depends on the text alone.
#[verifier::external_body]
pub(crate) fn parse_uuid(s: &str) -> (r: Option<u128>)
    ensures
        r == uuid_of_text(s@),
{
    match uuid::Uuid::parse_str(s) {
        Ok(u) => Some(u.as_u128()),
        Err(_) => None,
    }
}

/// Relies on `uuid::Uuid::new_v4`, read by `Uuid::as_u128`: a random value whose
/// version nibble is forced to 4 and whose two variant bits are forced to `10`.
#[verifier::external_body]
pub(crate) fn new_uuid() -> (r: u128)
    ensures
        r & 0xf000_c000_0000_0000_0000u128 == 0x4000_8000_0000_0000_0000u128,
{
    uuid::Uuid::new_v4().as_u128()
}

/// The nil identifier (all zero bits) is never handed out as a fresh one.
pub proof fn lemma_fresh_uuid_not_nil(r: u128)
    requires
        r & 0xf000_c000_0000_0000_0000u128 == 0x4000_8000_0000_0000_0000u128,
    ensures
        r != 0,
{
    assert(r & 0xf000_c000_0000_0000_0000u128 == 0x4000_8000_0000_0000_0000u128 ==> r != 0)
        by (bit_vector);
}

} // verus!
