//! Flow identifiers. A flow is named by a UUID; the library holds it as the
//! 128-bit number that the UUID stands for.

use vstd::prelude::*;

verus! {

/// The number of the UUID that `text` spells, in whichever of the accepted
/// forms it is written; `None` where `text` spells no UUID.
pub uninterp spec fn uuid_of(text: Seq<char>) -> Option<u128>;

/// Calls `uuid::Uuid::parse_str` and hands out the parsed UUID as a number
/// (`Uuid::as_u128`), or `None` where the parser refused the text. The
/// contract claims only that the outcome depends on the text alone: it is
/// what `uuid_of` names.
#[verifier::external_body]
fn parse_uuid(text: &str) -> (id: Option<u128>)
    ensures
        id == uuid_of(text@),
{
    match uuid::Uuid::parse_str(text) {
        Ok(id) => Some(id.as_u128()),
        Err(_) => None,
    }
}

/// Reads a flow identifier.
pub fn parse_flow_id(text: &str) -> (id: Option<u128>)
    ensures
        id == uuid_of(text@),
{
    parse_uuid(text)
}

} // verus!
