//! Identifiers of parameters and graph items: 128-bit UUIDs.

use vstd::prelude::*;

verus! {

/// The bits that mark a UUID as random (version 4) in the RFC 4122 layout.
pub const V4_MASK: u128 = 0x0000_0000_0000_F000_C000_0000_0000_0000;

/// The value those bits have in every random UUID.
pub const V4_BITS: u128 = 0x0000_0000_0000_4000_8000_0000_0000_0000;

/// The lower-case hyphenated text of a UUID, as the `uuid` crate writes it.
pub uninterp spec fn hyphenated(id: u128) -> Seq<char>;

/// Calls `uuid::Uuid::new_v4` and hands back the identifier's 128 bits.
/// Trusted: the bits are random but for the version and variant marks,
/// which the crate sets on every such identifier. The call fails only where
/// the operating system can give no random bytes.
#[verifier::external_body]
fn new_v4_bits() -> (id: u128)
    ensures
        id & V4_MASK == V4_BITS,
{
    uuid::Uuid::new_v4().as_u128()
}

/// Calls `uuid::Uuid::to_hyphenated` on the identifier with these bits and
/// renders it. Trusted: the text depends on the bits alone.
#[verifier::external_body]
fn hyphenated_string(id: u128) -> (s: String)
    ensures
        s@ == hyphenated(id),
{
    uuid::Uuid::from_u128(id).to_hyphenated().to_string()
}

/// A fresh random identifier.
pub fn new_uuid() -> (id: u128)
    ensures
        id & V4_MASK == V4_BITS,
{
    new_v4_bits()
}

/// The identifier `id` if one is given, a fresh random one otherwise.
pub fn uuid_or_new(id: Option<u128>) -> (r: u128)
    ensures
        id matches Some(given) ==> r == given,
        id is None ==> r & V4_MASK == V4_BITS,
{
    match id {
        Some(given) => given,
        None => new_v4_bits(),
    }
}

/// The text under which an identifier appears in the address tree.
pub fn map_uuid(uuid: u128) -> (s: String)
    ensures
        s@ == hyphenated(uuid),
{
    hyphenated_string(uuid)
}

/// The text of an optional identifier: empty where there is none.
pub fn map_uuid_or_empty(uuid: Option<u128>) -> (s: String)
    ensures
        uuid matches Some(u) ==> s@ == hyphenated(u),
        uuid is None ==> s@ == Seq::<char>::empty(),
{
    match uuid {
        Some(u) => hyphenated_string(u),
        None => String::new(),
    }
}

} // verus!
