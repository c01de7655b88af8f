//! Name-based (version 5) UUIDs for markets and orders, held as `u128`.

use vstd::prelude::*;
use vstd::arithmetic::power::pow;
use vstd::utf8::encode_utf8;
use crate::text::hex_lower;

verus! {

/// What `Uuid::new_v5(&Uuid::NAMESPACE_OID, name).as_u128()` gives for
/// `name`: a SHA-1 based UUID, read as a big-endian integer.
pub uninterp spec fn uuid_v5_oid(name: Seq<u8>) -> u128;

/// Calls `Uuid::new_v5` in the OID namespace and reads the UUID as a
/// big-endian `u128` (`Uuid::as_u128`). Stated: the result is a function of
/// the name bytes alone; the SHA-1 computation is left to the name
/// `uuid_v5_oid`.
#[verifier::external_body]
fn uuid_v5_oid_of(name: &[u8]) -> (r: u128)
    ensures
        r == uuid_v5_oid(name@),
{
    uuid::Uuid::new_v5(&uuid::Uuid::NAMESPACE_OID, name).as_u128()
}

/// The 16 bytes of `id`, most significant first.
pub open spec fn u128_be_bytes(id: u128) -> Seq<u8> {
    Seq::new(16, |k: int| ((id as int / pow(256, (15 - k) as nat)) % 256) as u8)
}

/// The hyphenated lowercase text of a UUID held as a big-endian `u128`:
/// 32 hex digits grouped 8-4-4-4-12.
pub open spec fn uuid_hyphenated(id: u128) -> Seq<char> {
    let h = hex_lower(u128_be_bytes(id));
    h.subrange(0, 8) + seq!['-'] + h.subrange(8, 12) + seq!['-'] + h.subrange(12, 16) + seq!['-']
        + h.subrange(16, 20) + seq!['-'] + h.subrange(20, 32)
}

/// Calls `Uuid::from_u128(id).to_string()`; `Display` for `Uuid` writes the
/// hyphenated lowercase form of the big-endian bytes.
#[verifier::external_body]
pub(crate) fn uuid_text(id: u128) -> (r: String)
    ensures
        r@ == uuid_hyphenated(id),
{
    uuid::Uuid::from_u128(id).to_string()
}

/// The id of a market: the v5 UUID of its contract address text.
pub fn market_uuid(market_address: &str) -> (r: u128)
    ensures
        r == uuid_v5_oid(encode_utf8(market_address@)),
{
    uuid_v5_oid_of(market_address.as_bytes())
}

/// The name from which an order id is made: `<market uuid>:<chain order id>`.
pub open spec fn order_uuid_name(market_id: u128, chain_order_id: Seq<char>) -> Seq<char> {
    uuid_hyphenated(market_id) + seq![':'] + chain_order_id
}

/// The id of an order: the v5 UUID of `<market uuid>:<chain order id>`.
pub fn order_uuid(market_id: u128, chain_order_id: &str) -> (r: u128)
    ensures
        r == uuid_v5_oid(encode_utf8(order_uuid_name(market_id, chain_order_id@))),
{
    let mut name = uuid_text(market_id);
    proof {
        reveal_strlit(":");
    }
    name.append(":");
    name.append(chain_order_id);
    assert(name@ =~= order_uuid_name(market_id, chain_order_id@));
    uuid_v5_oid_of(name.as_str().as_bytes())
}

} // verus!
