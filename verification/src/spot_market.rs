//! The key under which a spot market is filed.

use vstd::prelude::*;
use crate::models::opt_view;
use crate::text::{lemma_trim_idempotent, str_trim, trim_spec};

verus! {

/// The key of a spot market reference: the contract address text when the
/// trimmed reference parses as a token contract (`contract`), else the text
/// of the contract address formed by the leading bytes of the account
/// address it parses as (`address_contract`), else the trimmed reference.
pub open spec fn spot_market_key_spec(
    value: Seq<char>,
    contract: Option<Seq<char>>,
    address_contract: Option<Seq<char>>,
) -> Seq<char> {
    match contract {
        Some(c) => c,
        None => match address_contract {
            Some(a) => a,
            None => trim_spec(value),
        },
    }
}

/// Normalising a key gives the key back, given the two facts about the parser
/// that this rests on: the parse results depend only on the trimmed text, and
/// the text of a token contract (whether parsed as one or cut from an account
/// address) parses back as that contract. `contract` and `address_contract`
/// are the parse results for `value`; `key_contract` and
/// `key_address_contract` those for its key.
pub proof fn lemma_spot_market_key_idempotent(
    value: Seq<char>,
    contract: Option<Seq<char>>,
    address_contract: Option<Seq<char>>,
    key_contract: Option<Seq<char>>,
    key_address_contract: Option<Seq<char>>,
)
    requires
        trim_spec(spot_market_key_spec(value, contract, address_contract)) == trim_spec(value)
            ==> key_contract == contract && key_address_contract == address_contract,
        contract matches Some(k) ==> key_contract == Some(k),
        address_contract matches Some(k) ==> key_contract == Some(k),
    ensures
        spot_market_key_spec(
            spot_market_key_spec(value, contract, address_contract),
            key_contract,
            key_address_contract,
        ) == spot_market_key_spec(value, contract, address_contract),
{
    lemma_trim_idempotent(value);
}

/// Chooses the key of a spot market reference. `contract` and
/// `address_contract` are the results of parsing the trimmed reference as a
/// token contract and as an account address (cut to a contract address),
/// each in its text form, or `None` where the parse failed.
pub fn normalize_spot_market_key(
    value: &str,
    contract: Option<String>,
    address_contract: Option<String>,
) -> (r: String)
    ensures
        r@ == spot_market_key_spec(value@, opt_view(contract), opt_view(address_contract)),
{
    if let Some(c) = contract {
        return c;
    }
    if let Some(a) = address_contract {
        return a;
    }
    str_trim(value).to_owned()
}

} // verus!
