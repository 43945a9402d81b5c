//! Sample values of the treasury's configuration: a basic
//! allowance in `uxion`, grant and fee configurations around given
//! allowances, and a fixed expiration.

use crate::allowance::BASIC_ALLOWANCE_URL;
use crate::grant::{FeeConfig, FeeConfigView, GrantConfig, GrantConfigView};
use crate::proto::{
    basic_allowance_bytes, basic_allowance_from_bytes, coin, encode_basic_allowance,
    opt_any_view, proto_coins_view, Any, BasicAllowance, BasicAllowanceView, ProtoCoin, Timestamp,
};
use vstd::prelude::*;
use vstd::string::*;

verus! {

/// A basic allowance, without expiration, that lets its holder spend
/// `amount` of `uxion`, packed with its type URL.
pub fn basic_allowance_any(amount: &str) -> (r: Any)
    ensures
        r@.type_url == BASIC_ALLOWANCE_URL@,
        r@.value == basic_allowance_bytes(
            BasicAllowanceView { spend_limit: seq![coin("uxion"@, amount@)], expiration: None },
        ),
        basic_allowance_from_bytes(r@.value) == Ok::<BasicAllowanceView, Seq<char>>(
            BasicAllowanceView { spend_limit: seq![coin("uxion"@, amount@)], expiration: None },
        ),
{
    let mut spend_limit: Vec<ProtoCoin> = Vec::new();
    spend_limit.push(ProtoCoin { denom: String::from_str("uxion"), amount: String::from_str(amount) });
    let allowance = BasicAllowance { spend_limit, expiration: None };
    assert(proto_coins_view(allowance.spend_limit@) =~= seq![coin("uxion"@, amount@)]);
    let value = encode_basic_allowance(allowance);
    Any { type_url: String::from_str(BASIC_ALLOWANCE_URL), value }
}

/// A grant configuration described as "test grant config".
pub fn make_grant_config(authorization: Any, optional: bool) -> (r: GrantConfig)
    ensures
        r@ == (GrantConfigView { description: "test grant config"@, authorization: authorization@, optional }),
{
    GrantConfig::new(String::from_str("test grant config"), authorization, optional)
}

/// A fee configuration described as "test fee config".
pub fn make_fee_config(allowance: Option<Any>, expiration: Option<u32>) -> (r: FeeConfig)
    ensures
        r@ == (FeeConfigView { description: "test fee config"@, allowance: opt_any_view(allowance), expiration }),
{
    FeeConfig::new(String::from_str("test fee config"), allowance, expiration)
}

/// An expiration at 1 800 000 000 seconds after the epoch.
pub fn expiry() -> (r: Option<Timestamp>)
    ensures
        r == Some(Timestamp { seconds: 1_800_000_000, nanos: 0 }),
{
    Some(Timestamp { seconds: 1_800_000_000, nanos: 0 })
}

} // verus!
