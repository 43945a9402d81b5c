//! Shaping of a fee allowance before the treasury grants it: the expiration of
//! the treasury's fee configuration is written into every basic allowance it
//! contains, and every authz allowance is bound to the grantee.

use crate::error::{result_view, ContractError, ErrorView};
use crate::proto::{
    anys_view, authz_allowance_bytes, authz_allowance_from_bytes, basic_allowance_bytes,
    basic_allowance_from_bytes, decode_authz_allowance, decode_basic_allowance,
    decode_list_allowance, decode_multi_allowance, decode_periodic_allowance,
    encode_authz_allowance, encode_basic_allowance, encode_list_allowance,
    encode_multi_allowance, encode_periodic_allowance, list_allowance_bytes,
    list_allowance_from_bytes, multi_allowance_bytes, multi_allowance_from_bytes,
    periodic_allowance_bytes, periodic_allowance_from_bytes, Any, AnyView, AuthzAllowance,
    AuthzAllowanceView, BasicAllowanceView, ListAllowance, ListAllowanceView, MultiAnyAllowance,
    MultiAnyAllowanceView, PeriodicAllowanceView, Timestamp,
};
use vstd::prelude::*;
use vstd::string::*;

verus! {

pub const BASIC_ALLOWANCE_URL: &'static str = "/cosmos.feegrant.v1beta1.BasicAllowance";

pub const PERIODIC_ALLOWANCE_URL: &'static str = "/cosmos.feegrant.v1beta1.PeriodicAllowance";

pub const ALLOWED_MSG_ALLOWANCE_URL: &'static str = "/cosmos.feegrant.v1beta1.AllowedMsgAllowance";

pub const AUTHZ_ALLOWANCE_URL: &'static str = "/xion.v1.AuthzAllowance";

pub const CONTRACTS_ALLOWANCE_URL: &'static str = "/xion.v1.ContractsAllowance";

pub const MULTI_ANY_ALLOWANCE_URL: &'static str = "/xion.v1.MultiAnyAllowance";

/// The allowance `a` once formatted for `grantee` with expiration `exp`.
///
/// A basic allowance gets the expiration; so does the basic allowance inside a
/// periodic one. Where there is no expiration to set, both are left as they
/// are. The wrapping allowances (allowed messages, contracts, authz, several
/// allowances) are formatted inside, and an authz allowance is bound to the
/// grantee. Any other type is refused. (The branches on a wrapped allowance
/// whose bytes are not fewer than its wrapper's cannot be reached: a nested
/// field is part of the bytes around it.)
pub open spec fn formatted(a: AnyView, grantee: Seq<char>, exp: Option<Timestamp>) -> Result<AnyView, ErrorView>
    decreases a.value.len(), 1nat, 0nat,
{
    let url = a.type_url;
    if url == BASIC_ALLOWANCE_URL@ {
        if exp is None {
            Ok(a)
        } else {
            match basic_allowance_from_bytes(a.value) {
                Err(text) => Err(ErrorView::Decode(text)),
                Ok(b) => Ok(AnyView {
                    type_url: url,
                    value: basic_allowance_bytes(BasicAllowanceView { expiration: exp, ..b }),
                }),
            }
        }
    } else if url == PERIODIC_ALLOWANCE_URL@ {
        if exp is None {
            Ok(a)
        } else {
            match periodic_allowance_from_bytes(a.value) {
                Err(text) => Err(ErrorView::Decode(text)),
                Ok(p) => match p.basic {
                    None => Err(ErrorView::AllowanceUnset),
                    Some(b) => Ok(AnyView {
                        type_url: url,
                        value: periodic_allowance_bytes(PeriodicAllowanceView {
                            basic: Some(BasicAllowanceView { expiration: exp, ..b }),
                            ..p
                        }),
                    }),
                },
            }
        }
    } else if url == ALLOWED_MSG_ALLOWANCE_URL@ || url == CONTRACTS_ALLOWANCE_URL@ {
        match list_allowance_from_bytes(a.value) {
            Err(text) => Err(ErrorView::Decode(text)),
            Ok(l) => match l.allowance {
                None => Err(ErrorView::AllowanceUnset),
                Some(inner) => if inner.value.len() < a.value.len() {
                    match formatted(inner, grantee, exp) {
                        Err(e) => Err(e),
                        Ok(f) => Ok(AnyView {
                            type_url: url,
                            value: list_allowance_bytes(ListAllowanceView { allowance: Some(f), ..l }),
                        }),
                    }
                } else {
                    Err(ErrorView::Decode(Seq::empty()))
                },
            },
        }
    } else if url == AUTHZ_ALLOWANCE_URL@ {
        match authz_allowance_from_bytes(a.value) {
            Err(text) => Err(ErrorView::Decode(text)),
            Ok(z) => match z.allowance {
                None => Err(ErrorView::AllowanceUnset),
                Some(inner) => if inner.value.len() < a.value.len() {
                    match formatted(inner, grantee, exp) {
                        Err(e) => Err(e),
                        Ok(f) => Ok(AnyView {
                            type_url: url,
                            value: authz_allowance_bytes(AuthzAllowanceView { allowance: Some(f), authz_grantee: grantee }),
                        }),
                    }
                } else {
                    Err(ErrorView::Decode(Seq::empty()))
                },
            },
        }
    } else if url == MULTI_ANY_ALLOWANCE_URL@ {
        match multi_allowance_from_bytes(a.value) {
            Err(text) => Err(ErrorView::Decode(text)),
            Ok(m) => match formatted_list(m.allowances, a.value.len(), grantee, exp) {
                Err(e) => Err(e),
                Ok(fs) => Ok(AnyView {
                    type_url: url,
                    value: multi_allowance_bytes(MultiAnyAllowanceView { allowances: fs }),
                }),
            },
        }
    } else {
        Err(ErrorView::InvalidAllowanceType { msg_type_url: url })
    }
}

/// The allowances `items`, each formatted, in order; the first refusal wins.
/// Each item's bytes must be fewer than `bound` (the bytes of the list's
/// wrapper), which always holds of a decoded list.
pub open spec fn formatted_list(items: Seq<AnyView>, bound: nat, grantee: Seq<char>, exp: Option<Timestamp>) -> Result<Seq<AnyView>, ErrorView>
    decreases bound, 0nat, items.len(),
{
    if items.len() == 0 {
        Ok(Seq::empty())
    } else {
        match formatted_list(items.drop_last(), bound, grantee, exp) {
            Err(e) => Err(e),
            Ok(done) => {
                let last = items.last();
                if last.value.len() < bound {
                    match formatted(last, grantee, exp) {
                        Err(e) => Err(e),
                        Ok(f) => Ok(done.push(f)),
                    }
                } else {
                    Err(ErrorView::Decode(Seq::empty()))
                }
            },
        }
    }
}

/// What decoding a formatted allowance `f` gives back, for an allowance `a`
/// whose formatting succeeded: the basic allowance with the new expiration
/// (directly, or inside the periodic one), the wrapper around the formatted
/// inner allowance with its list kept, the authz allowance bound to the
/// grantee, the list of formatted allowances.
pub open spec fn decodes_as_formatted(a: AnyView, f: AnyView, grantee: Seq<char>, exp: Option<Timestamp>) -> bool {
    let url = a.type_url;
    if url == BASIC_ALLOWANCE_URL@ {
        exp is None || basic_allowance_from_bytes(f.value) == Ok::<BasicAllowanceView, Seq<char>>(
            BasicAllowanceView { expiration: exp, ..basic_allowance_from_bytes(a.value)->Ok_0 },
        )
    } else if url == PERIODIC_ALLOWANCE_URL@ {
        exp is None || ({
            let p = periodic_allowance_from_bytes(a.value)->Ok_0;
            periodic_allowance_from_bytes(f.value) == Ok::<PeriodicAllowanceView, Seq<char>>(PeriodicAllowanceView {
                basic: Some(BasicAllowanceView { expiration: exp, ..p.basic->Some_0 }),
                ..p
            })
        })
    } else if url == ALLOWED_MSG_ALLOWANCE_URL@ || url == CONTRACTS_ALLOWANCE_URL@ {
        let l = list_allowance_from_bytes(a.value)->Ok_0;
        list_allowance_from_bytes(f.value) == Ok::<ListAllowanceView, Seq<char>>(ListAllowanceView {
            allowance: Some(formatted(l.allowance->Some_0, grantee, exp)->Ok_0),
            ..l
        })
    } else if url == AUTHZ_ALLOWANCE_URL@ {
        let z = authz_allowance_from_bytes(a.value)->Ok_0;
        authz_allowance_from_bytes(f.value) == Ok::<AuthzAllowanceView, Seq<char>>(AuthzAllowanceView {
            allowance: Some(formatted(z.allowance->Some_0, grantee, exp)->Ok_0),
            authz_grantee: grantee,
        })
    } else if url == MULTI_ANY_ALLOWANCE_URL@ {
        let m = multi_allowance_from_bytes(a.value)->Ok_0;
        multi_allowance_from_bytes(f.value) == Ok::<MultiAnyAllowanceView, Seq<char>>(MultiAnyAllowanceView {
            allowances: formatted_list(m.allowances, a.value.len(), grantee, exp)->Ok_0,
        })
    } else {
        true
    }
}

/// A refusal on a prefix of the list is the refusal of the whole list.
proof fn lemma_list_refusal_extends(items: Seq<AnyView>, k: int, bound: nat, grantee: Seq<char>, exp: Option<Timestamp>)
    requires
        0 <= k <= items.len(),
        formatted_list(items.take(k), bound, grantee, exp) is Err,
    ensures
        formatted_list(items, bound, grantee, exp) == formatted_list(items.take(k), bound, grantee, exp),
    decreases items.len() - k,
{
    if k < items.len() {
        assert(items.drop_last().take(k) =~= items.take(k));
        lemma_list_refusal_extends(items.drop_last(), k, bound, grantee, exp);
    } else {
        assert(items.take(k) =~= items);
    }
}

/// Formats `allowance_any` for a fee grant from `granter` to `grantee` that
/// expires at `expiration`, as [`formatted`] says.
pub fn format_allowance(allowance_any: Any, granter: String, grantee: String, expiration: Option<Timestamp>) -> (r: Result<Any, ContractError>)
    ensures
        result_view(r) == formatted(allowance_any@, grantee@, expiration),
        r matches Ok(f) ==> decodes_as_formatted(allowance_any@, f@, grantee@, expiration),
    decreases allowance_any.value@.len(),
{
    let url = allowance_any.type_url.clone();
    if url == String::from_str(BASIC_ALLOWANCE_URL) {
        if expiration.is_none() {
            return Ok(allowance_any);
        }
        match decode_basic_allowance(allowance_any.value.as_slice()) {
            Err(msg) => Err(ContractError::Decode(msg)),
            Ok(b) => {
                let b2 = crate::proto::BasicAllowance { expiration, ..b };
                let value = encode_basic_allowance(b2);
                Ok(Any { type_url: allowance_any.type_url, value })
            },
        }
    } else if url == String::from_str(PERIODIC_ALLOWANCE_URL) {
        if expiration.is_none() {
            return Ok(allowance_any);
        }
        match decode_periodic_allowance(allowance_any.value.as_slice()) {
            Err(msg) => Err(ContractError::Decode(msg)),
            Ok(p) => {
                let crate::proto::PeriodicAllowance { basic, period, period_spend_limit, period_can_spend, period_reset } = p;
                match basic {
                    None => Err(ContractError::AllowanceUnset),
                    Some(b) => {
                        let b2 = crate::proto::BasicAllowance { expiration, ..b };
                        let p2 = crate::proto::PeriodicAllowance {
                            basic: Some(b2),
                            period,
                            period_spend_limit,
                            period_can_spend,
                            period_reset,
                        };
                        let value = encode_periodic_allowance(p2);
                        Ok(Any { type_url: allowance_any.type_url, value })
                    },
                }
            },
        }
    } else if url == String::from_str(ALLOWED_MSG_ALLOWANCE_URL) || url == String::from_str(CONTRACTS_ALLOWANCE_URL) {
        match decode_list_allowance(allowance_any.value.as_slice()) {
            Err(msg) => Err(ContractError::Decode(msg)),
            Ok(l) => {
                let ListAllowance { allowance, entries } = l;
                match allowance {
                    None => Err(ContractError::AllowanceUnset),
                    Some(inner) => match format_allowance(inner, granter, grantee, expiration) {
                        Err(e) => Err(e),
                        Ok(f) => {
                            let value = encode_list_allowance(ListAllowance { allowance: Some(f), entries });
                            Ok(Any { type_url: allowance_any.type_url, value })
                        },
                    },
                }
            },
        }
    } else if url == String::from_str(AUTHZ_ALLOWANCE_URL) {
        match decode_authz_allowance(allowance_any.value.as_slice()) {
            Err(msg) => Err(ContractError::Decode(msg)),
            Ok(z) => {
                let AuthzAllowance { allowance, authz_grantee: _ } = z;
                match allowance {
                    None => Err(ContractError::AllowanceUnset),
                    Some(inner) => match format_allowance(inner, granter, grantee.clone(), expiration) {
                        Err(e) => Err(e),
                        Ok(f) => {
                            let value = encode_authz_allowance(AuthzAllowance { allowance: Some(f), authz_grantee: grantee });
                            Ok(Any { type_url: allowance_any.type_url, value })
                        },
                    },
                }
            },
        }
    } else if url == String::from_str(MULTI_ANY_ALLOWANCE_URL) {
        match decode_multi_allowance(allowance_any.value.as_slice()) {
            Err(msg) => Err(ContractError::Decode(msg)),
            Ok(m) => {
                let items = m.allowances;
                let ghost bound = allowance_any.value@.len();
                let mut out: Vec<Any> = Vec::new();
                let mut i: usize = 0;
                assert(anys_view(items@).take(0) =~= Seq::<AnyView>::empty());
                assert(anys_view(out@) =~= Seq::<AnyView>::empty());
                while i < items.len()
                    invariant
                        i <= items.len(),
                        bound == allowance_any.value@.len(),
                        formatted(allowance_any@, grantee@, expiration) == match formatted_list(anys_view(items@), bound, grantee@, expiration) {
                            Err(e) => Err(e),
                            Ok(fs) => Ok(AnyView {
                                type_url: allowance_any.type_url@,
                                value: multi_allowance_bytes(MultiAnyAllowanceView { allowances: fs }),
                            }),
                        },
                        forall|j: int| 0 <= j < items@.len() ==> #[trigger] items@[j].value@.len() < bound,
                        formatted_list(anys_view(items@).take(i as int), bound, grantee@, expiration) == Ok::<Seq<AnyView>, ErrorView>(anys_view(out@)),
                    decreases items.len() - i,
                {
                    let item = items[i].duplicate();
                    let ghost prefix = anys_view(items@).take(i + 1);
                    let ghost old_out = anys_view(out@);
                    assert(prefix.drop_last() =~= anys_view(items@).take(i as int));
                    assert(prefix.last() == items@[i as int]@);
                    assert(prefix.last().value.len() < bound);
                    match format_allowance(item, granter.clone(), grantee.clone(), expiration) {
                        Err(e) => {
                            proof {
                                assert(formatted_list(prefix, bound, grantee@, expiration) == Err::<Seq<AnyView>, ErrorView>(e@));
                                lemma_list_refusal_extends(anys_view(items@), i + 1, bound, grantee@, expiration);
                            }
                            return Err(e);
                        },
                        Ok(f) => {
                            out.push(f);
                            assert(anys_view(out@) =~= old_out.push(f@));
                            assert(formatted_list(prefix, bound, grantee@, expiration) == Ok::<Seq<AnyView>, ErrorView>(old_out.push(f@)));
                        },
                    }
                    i = i + 1;
                }
                assert(anys_view(items@).take(items@.len() as int) =~= anys_view(items@));
                let value = encode_multi_allowance(MultiAnyAllowance { allowances: out });
                Ok(Any { type_url: allowance_any.type_url, value })
            },
        }
    } else {
        Err(ContractError::InvalidAllowanceType { msg_type_url: allowance_any.type_url })
    }
}

} // verus!
