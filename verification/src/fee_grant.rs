//! Deploying a fee grant: once a user has given the treasury's grantee every
//! required authz grant, the treasury grants that grantee its fee allowance.

use crate::allowance::{format_allowance, formatted};
use crate::error::{result_view, ContractError, ErrorView, StdFailure, StdFailureView};
use crate::grant::{FeeConfigView, GrantConfig, GrantConfigView};
use crate::order::{compare_bytes, Comparison};
use crate::proto::{
    encode_grant_allowance_msg, encode_revoke_allowance_msg, grant_allowance_msg_bytes,
    opt_any_view, revoke_allowance_msg_bytes, Any, AnyView, Timestamp,
};
use crate::response::{Msg, MsgView, Response, ResponseView};
use crate::treasury::{ContractEnv, ContractEnvView, Treasury, TreasuryView, REVOKE_ALLOWANCE_URL};
use vstd::prelude::*;
use vstd::string::*;

verus! {

/// The type URL of `cosmos.feegrant.v1beta1.MsgGrantAllowance`.
pub const GRANT_ALLOWANCE_URL: &'static str = "/cosmos.feegrant.v1beta1.MsgGrantAllowance";

/// An authz grant as the chain reports it (`cosmos.authz.v1beta1.Grant`).
#[derive(Debug, Clone, PartialEq, Eq)]
pub struct AuthzGrant {
    pub authorization: Option<Any>,
    pub expiration: Option<Timestamp>,
}

pub struct AuthzGrantView {
    pub authorization: Option<AnyView>,
    pub expiration: Option<Timestamp>,
}

impl View for AuthzGrant {
    type V = AuthzGrantView;

    open spec fn view(&self) -> AuthzGrantView {
        AuthzGrantView { authorization: opt_any_view(self.authorization), expiration: self.expiration }
    }
}

/// The model of the chain's answer to a query for the authz grants of one
/// message type.
pub open spec fn answer_view(r: Result<Vec<AuthzGrant>, StdFailure>) -> Result<Seq<AuthzGrantView>, StdFailureView> {
    match r {
        Ok(g) => Ok(g@.map_values(|x: AuthzGrant| x@)),
        Err(e) => Err(e@),
    }
}

/// The models of a sequence of such answers.
pub open spec fn answers_view(s: Seq<Result<Vec<AuthzGrant>, StdFailure>>) -> Seq<Result<Seq<AuthzGrantView>, StdFailureView>> {
    s.map_values(|r: Result<Vec<AuthzGrant>, StdFailure>| answer_view(r))
}

/// Why the grants of `type_url` fail its configuration, if they do. A failed
/// query fails whatever the configuration. Otherwise there must be exactly
/// one grant, with an authorization equal to the configured one; where the
/// configuration is optional, a missing or different grant is let pass.
pub open spec fn authz_verdict(type_url: Seq<char>, config: GrantConfigView, answer: Result<Seq<AuthzGrantView>, StdFailureView>) -> Option<ErrorView> {
    match answer {
        Err(e) => Some(ErrorView::Std(e)),
        Ok(grants) => if grants.len() != 1 {
            if config.optional { None } else { Some(ErrorView::AuthzGrantNotFound { msg_type_url: type_url }) }
        } else {
            match grants[0].authorization {
                None => if config.optional { None } else { Some(ErrorView::AuthzGrantNoAuthorization) },
                Some(auth) => if auth != config.authorization {
                    if config.optional { None } else { Some(ErrorView::AuthzGrantMismatch) }
                } else {
                    None
                },
            }
        },
    }
}

/// The first grant configuration, in store order, that its answer fails.
pub open spec fn first_authz_failure(configs: Seq<(Seq<char>, GrantConfigView)>, answers: Seq<Result<Seq<AuthzGrantView>, StdFailureView>>) -> Option<ErrorView>
    decreases configs.len(),
{
    if configs.len() == 0 || answers.len() == 0 {
        None
    } else {
        match first_authz_failure(configs.drop_last(), answers.drop_last()) {
            Some(e) => Some(e),
            None => authz_verdict(configs.last().0, configs.last().1, answers.last()),
        }
    }
}

/// The expiration of a fee grant made in a block at `block_time_nanos`
/// that lasts `seconds`.
pub open spec fn fee_grant_expiration(block_time_nanos: u64, seconds: Option<u32>) -> Option<Timestamp> {
    match seconds {
        None => None,
        Some(s) => {
            let t = block_time_nanos + s * 1_000_000_000;
            Some(Timestamp { seconds: (t / 1_000_000_000) as i64, nanos: (t % 1_000_000_000) as i32 })
        },
    }
}

/// The expiration of the fee configuration, added to the block time, is a
/// time that the chain can hold.
pub open spec fn expiration_fits(env: ContractEnvView, fee_config: FeeConfigView) -> bool {
    fee_config.allowance is Some ==> (fee_config.expiration matches Some(s) ==> env.block_time_nanos + s * 1_000_000_000 <= u64::MAX)
}

/// The fee grant from the treasury to `grantee`, asked for by `sender` on
/// behalf of `granter`, given the chain's answer for each grant
/// configuration in store order and whether the treasury already has an
/// allowance for `grantee`. Only the granter may ask. Every grant
/// configuration must be met. Without an allowance to give nothing is sent;
/// otherwise the formatted allowance is granted, and an existing one revoked
/// first.
pub open spec fn spec_deploy_fee_grant(
    t: TreasuryView,
    env: ContractEnvView,
    sender: Seq<char>,
    granter: Seq<char>,
    grantee: Seq<char>,
    answers: Seq<Result<Seq<AuthzGrantView>, StdFailureView>>,
    existing_allowance: bool,
) -> Result<ResponseView, ErrorView> {
    if sender != granter {
        Err(ErrorView::Unauthorized)
    } else {
        match first_authz_failure(t.grant_configs, answers) {
            Some(e) => Err(e),
            None => match t.fee_config.allowance {
                None => Ok(ResponseView { messages: seq![], events: seq![] }),
                Some(a) => match formatted(a, grantee, fee_grant_expiration(env.block_time_nanos, t.fee_config.expiration)) {
                    Err(e) => Err(e),
                    Ok(f) => {
                        let grant = MsgView::Any(AnyView {
                            type_url: GRANT_ALLOWANCE_URL@,
                            value: grant_allowance_msg_bytes(env.contract_address, grantee, f),
                        });
                        let revoke = MsgView::Any(AnyView {
                            type_url: REVOKE_ALLOWANCE_URL@,
                            value: revoke_allowance_msg_bytes(env.contract_address, grantee),
                        });
                        Ok(ResponseView {
                            messages: if existing_allowance { seq![revoke, grant] } else { seq![grant] },
                            events: seq![],
                        })
                    },
                },
            },
        }
    }
}

/// Whether two packed messages are the same.
fn same_any(a: &Any, b: &Any) -> (r: bool)
    ensures
        r == (a@ == b@),
{
    let same_url = a.type_url.eq(&b.type_url);
    let same_value = match compare_bytes(a.value.as_slice(), b.value.as_slice()) {
        Comparison::Equal => true,
        _ => false,
    };
    same_url && same_value
}

/// Checks the grants that the chain reported for `type_url` against its
/// configuration.
pub fn check_authz_grant(type_url: &String, config: &GrantConfig, answer: &Result<Vec<AuthzGrant>, StdFailure>) -> (r: Result<(), ContractError>)
    ensures
        match authz_verdict(type_url@, config@, answer_view(*answer)) {
            None => r is Ok,
            Some(e) => r matches Err(x) && x@ == e,
        },
{
    let grants = match answer {
        Err(e) => return Err(ContractError::Std(e.duplicate())),
        Ok(g) => g,
    };
    if grants.len() != 1 {
        if config.optional {
            return Ok(());
        }
        return Err(ContractError::AuthzGrantNotFound { msg_type_url: type_url.clone() });
    }
    assert(grants@.map_values(|x: AuthzGrant| x@)[0] == grants@[0]@);
    match &grants[0].authorization {
        None => if config.optional {
            Ok(())
        } else {
            Err(ContractError::AuthzGrantNoAuthorization)
        },
        Some(auth) => if !same_any(auth, &config.authorization) {
            if config.optional {
                Ok(())
            } else {
                Err(ContractError::AuthzGrantMismatch)
            }
        } else {
            Ok(())
        },
    }
}

/// A failure on a prefix of the configurations is the first failure of all.
proof fn lemma_first_failure_extends(configs: Seq<(Seq<char>, GrantConfigView)>, answers: Seq<Result<Seq<AuthzGrantView>, StdFailureView>>, k: int)
    requires
        0 <= k <= configs.len(),
        configs.len() == answers.len(),
        first_authz_failure(configs.take(k), answers.take(k)) is Some,
    ensures
        first_authz_failure(configs, answers) == first_authz_failure(configs.take(k), answers.take(k)),
    decreases configs.len() - k,
{
    if k < configs.len() {
        assert(configs.drop_last().take(k) =~= configs.take(k));
        assert(answers.drop_last().take(k) =~= answers.take(k));
        lemma_first_failure_extends(configs.drop_last(), answers.drop_last(), k);
    } else {
        assert(configs.take(k) =~= configs);
        assert(answers.take(k) =~= answers);
    }
}

/// The expiration of a fee grant made now that lasts `seconds`.
fn expiration_timestamp(block_time_nanos: u64, seconds: Option<u32>) -> (r: Option<Timestamp>)
    requires
        seconds matches Some(s) ==> block_time_nanos + s * 1_000_000_000 <= u64::MAX,
    ensures
        r == fee_grant_expiration(block_time_nanos, seconds),
{
    match seconds {
        None => None,
        Some(s) => {
            let s64 = s as u64;
            assert(s64 * 1_000_000_000 <= 4_294_967_295 * 1_000_000_000) by (nonlinear_arith)
                requires s64 <= 4_294_967_295;
            let t = block_time_nanos + s64 * 1_000_000_000;
            Some(Timestamp { seconds: (t / 1_000_000_000) as i64, nanos: (t % 1_000_000_000) as i32 })
        },
    }
}

impl Treasury {
    /// `sender` asks the treasury to grant `authz_grantee` the fee allowance,
    /// on behalf of `authz_granter`. `authz_answers` holds, for each grant
    /// configuration in store order, what the chain answered when asked for
    /// the grants from the granter to the grantee of that message type;
    /// `existing_allowance` says whether the treasury already gave the
    /// grantee an allowance.
    pub fn deploy_fee_grant(
        &self,
        env: &ContractEnv,
        sender: &String,
        authz_granter: String,
        authz_grantee: String,
        authz_answers: &Vec<Result<Vec<AuthzGrant>, StdFailure>>,
        existing_allowance: bool,
    ) -> (r: Result<Response, ContractError>)
        requires
            authz_answers@.len() == self@.grant_configs.len(),
            expiration_fits(env@, self@.fee_config),
        ensures
            result_view(r) == spec_deploy_fee_grant(
                self@,
                env@,
                sender@,
                authz_granter@,
                authz_grantee@,
                answers_view(authz_answers@),
                existing_allowance,
            ),
    {
        if !sender.eq(&authz_granter) {
            return Err(ContractError::Unauthorized);
        }
        let ghost configs = self@.grant_configs;
        let ghost answers = answers_view(authz_answers@);
        let n = self.grant_config_count();
        let mut i: usize = 0;
        assert(configs.take(0) =~= Seq::<(Seq<char>, GrantConfigView)>::empty());
        while i < n
            invariant
                i <= n,
                n == configs.len(),
                configs == self@.grant_configs,
                answers == answers_view(authz_answers@),
                authz_answers@.len() == n,
                sender@ == authz_granter@,
                first_authz_failure(configs.take(i as int), answers.take(i as int)) is None,
            decreases n - i,
        {
            let (url, config) = self.grant_config_at(i);
            assert(configs.take(i + 1).drop_last() =~= configs.take(i as int));
            assert(answers.take(i + 1).drop_last() =~= answers.take(i as int));
            assert(answers[i as int] == answer_view(authz_answers@[i as int]));
            assert(configs.take(i + 1).last() == configs[i as int]);
            assert(answers.take(i + 1).last() == answers[i as int]);
            match check_authz_grant(url, config, &authz_answers[i]) {
                Err(e) => {
                    proof {
                        assert(first_authz_failure(configs.take(i + 1), answers.take(i + 1)) == Some(e@));
                        lemma_first_failure_extends(configs, answers, i + 1);
                    }
                    return Err(e);
                },
                Ok(()) => {},
            }
            i = i + 1;
        }
        assert(configs.take(n as int) =~= configs);
        assert(answers.take(n as int) =~= answers);
        let fee = self.fee_config();
        let allowance = match fee.allowance {
            None => {
                let r = Response { messages: Vec::new(), events: Vec::new() };
                assert(r@.messages =~= Seq::<MsgView>::empty());
                assert(r@.events =~= Seq::<crate::response::EventView>::empty());
                return Ok(r);
            },
            Some(a) => a,
        };
        let expiration = expiration_timestamp(env.block_time_nanos, fee.expiration);
        let formatted_allowance = match format_allowance(allowance, env.contract_address.clone(), authz_grantee.clone(), expiration) {
            Err(e) => return Err(e),
            Ok(f) => f,
        };
        let grant_bytes = encode_grant_allowance_msg(env.contract_address.clone(), authz_grantee.clone(), formatted_allowance);
        let mut messages: Vec<Msg> = Vec::new();
        if existing_allowance {
            let revoke_bytes = encode_revoke_allowance_msg(env.contract_address.clone(), authz_grantee.clone());
            messages.push(Msg::Any(Any { type_url: String::from_str(REVOKE_ALLOWANCE_URL), value: revoke_bytes }));
        }
        messages.push(Msg::Any(Any { type_url: String::from_str(GRANT_ALLOWANCE_URL), value: grant_bytes }));
        let r = Response { messages, events: Vec::new() };
        assert(r@.events =~= Seq::<crate::response::EventView>::empty());
        if existing_allowance {
            assert(r@.messages =~= seq![
                MsgView::Any(AnyView { type_url: REVOKE_ALLOWANCE_URL@, value: revoke_allowance_msg_bytes(env.contract_address@, authz_grantee@) }),
                MsgView::Any(AnyView { type_url: GRANT_ALLOWANCE_URL@, value: grant_bytes@ }),
            ]);
        } else {
            assert(r@.messages =~= seq![MsgView::Any(AnyView { type_url: GRANT_ALLOWANCE_URL@, value: grant_bytes@ })]);
        }
        Ok(r)
    }
}

} // verus!
