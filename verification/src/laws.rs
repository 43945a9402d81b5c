//! What holds of the treasury across its operations.

use crate::allowance::{
    formatted, formatted_list, ALLOWED_MSG_ALLOWANCE_URL, AUTHZ_ALLOWANCE_URL, BASIC_ALLOWANCE_URL,
    CONTRACTS_ALLOWANCE_URL, MULTI_ANY_ALLOWANCE_URL, PERIODIC_ALLOWANCE_URL,
};
use crate::error::{ErrorView, StdFailureView};
use crate::fee_grant::{
    authz_verdict, fee_grant_expiration, first_authz_failure, spec_deploy_fee_grant,
    AuthzGrantView, GRANT_ALLOWANCE_URL,
};
use crate::grant::{
    key_lt, lemma_table_insert_law, lemma_table_remove_law, table_has, table_keys, table_map,
    table_sorted, FeeConfigView, GrantConfigView,
};
use crate::params::{params_error, ParamsView};
use crate::proto::{
    grant_allowance_msg_bytes, multi_allowance_bytes, multi_allowance_from_bytes,
    revoke_allowance_msg_bytes, AnyView, MultiAnyAllowanceView, Timestamp,
};
use crate::response::{bool_text, CoinView, MsgView, ResponseView};
use crate::treasury::{
    no_pending_admin, spec_accept_admin, spec_cancel_proposed_admin, spec_init, spec_migrate,
    spec_propose_admin, spec_remove_grant_config, spec_revoke_allowance, spec_update_fee_config,
    spec_update_grant_config, spec_update_params, spec_withdraw_coins, table_from, treasury_wf,
    ContractEnvView, TreasuryView, REVOKE_ALLOWANCE_URL,
};
use vstd::prelude::*;
use vstd::string::*;

verus! {

/// Handing over the admin role takes two steps. After the admin proposes a
/// successor, the admin is still in charge and the successor is pending;
/// once the successor accepts, it is the admin, nothing is pending, and the
/// rest of the treasury is as it was.
pub proof fn law_admin_handover(t: TreasuryView, successor: Seq<char>)
    ensures
        ({
            let (t1, r1) = spec_propose_admin(t, t.admin, Ok(successor));
            let (t2, r2) = spec_accept_admin(t1, successor);
            &&& r1 is Ok
            &&& t1.admin == t.admin
            &&& t1.pending_admin == Some(successor)
            &&& r2 is Ok
            &&& t2.admin == successor
            &&& t2.pending_admin is None
            &&& t2.grant_configs == t.grant_configs
            &&& t2.fee_config == t.fee_config
            &&& t2.params == t.params
        }),
{
}

/// Nobody but the proposed admin can accept the admin role; anyone else is
/// refused and nothing changes.
pub proof fn law_only_the_proposed_admin_accepts(t: TreasuryView, sender: Seq<char>)
    requires
        t.pending_admin matches Some(p) && sender != p,
    ensures
        spec_accept_admin(t, sender) == (t, Err::<ResponseView, ErrorView>(ErrorView::Unauthorized)),
{
}

/// A proposal that the admin cancelled can no longer be accepted, by anyone.
pub proof fn law_cancelled_proposal_cannot_be_accepted(t: TreasuryView, sender: Seq<char>)
    ensures
        ({
            let (t1, r1) = spec_cancel_proposed_admin(t, t.admin);
            &&& r1 is Ok
            &&& t1.pending_admin is None
            &&& spec_accept_admin(t1, sender) == (t1, Err::<ResponseView, ErrorView>(ErrorView::Std(no_pending_admin())))
        }),
{
}

/// Only the admin may run the admin's operations: any other sender is
/// refused as unauthorized, and the treasury does not change.
pub proof fn law_only_the_admin_administers(
    t: TreasuryView,
    env: ContractEnvView,
    sender: Seq<char>,
    new_admin: Result<Seq<char>, StdFailureView>,
    type_url: Seq<char>,
    config: GrantConfigView,
    fee_config: FeeConfigView,
    params: ParamsView,
    coins: Seq<CoinView>,
    grantee: Seq<char>,
    new_code_id: u64,
    msg: Seq<u8>,
)
    requires
        sender != t.admin,
    ensures
        spec_propose_admin(t, sender, new_admin) == (t, Err::<ResponseView, ErrorView>(ErrorView::Unauthorized)),
        spec_cancel_proposed_admin(t, sender) == (t, Err::<ResponseView, ErrorView>(ErrorView::Unauthorized)),
        spec_update_grant_config(t, sender, type_url, config) == (t, Err::<ResponseView, ErrorView>(ErrorView::Unauthorized)),
        spec_remove_grant_config(t, sender, type_url) == (t, Err::<ResponseView, ErrorView>(ErrorView::Unauthorized)),
        spec_update_fee_config(t, sender, fee_config) == (t, Err::<ResponseView, ErrorView>(ErrorView::Unauthorized)),
        spec_update_params(t, sender, params) == (t, Err::<ResponseView, ErrorView>(ErrorView::Unauthorized)),
        spec_withdraw_coins(t, sender, coins) == Err::<ResponseView, ErrorView>(ErrorView::Unauthorized),
        spec_revoke_allowance(t, env, sender, grantee) == Err::<ResponseView, ErrorView>(ErrorView::Unauthorized),
        spec_migrate(t, env, sender, new_code_id, msg) == Err::<ResponseView, ErrorView>(ErrorView::Unauthorized),
{
}

/// A refused operation leaves the treasury as it was.
pub proof fn law_refusals_change_nothing(
    t: TreasuryView,
    sender: Seq<char>,
    new_admin: Result<Seq<char>, StdFailureView>,
    type_url: Seq<char>,
    config: GrantConfigView,
    fee_config: FeeConfigView,
    params: ParamsView,
)
    ensures
        spec_propose_admin(t, sender, new_admin).1 is Err ==> spec_propose_admin(t, sender, new_admin).0 == t,
        spec_accept_admin(t, sender).1 is Err ==> spec_accept_admin(t, sender).0 == t,
        spec_cancel_proposed_admin(t, sender).1 is Err ==> spec_cancel_proposed_admin(t, sender).0 == t,
        spec_update_grant_config(t, sender, type_url, config).1 is Err ==> spec_update_grant_config(t, sender, type_url, config).0 == t,
        spec_remove_grant_config(t, sender, type_url).1 is Err ==> spec_remove_grant_config(t, sender, type_url).0 == t,
        spec_update_fee_config(t, sender, fee_config).1 is Err ==> spec_update_fee_config(t, sender, fee_config).0 == t,
        spec_update_params(t, sender, params).1 is Err ==> spec_update_params(t, sender, params).0 == t,
{
}

/// The table built by a new treasury is sorted.
proof fn lemma_table_from_sorted(type_urls: Seq<Seq<char>>, configs: Seq<GrantConfigView>)
    ensures
        table_sorted(table_from(type_urls, configs)),
    decreases type_urls.len(),
{
    if type_urls.len() != 0 && configs.len() != 0 {
        lemma_table_from_sorted(type_urls.drop_last(), configs.drop_last());
        lemma_table_insert_law(table_from(type_urls.drop_last(), configs.drop_last()), type_urls.last(), configs.last());
    }
}

/// Every treasury stays well formed: a new one is, and every operation keeps
/// its grant configurations in store order and its parameters valid.
pub proof fn law_operations_keep_the_treasury_well_formed(
    t: TreasuryView,
    sender: Seq<char>,
    new_admin: Result<Seq<char>, StdFailureView>,
    type_url: Seq<char>,
    config: GrantConfigView,
    fee_config: FeeConfigView,
    params: ParamsView,
    admin: Option<Seq<char>>,
    type_urls: Seq<Seq<char>>,
    configs: Seq<GrantConfigView>,
)
    requires
        treasury_wf(t),
    ensures
        spec_init(admin, type_urls, configs, fee_config, params) matches Ok((t0, _)) ==> treasury_wf(t0),
        treasury_wf(spec_propose_admin(t, sender, new_admin).0),
        treasury_wf(spec_accept_admin(t, sender).0),
        treasury_wf(spec_cancel_proposed_admin(t, sender).0),
        treasury_wf(spec_update_grant_config(t, sender, type_url, config).0),
        treasury_wf(spec_remove_grant_config(t, sender, type_url).0),
        treasury_wf(spec_update_fee_config(t, sender, fee_config).0),
        treasury_wf(spec_update_params(t, sender, params).0),
{
    lemma_table_from_sorted(type_urls, configs);
    lemma_table_insert_law(t.grant_configs, type_url, config);
    lemma_table_remove_law(t.grant_configs, type_url);
}

/// The admin's update stores the configuration for its type URL and leaves
/// the others; its event says whether a configuration was replaced.
pub proof fn law_update_grant_config_stores(t: TreasuryView, type_url: Seq<char>, config: GrantConfigView)
    requires
        treasury_wf(t),
    ensures
        ({
            let (t1, r1) = spec_update_grant_config(t, t.admin, type_url, config);
            &&& table_map(t1.grant_configs) == table_map(t.grant_configs).insert(type_url, config)
            &&& r1 matches Ok(resp) && resp.events[0].attributes[1].value == bool_text(
                table_map(t.grant_configs).contains_key(type_url),
            )
        }),
{
    lemma_table_insert_law(t.grant_configs, type_url, config);
}

/// The admin's removal takes the configuration of its type URL out and
/// leaves the others; a type URL without a configuration is refused.
pub proof fn law_remove_grant_config_removes(t: TreasuryView, type_url: Seq<char>)
    requires
        treasury_wf(t),
    ensures
        ({
            let (t1, r1) = spec_remove_grant_config(t, t.admin, type_url);
            &&& table_map(t.grant_configs).contains_key(type_url) ==> r1 is Ok && table_map(t1.grant_configs)
                == table_map(t.grant_configs).remove(type_url)
            &&& !table_map(t.grant_configs).contains_key(type_url) ==> r1 == Err::<ResponseView, ErrorView>(
                ErrorView::GrantConfigNotFound { type_url },
            )
        }),
{
    lemma_table_remove_law(t.grant_configs, type_url);
}

/// The configured type URLs are listed once each, ascending in store order.
pub proof fn law_type_urls_are_listed_in_store_order(t: TreasuryView)
    requires
        treasury_wf(t),
    ensures
        forall|i: int, j: int| 0 <= i < j < table_keys(t.grant_configs).len() ==> key_lt(
            #[trigger] table_keys(t.grant_configs)[i],
            #[trigger] table_keys(t.grant_configs)[j],
        ),
        forall|k: Seq<char>| table_keys(t.grant_configs).contains(k) <==> #[trigger] table_map(t.grant_configs).contains_key(k),
{
    let keys = table_keys(t.grant_configs);
    assert forall|i: int, j: int| 0 <= i < j < keys.len() implies key_lt(#[trigger] keys[i], #[trigger] keys[j]) by {
        assert(keys[i] == t.grant_configs[i].0 && keys[j] == t.grant_configs[j].0);
    }
    assert forall|k: Seq<char>| keys.contains(k) <==> #[trigger] table_map(t.grant_configs).contains_key(k) by {
        if keys.contains(k) {
            let i = choose|i: int| 0 <= i < keys.len() && keys[i] == k;
            assert(t.grant_configs[i].0 == k);
        }
        if table_has(t.grant_configs, k) {
            let i = choose|i: int| 0 <= i < t.grant_configs.len() && #[trigger] t.grant_configs[i].0 == k;
            assert(keys[i] == k);
        }
    }
}

/// Formatting keeps the type of an allowance.
pub proof fn law_formatting_keeps_the_type(a: AnyView, grantee: Seq<char>, exp: Option<Timestamp>)
    ensures
        formatted(a, grantee, exp) matches Ok(f) ==> f.type_url == a.type_url,
{
}

/// Without an expiration to set, a basic or periodic allowance is left as it
/// is.
pub proof fn law_no_expiration_leaves_basic_allowances(a: AnyView, grantee: Seq<char>)
    requires
        a.type_url == BASIC_ALLOWANCE_URL@ || a.type_url == PERIODIC_ALLOWANCE_URL@,
    ensures
        formatted(a, grantee, None) == Ok::<AnyView, ErrorView>(a),
{
}

/// An allowance of a type that the treasury does not know is refused with
/// that type.
pub proof fn law_unknown_allowance_types_are_refused(a: AnyView, grantee: Seq<char>, exp: Option<Timestamp>)
    requires
        a.type_url != BASIC_ALLOWANCE_URL@,
        a.type_url != PERIODIC_ALLOWANCE_URL@,
        a.type_url != ALLOWED_MSG_ALLOWANCE_URL@,
        a.type_url != CONTRACTS_ALLOWANCE_URL@,
        a.type_url != AUTHZ_ALLOWANCE_URL@,
        a.type_url != MULTI_ANY_ALLOWANCE_URL@,
    ensures
        formatted(a, grantee, exp) == Err::<AnyView, ErrorView>(ErrorView::InvalidAllowanceType { msg_type_url: a.type_url }),
{
}

/// Only the granter of the authz grants can have the treasury deploy a fee
/// grant for them; the admin is no exception.
pub proof fn law_only_the_granter_deploys(
    t: TreasuryView,
    env: ContractEnvView,
    sender: Seq<char>,
    granter: Seq<char>,
    grantee: Seq<char>,
    answers: Seq<Result<Seq<AuthzGrantView>, StdFailureView>>,
    existing_allowance: bool,
)
    requires
        sender != granter,
    ensures
        spec_deploy_fee_grant(t, env, sender, granter, grantee, answers, existing_allowance)
            == Err::<ResponseView, ErrorView>(ErrorView::Unauthorized),
{
}

/// A withdrawal sends exactly the requested coins, to the admin.
pub proof fn law_withdrawals_go_to_the_admin(t: TreasuryView, coins: Seq<CoinView>)
    ensures
        spec_withdraw_coins(t, t.admin, coins) == Ok::<ResponseView, ErrorView>(ResponseView {
            messages: seq![MsgView::BankSend { to_address: t.admin, amount: coins }],
            events: seq![],
        }),
{
}

} // verus!

verus! {

/// Formatting a list of allowances formats each of them: the result has as
/// many allowances as the list, and each is its own allowance formatted.
pub proof fn law_list_formats_each_allowance(items: Seq<AnyView>, bound: nat, grantee: Seq<char>, exp: Option<Timestamp>)
    ensures
        formatted_list(items, bound, grantee, exp) matches Ok(fs) ==> fs.len() == items.len() && forall|i: int|
            0 <= i < items.len() ==> formatted(#[trigger] items[i], grantee, exp) == Ok::<AnyView, ErrorView>(fs[i]),
    decreases items.len(),
{
    if items.len() > 0 {
        law_list_formats_each_allowance(items.drop_last(), bound, grantee, exp);
        if formatted_list(items, bound, grantee, exp) is Ok {
            let fs = formatted_list(items, bound, grantee, exp)->Ok_0;
            let done = formatted_list(items.drop_last(), bound, grantee, exp)->Ok_0;
            assert forall|i: int| 0 <= i < items.len() implies formatted(#[trigger] items[i], grantee, exp)
                == Ok::<AnyView, ErrorView>(fs[i]) by {
                if i < items.len() - 1 {
                    assert(items[i] == items.drop_last()[i]);
                    assert(fs[i] == done[i]);
                }
            }
        }
    }
}

/// A multi allowance is formatted arm by arm: the result is the encoding of
/// as many allowances as the input had, each the formatting of its arm.
pub proof fn law_multi_allowance_formats_every_arm(a: AnyView, grantee: Seq<char>, exp: Option<Timestamp>)
    requires
        a.type_url == MULTI_ANY_ALLOWANCE_URL@,
        formatted(a, grantee, exp) is Ok,
    ensures
        multi_allowance_from_bytes(a.value) is Ok,
        ({
            let arms = multi_allowance_from_bytes(a.value)->Ok_0.allowances;
            exists|fs: Seq<AnyView>| {
                &&& fs.len() == arms.len()
                &&& forall|i: int| 0 <= i < arms.len() ==> formatted(#[trigger] arms[i], grantee, exp)
                    == Ok::<AnyView, ErrorView>(fs[i])
                &&& formatted(a, grantee, exp)->Ok_0.value == multi_allowance_bytes(MultiAnyAllowanceView { allowances: fs })
            }
        }),
{
    reveal_strlit("/cosmos.feegrant.v1beta1.BasicAllowance");
    reveal_strlit("/cosmos.feegrant.v1beta1.PeriodicAllowance");
    reveal_strlit("/cosmos.feegrant.v1beta1.AllowedMsgAllowance");
    reveal_strlit("/xion.v1.AuthzAllowance");
    reveal_strlit("/xion.v1.ContractsAllowance");
    reveal_strlit("/xion.v1.MultiAnyAllowance");
    assert(a.type_url.len() != BASIC_ALLOWANCE_URL@.len());
    assert(a.type_url.len() != PERIODIC_ALLOWANCE_URL@.len());
    assert(a.type_url.len() != ALLOWED_MSG_ALLOWANCE_URL@.len());
    assert(a.type_url.len() != AUTHZ_ALLOWANCE_URL@.len());
    assert(a.type_url.len() != CONTRACTS_ALLOWANCE_URL@.len());
    let arms = multi_allowance_from_bytes(a.value)->Ok_0.allowances;
    law_list_formats_each_allowance(arms, a.value.len(), grantee, exp);
    let fs = formatted_list(arms, a.value.len(), grantee, exp)->Ok_0;
    assert(formatted(a, grantee, exp)->Ok_0.value == multi_allowance_bytes(MultiAnyAllowanceView { allowances: fs }));
}

/// The expiration of a fee grant: none where the fee configuration sets none;
/// otherwise the block time plus the configured seconds, as whole seconds
/// and the nanoseconds beyond them.
pub proof fn law_fee_grant_expiration(block_time_nanos: u64, seconds: Option<u32>)
    ensures
        seconds is None ==> fee_grant_expiration(block_time_nanos, seconds) is None,
        seconds matches Some(s) ==> (block_time_nanos + s * 1_000_000_000 <= u64::MAX ==> (
            fee_grant_expiration(block_time_nanos, seconds) matches Some(ts) && ts.seconds * 1_000_000_000 + ts.nanos
                == block_time_nanos + s * 1_000_000_000 && 0 <= ts.nanos < 1_000_000_000 && ts.seconds >= 0)),
{
    if let Some(s) = seconds {
        let t: int = block_time_nanos + s * 1_000_000_000;
        if t <= u64::MAX {
            assert(0 <= t / 1_000_000_000 <= i64::MAX);
            assert(0 <= t % 1_000_000_000 < 1_000_000_000);
            assert((t / 1_000_000_000) * 1_000_000_000 + t % 1_000_000_000 == t);
        }
    }
}

/// With no authz failure, every configuration passes its answer.
proof fn lemma_no_failure_each_passes(configs: Seq<(Seq<char>, GrantConfigView)>, answers: Seq<Result<Seq<AuthzGrantView>, StdFailureView>>)
    requires
        configs.len() == answers.len(),
        first_authz_failure(configs, answers) is None,
    ensures
        forall|i: int| 0 <= i < configs.len() ==> authz_verdict(#[trigger] configs[i].0, configs[i].1, answers[i]) is None,
    decreases configs.len(),
{
    if configs.len() > 0 {
        lemma_no_failure_each_passes(configs.drop_last(), answers.drop_last());
        assert forall|i: int| 0 <= i < configs.len() implies authz_verdict(#[trigger] configs[i].0, configs[i].1, answers[i]) is None by {
            if i < configs.len() - 1 {
                assert(configs[i] == configs.drop_last()[i]);
                assert(answers[i] == answers.drop_last()[i]);
            }
        }
    }
}

/// A fee grant is deployed only for the granter, only when every required
/// grant configuration is met by exactly one authz grant with the configured
/// authorization, and then sends nothing where there is no allowance to give,
/// or else the fee allowance formatted for the grantee with the expiration of
/// the fee configuration, granted by the treasury, after a revocation of the
/// existing allowance where there is one.
pub proof fn law_deployed_grants_are_the_formatted_allowance(
    t: TreasuryView,
    env: ContractEnvView,
    sender: Seq<char>,
    granter: Seq<char>,
    grantee: Seq<char>,
    answers: Seq<Result<Seq<AuthzGrantView>, StdFailureView>>,
    existing_allowance: bool,
)
    requires
        answers.len() == t.grant_configs.len(),
    ensures
        spec_deploy_fee_grant(t, env, sender, granter, grantee, answers, existing_allowance) matches Ok(r) ==> {
            &&& sender == granter
            &&& forall|i: int| 0 <= i < t.grant_configs.len() && !(#[trigger] t.grant_configs[i]).1.optional ==> (
                answers[i] matches Ok(gs) && gs.len() == 1 && gs[0].authorization == Some(t.grant_configs[i].1.authorization))
            &&& r.events.len() == 0
            &&& match t.fee_config.allowance {
                None => r.messages.len() == 0,
                Some(a) => {
                    &&& formatted(a, grantee, fee_grant_expiration(env.block_time_nanos, t.fee_config.expiration)) is Ok
                    &&& r.messages.len() == if existing_allowance { 2nat } else { 1nat }
                    &&& r.messages.last() == MsgView::Any(AnyView {
                        type_url: GRANT_ALLOWANCE_URL@,
                        value: grant_allowance_msg_bytes(
                            env.contract_address,
                            grantee,
                            formatted(a, grantee, fee_grant_expiration(env.block_time_nanos, t.fee_config.expiration))->Ok_0,
                        ),
                    })
                    &&& existing_allowance ==> r.messages[0] == MsgView::Any(AnyView {
                        type_url: REVOKE_ALLOWANCE_URL@,
                        value: revoke_allowance_msg_bytes(env.contract_address, grantee),
                    })
                },
            }
        },
{
    if spec_deploy_fee_grant(t, env, sender, granter, grantee, answers, existing_allowance) is Ok {
        lemma_no_failure_each_passes(t.grant_configs, answers);
        assert forall|i: int| 0 <= i < t.grant_configs.len() && !(#[trigger] t.grant_configs[i]).1.optional implies (
            answers[i] matches Ok(gs) && gs.len() == 1 && gs[0].authorization == Some(t.grant_configs[i].1.authorization)) by {
            assert(authz_verdict(t.grant_configs[i].0, t.grant_configs[i].1, answers[i]) is None);
        }
    }
}

/// Where the fee configuration sets no expiration, the granted allowance is
/// the fee allowance formatted without one: a basic allowance is granted as
/// it is configured.
pub proof fn law_no_expiration_grants_the_allowance_as_configured(
    t: TreasuryView,
    env: ContractEnvView,
    grantee: Seq<char>,
    answers: Seq<Result<Seq<AuthzGrantView>, StdFailureView>>,
)
    requires
        answers.len() == t.grant_configs.len(),
        t.fee_config.expiration is None,
        t.fee_config.allowance matches Some(a) && a.type_url == BASIC_ALLOWANCE_URL@,
    ensures
        spec_deploy_fee_grant(t, env, grantee, grantee, grantee, answers, false) matches Ok(r) ==> r.messages
            == seq![MsgView::Any(AnyView {
                type_url: GRANT_ALLOWANCE_URL@,
                value: grant_allowance_msg_bytes(env.contract_address, grantee, t.fee_config.allowance->Some_0),
            })],
{
    law_fee_grant_expiration(env.block_time_nanos, None);
}

/// The table of a new treasury maps exactly the given type URLs, each to the
/// configuration given last for it.
proof fn lemma_table_from_maps(urls: Seq<Seq<char>>, configs: Seq<GrantConfigView>)
    requires
        urls.len() == configs.len(),
    ensures
        forall|k: Seq<char>| #[trigger] table_map(table_from(urls, configs)).contains_key(k) <==> urls.contains(k),
        forall|k: Seq<char>| #[trigger] table_map(table_from(urls, configs)).contains_key(k) ==> exists|j: int| {
            &&& 0 <= j < urls.len()
            &&& urls[j] == k
            &&& table_map(table_from(urls, configs))[k] == configs[j]
            &&& forall|j2: int| j < j2 < urls.len() ==> urls[j2] != k
        },
    decreases urls.len(),
{
    if urls.len() > 0 {
        let pu = urls.drop_last();
        let pc = configs.drop_last();
        lemma_table_from_maps(pu, pc);
        lemma_table_from_sorted(pu, pc);
        lemma_table_insert_law(table_from(pu, pc), urls.last(), configs.last());
        let m = table_map(table_from(urls, configs));
        let pm = table_map(table_from(pu, pc));
        assert(m == pm.insert(urls.last(), configs.last()));
        assert forall|k: Seq<char>| #[trigger] m.contains_key(k) <==> urls.contains(k) by {
            if urls.contains(k) && k != urls.last() {
                let j = choose|j: int| 0 <= j < urls.len() && urls[j] == k;
                assert(pu[j] == k);
            }
            if pm.contains_key(k) {
                let j = choose|j: int| 0 <= j < pu.len() && pu[j] == k;
                assert(urls[j] == k);
            }
            if k == urls.last() {
                assert(urls[urls.len() - 1] == k);
            }
        }
        assert forall|k: Seq<char>| #[trigger] m.contains_key(k) implies exists|j: int| {
            &&& 0 <= j < urls.len()
            &&& urls[j] == k
            &&& m[k] == configs[j]
            &&& forall|j2: int| j < j2 < urls.len() ==> urls[j2] != k
        } by {
            if k == urls.last() {
                let j = urls.len() - 1;
                assert(urls[j] == k && m[k] == configs[j]);
            } else {
                assert(pm.contains_key(k));
                let j = choose|j: int| {
                    &&& 0 <= j < pu.len()
                    &&& pu[j] == k
                    &&& pm[k] == pc[j]
                    &&& forall|j2: int| j < j2 < pu.len() ==> pu[j2] != k
                };
                assert(urls[j] == k && m[k] == configs[j]);
                assert forall|j2: int| j < j2 < urls.len() implies urls[j2] != k by {
                    if j2 < pu.len() {
                        assert(pu[j2] == urls[j2]);
                    }
                }
            }
        }
    }
}

/// A new treasury holds what it was given: its admin, nothing pending, a
/// grant configuration for exactly the given type URLs (for a repeated one,
/// the configuration given last), the fee configuration and the parameters.
pub proof fn law_init_stores_the_full_configuration(
    admin: Seq<char>,
    urls: Seq<Seq<char>>,
    configs: Seq<GrantConfigView>,
    fee_config: FeeConfigView,
    params: ParamsView,
)
    ensures
        spec_init(Some(admin), urls, configs, fee_config, params) matches Ok((t0, _)) ==> {
            &&& t0.admin == admin
            &&& t0.pending_admin is None
            &&& t0.fee_config == fee_config
            &&& t0.params == params
            &&& forall|k: Seq<char>| #[trigger] table_map(t0.grant_configs).contains_key(k) <==> urls.contains(k)
            &&& forall|k: Seq<char>| #[trigger] table_map(t0.grant_configs).contains_key(k) ==> exists|j: int| {
                &&& 0 <= j < urls.len()
                &&& urls[j] == k
                &&& table_map(t0.grant_configs)[k] == configs[j]
                &&& forall|j2: int| j < j2 < urls.len() ==> urls[j2] != k
            }
        },
{
    if urls.len() == configs.len() {
        lemma_table_from_maps(urls, configs);
    }
}

/// The admin's messages carry exactly what they were given: a migration of
/// the treasury's own contract to the given code with the given message; a
/// bank send of the given coins to the admin; a revocation of the treasury's
/// allowance for the given grantee.
pub proof fn law_admin_messages_carry_their_inputs(
    t: TreasuryView,
    env: ContractEnvView,
    new_code_id: u64,
    msg: Seq<u8>,
    coins: Seq<CoinView>,
    grantee: Seq<char>,
)
    ensures
        spec_migrate(t, env, t.admin, new_code_id, msg) matches Ok(r) && r.messages == seq![MsgView::WasmMigrate {
            contract_addr: env.contract_address,
            new_code_id,
            msg,
        }],
        spec_withdraw_coins(t, t.admin, coins) matches Ok(r) && r.messages == seq![MsgView::BankSend {
            to_address: t.admin,
            amount: coins,
        }],
        spec_revoke_allowance(t, env, t.admin, grantee) matches Ok(r) && r.messages == seq![MsgView::Any(AnyView {
            type_url: REVOKE_ALLOWANCE_URL@,
            value: revoke_allowance_msg_bytes(env.contract_address, grantee),
        })],
{
}

/// The admin's updates store exactly what they were given, and nothing else
/// changes: the fee configuration as given, valid parameters as given.
pub proof fn law_admin_updates_store_what_they_are_given(t: TreasuryView, fee_config: FeeConfigView, params: ParamsView)
    ensures
        ({
            let (t1, r1) = spec_update_fee_config(t, t.admin, fee_config);
            &&& r1 is Ok
            &&& t1.fee_config == fee_config
            &&& t1.admin == t.admin && t1.pending_admin == t.pending_admin
            &&& t1.grant_configs == t.grant_configs && t1.params == t.params
        }),
        params_error(params) is None ==> ({
            let (t2, r2) = spec_update_params(t, t.admin, params);
            &&& r2 is Ok
            &&& t2.params == params
            &&& t2.admin == t.admin && t2.pending_admin == t.pending_admin
            &&& t2.grant_configs == t.grant_configs && t2.fee_config == t.fee_config
        }),
{
}

} // verus!
