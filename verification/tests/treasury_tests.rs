use cosmos_sdk_proto::cosmos::feegrant::v1beta1::{BasicAllowance, MsgGrantAllowance, MsgRevokeAllowance};
use cosmos_sdk_proto::prost::Message;
use cosmwasm_std::testing::{mock_env, MockApi};
use cosmwasm_std::Api;
use treasury::allowance::BASIC_ALLOWANCE_URL;
use treasury::error::{ContractError, StdFailure};
use treasury::fee_grant::AuthzGrant;
use treasury::params::{valid_params, Params};
use treasury::samples::{basic_allowance_any, make_fee_config, make_grant_config};
use treasury::response::{Coin, Msg};
use treasury::treasury::{ContractEnv, Treasury};

const SEND_TYPE_URL: &str = "/cosmos.bank.v1beta1.MsgSend";

fn addr(name: &str) -> String {
    MockApi::default().addr_make(name).to_string()
}

/// What the chain's address validation makes of `input`.
fn validated(input: &str) -> Result<String, StdFailure> {
    MockApi::default()
        .addr_validate(input)
        .map(|a| a.to_string())
        .map_err(|e| StdFailure::GenericErr { msg: e.to_string() })
}

fn env() -> ContractEnv {
    let env = mock_env();
    ContractEnv {
        contract_address: env.contract.address.to_string(),
        block_time_nanos: env.block.time.nanos(),
    }
}

/// A treasury with `admin` in control, one required grant config for
/// MsgSend, and a 1000uxion basic allowance.
fn setup(admin: &str) -> Treasury {
    Treasury::init(
        Some(admin.to_string()),
        vec![SEND_TYPE_URL.to_string()],
        vec![make_grant_config(basic_allowance_any("1000"), false)],
        make_fee_config(Some(basic_allowance_any("1000")), Some(3600)),
        valid_params(),
    )
    .unwrap()
    .0
}

// ----------------------------------------------------------- instantiate ---

#[test]
fn instantiate_stores_the_full_configuration() {
    let admin = addr("admin");
    let t = setup(&admin);

    assert_eq!(t.admin(), admin);
    assert_eq!(t.grant_config_type_urls(), vec![SEND_TYPE_URL.to_string()]);
    assert_eq!(t.params(), valid_params());
    assert!(t.fee_config().allowance.is_some());
}

#[test]
fn instantiate_rejects_a_missing_admin() {
    let err = Treasury::init(None, vec![], vec![], make_fee_config(None, None), valid_params())
        .err()
        .unwrap();
    assert!(matches!(err, ContractError::Unauthorized));
}

#[test]
fn instantiate_rejects_mismatched_type_urls_and_grant_configs() {
    let admin = addr("admin");
    let err = Treasury::init(
        Some(admin.clone()),
        vec![SEND_TYPE_URL.to_string(), "/other.Msg".to_string()],
        vec![make_grant_config(basic_allowance_any("1000"), false)],
        make_fee_config(None, None),
        valid_params(),
    )
    .err()
    .unwrap();
    assert!(matches!(err, ContractError::ConfigurationMismatch));
}

#[test]
fn instantiate_rejects_invalid_params() {
    let params = Params {
        icon_url: "not a url".to_string(),
        ..valid_params()
    };
    let err = Treasury::init(Some(addr("admin")), vec![], vec![], make_fee_config(None, None), params)
        .err()
        .unwrap();
    assert!(matches!(err, ContractError::URLParse(_)));
}

#[test]
fn instantiate_reports_the_admin() {
    let admin = addr("admin");
    let (_, resp) = Treasury::init(Some(admin.clone()), vec![], vec![], make_fee_config(None, None), valid_params())
        .unwrap();
    assert_eq!(resp.events[0].ty, "create_treasury_instance");
    assert_eq!(resp.events[0].attributes[0].key, "admin");
    assert_eq!(resp.events[0].attributes[0].value, admin);
}

#[test]
fn instantiate_keeps_the_last_of_repeated_type_urls() {
    let t = Treasury::init(
        Some(addr("admin")),
        vec!["/a".to_string(), "/a".to_string()],
        vec![
            make_grant_config(basic_allowance_any("1"), false),
            make_grant_config(basic_allowance_any("2"), true),
        ],
        make_fee_config(None, None),
        valid_params(),
    )
    .unwrap()
    .0;
    assert_eq!(t.grant_config_type_urls(), vec!["/a".to_string()]);
    assert!(t.grant_config_by_type_url(&"/a".to_string()).unwrap().optional);
}

// ----------------------------------------------------- admin transfer ------

#[test]
fn admin_transfer_requires_the_proposed_admin_to_accept() {
    let admin = addr("admin");
    let next = addr("next-admin");
    let mut t = setup(&admin);

    t.propose_admin(&admin, validated(&next)).unwrap();

    // Still the original admin until the proposal is accepted.
    assert_eq!(t.admin(), admin);
    assert_eq!(t.pending_admin().unwrap(), next);

    t.accept_admin(&next).unwrap();

    assert_eq!(t.admin(), next);
    assert!(t.pending_admin().is_err());
}

#[test]
fn propose_admin_rejects_a_non_admin() {
    let admin = addr("admin");
    let stranger = addr("stranger");
    let mut t = setup(&admin);

    let err = t.propose_admin(&stranger, validated(&stranger)).unwrap_err();
    assert!(matches!(err, ContractError::Unauthorized));
}

#[test]
fn propose_admin_rejects_an_invalid_address() {
    let admin = addr("admin");
    let mut t = setup(&admin);

    let err = t.propose_admin(&admin, validated("not an address")).unwrap_err();
    assert!(matches!(err, ContractError::Std(_)));
    assert!(t.pending_admin().is_err());
}

#[test]
fn accept_admin_rejects_anyone_but_the_proposed_admin() {
    let admin = addr("admin");
    let next = addr("next-admin");
    let stranger = addr("stranger");
    let mut t = setup(&admin);

    t.propose_admin(&admin, validated(&next)).unwrap();

    let err = t.accept_admin(&stranger).unwrap_err();
    assert!(matches!(err, ContractError::Unauthorized));
    assert_eq!(t.admin(), admin);
}

#[test]
fn cancel_proposed_admin_clears_the_proposal() {
    let admin = addr("admin");
    let next = addr("next-admin");
    let mut t = setup(&admin);

    t.propose_admin(&admin, validated(&next)).unwrap();
    t.cancel_proposed_admin(&admin).unwrap();

    assert!(t.pending_admin().is_err());

    // The cancelled proposal can no longer be accepted.
    let err = t.accept_admin(&next).unwrap_err();
    assert!(matches!(err, ContractError::Std(_)));
}

#[test]
fn cancel_proposed_admin_rejects_a_non_admin() {
    let admin = addr("admin");
    let next = addr("next-admin");
    let stranger = addr("stranger");
    let mut t = setup(&admin);

    t.propose_admin(&admin, validated(&next)).unwrap();

    let err = t.cancel_proposed_admin(&stranger).unwrap_err();
    assert!(matches!(err, ContractError::Unauthorized));
    assert_eq!(t.pending_admin().unwrap(), next);
}

#[test]
fn pending_admin_reports_not_found_without_a_proposal() {
    let t = setup(&addr("admin"));
    assert!(matches!(t.pending_admin(), Err(StdFailure::NotFound { .. })));
}

// ------------------------------------------------------- grant configs -----

#[test]
fn update_grant_config_reports_whether_it_overwrote() {
    let admin = addr("admin");
    let mut t = setup(&admin);

    let res = t
        .update_grant_config(&admin, "/other.Msg".to_string(), make_grant_config(basic_allowance_any("5"), true))
        .unwrap();
    assert!(res.events[0]
        .attributes
        .iter()
        .any(|a| a.key == "overwritten" && a.value == "false"));

    let res = t
        .update_grant_config(&admin, "/other.Msg".to_string(), make_grant_config(basic_allowance_any("7"), true))
        .unwrap();
    assert!(res.events[0]
        .attributes
        .iter()
        .any(|a| a.key == "overwritten" && a.value == "true"));
}

#[test]
fn update_grant_config_rejects_a_non_admin() {
    let admin = addr("admin");
    let stranger = addr("stranger");
    let mut t = setup(&admin);

    let err = t
        .update_grant_config(&stranger, SEND_TYPE_URL.to_string(), make_grant_config(basic_allowance_any("1"), true))
        .unwrap_err();
    assert!(matches!(err, ContractError::Unauthorized));
}

#[test]
fn update_grant_config_replaces_the_stored_config() {
    let admin = addr("admin");
    let mut t = setup(&admin);
    t.update_grant_config(&admin, SEND_TYPE_URL.to_string(), make_grant_config(basic_allowance_any("9"), true))
        .unwrap();
    let stored = t.grant_config_by_type_url(&SEND_TYPE_URL.to_string()).unwrap();
    assert!(stored.optional);
    assert_eq!(stored.authorization, basic_allowance_any("9"));
    assert_eq!(t.grant_config_type_urls().len(), 1);
}

#[test]
fn grant_config_type_urls_are_listed_in_byte_order() {
    let admin = addr("admin");
    let mut t = setup(&admin);
    for url in ["/zeta.Msg", "/alpha.Msg", "/Zeta.Msg", "/cosmos.bank.v1beta1.MsgMultiSend"] {
        t.update_grant_config(&admin, url.to_string(), make_grant_config(basic_allowance_any("1"), true))
            .unwrap();
    }
    assert_eq!(
        t.grant_config_type_urls(),
        vec![
            "/Zeta.Msg".to_string(),
            "/alpha.Msg".to_string(),
            "/cosmos.bank.v1beta1.MsgMultiSend".to_string(),
            SEND_TYPE_URL.to_string(),
            "/zeta.Msg".to_string(),
        ]
    );
}

#[test]
fn grant_config_by_type_url_reports_an_unknown_type() {
    let t = setup(&addr("admin"));
    assert!(matches!(
        t.grant_config_by_type_url(&"/unknown.Msg".to_string()),
        Err(StdFailure::NotFound { .. })
    ));
}

#[test]
fn remove_grant_config_removes_an_existing_entry() {
    let admin = addr("admin");
    let mut t = setup(&admin);

    t.remove_grant_config(&admin, SEND_TYPE_URL.to_string()).unwrap();

    assert!(t.grant_config_type_urls().is_empty());
}

#[test]
fn remove_grant_config_rejects_an_unknown_type_url() {
    let admin = addr("admin");
    let mut t = setup(&admin);

    let err = t.remove_grant_config(&admin, "/never.Registered".to_string()).unwrap_err();
    assert!(matches!(err, ContractError::GrantConfigNotFound { .. }));
}

#[test]
fn remove_grant_config_rejects_a_non_admin() {
    let admin = addr("admin");
    let stranger = addr("stranger");
    let mut t = setup(&admin);

    let err = t.remove_grant_config(&stranger, SEND_TYPE_URL.to_string()).unwrap_err();
    assert!(matches!(err, ContractError::Unauthorized));
}

// --------------------------------------------- fee config, params, funds ---

#[test]
fn update_fee_config_rejects_a_non_admin() {
    let admin = addr("admin");
    let stranger = addr("stranger");
    let mut t = setup(&admin);

    let err = t.update_fee_config(&stranger, make_fee_config(None, None)).unwrap_err();
    assert!(matches!(err, ContractError::Unauthorized));
}

#[test]
fn update_fee_config_replaces_the_fee_config() {
    let admin = addr("admin");
    let mut t = setup(&admin);
    t.update_fee_config(&admin, make_fee_config(None, Some(60))).unwrap();
    assert!(t.fee_config().allowance.is_none());
    assert_eq!(t.fee_config().expiration, Some(60));
}

#[test]
fn update_params_rejects_a_non_admin() {
    let admin = addr("admin");
    let stranger = addr("stranger");
    let mut t = setup(&admin);

    let err = t.update_params(&stranger, valid_params()).unwrap_err();
    assert!(matches!(err, ContractError::Unauthorized));
}

#[test]
fn update_params_validates_before_storing() {
    let admin = addr("admin");
    let mut t = setup(&admin);

    let bad = Params {
        redirect_url: "not a url".to_string(),
        ..valid_params()
    };
    assert!(t.update_params(&admin, bad).is_err());

    // The stored params are untouched by the rejected update.
    assert_eq!(t.params(), valid_params());
}

#[test]
fn update_params_stores_valid_params() {
    let admin = addr("admin");
    let mut t = setup(&admin);
    let params = Params {
        metadata: r#"{"name":"renamed"}"#.to_string(),
        ..valid_params()
    };
    t.update_params(&admin, params.clone()).unwrap();
    assert_eq!(t.params(), params);
}

#[test]
fn withdraw_rejects_a_non_admin() {
    let admin = addr("admin");
    let stranger = addr("stranger");
    let t = setup(&admin);

    let err = t.withdraw_coins(&stranger, vec![]).unwrap_err();
    assert!(matches!(err, ContractError::Unauthorized));
}

#[test]
fn withdraw_sends_coins_to_the_admin() {
    let admin = addr("admin");
    let t = setup(&admin);

    let coins = vec![Coin { denom: "uxion".to_string(), amount: 500 }];
    let res = t.withdraw_coins(&admin, coins.clone()).unwrap();

    assert_eq!(res.messages.len(), 1);
    match &res.messages[0] {
        Msg::BankSend { to_address, amount } => {
            assert_eq!(to_address, &admin);
            assert_eq!(amount, &coins);
        }
        other => panic!("expected a bank send, got {other:?}"),
    }
}

// ---------------------------------------------------------- allowances -----

#[test]
fn revoke_allowance_rejects_a_non_admin() {
    let admin = addr("admin");
    let stranger = addr("stranger");
    let t = setup(&admin);

    let err = t.revoke_allowance(&env(), &stranger, stranger.clone()).unwrap_err();
    assert!(matches!(err, ContractError::Unauthorized));
}

#[test]
fn revoke_allowance_emits_a_feegrant_revoke() {
    let admin = addr("admin");
    let grantee = addr("grantee");
    let t = setup(&admin);

    let res = t.revoke_allowance(&env(), &admin, grantee.clone()).unwrap();

    assert_eq!(res.messages.len(), 1);
    match &res.messages[0] {
        Msg::Any(any) => {
            assert_eq!(any.type_url, "/cosmos.feegrant.v1beta1.MsgRevokeAllowance");
        }
        other => panic!("expected an Any message, got {other:?}"),
    }
}

#[test]
fn revoke_allowance_encodes_the_treasury_and_the_grantee() {
    let admin = addr("admin");
    let grantee = addr("grantee");
    let t = setup(&admin);

    let res = t.revoke_allowance(&env(), &admin, grantee.clone()).unwrap();
    match &res.messages[0] {
        Msg::Any(any) => {
            let msg = MsgRevokeAllowance::decode(any.value.as_slice()).unwrap();
            assert_eq!(msg.granter, env().contract_address);
            assert_eq!(msg.grantee, grantee);
        }
        other => panic!("expected an Any message, got {other:?}"),
    }
}

/// Regression test for the fix restricting `deploy_fee_grant` to the granter.
///
/// Before that change any caller could trigger — or refresh by
/// revoke-and-reissue — the fee grant of an existing granter/grantee pair
/// without the granter's involvement.
#[test]
fn deploy_fee_grant_rejects_a_caller_who_is_not_the_granter() {
    let admin = addr("admin");
    let granter = addr("granter");
    let grantee = addr("grantee");
    let stranger = addr("stranger");
    let t = setup(&admin);

    let answers = vec![Ok(vec![])];
    let err = t
        .deploy_fee_grant(&env(), &stranger, granter.clone(), grantee.clone(), &answers, false)
        .unwrap_err();
    assert!(matches!(err, ContractError::Unauthorized));
}

/// The admin is not exempt: authority over the treasury does not make the
/// admin the granter of somebody else's authz grant.
#[test]
fn deploy_fee_grant_rejects_the_admin_acting_for_another_granter() {
    let admin = addr("admin");
    let granter = addr("granter");
    let grantee = addr("grantee");
    let t = setup(&admin);

    let answers = vec![Ok(vec![])];
    let err = t
        .deploy_fee_grant(&env(), &admin, granter, grantee, &answers, false)
        .unwrap_err();
    assert!(matches!(err, ContractError::Unauthorized));
}

fn matching_grant() -> AuthzGrant {
    AuthzGrant {
        authorization: Some(basic_allowance_any("1000")),
        expiration: None,
    }
}

#[test]
fn deploy_fee_grant_requires_the_configured_authz_grant() {
    let t = setup(&addr("admin"));
    let granter = addr("granter");
    let answers = vec![Ok(vec![])];
    let err = t
        .deploy_fee_grant(&env(), &granter, granter.clone(), addr("grantee"), &answers, false)
        .unwrap_err();
    match err {
        ContractError::AuthzGrantNotFound { msg_type_url } => assert_eq!(msg_type_url, SEND_TYPE_URL),
        other => panic!("expected a missing grant, got {other:?}"),
    }
}

#[test]
fn deploy_fee_grant_rejects_a_grant_without_authorization() {
    let t = setup(&addr("admin"));
    let granter = addr("granter");
    let answers = vec![Ok(vec![AuthzGrant { authorization: None, expiration: None }])];
    let err = t
        .deploy_fee_grant(&env(), &granter, granter.clone(), addr("grantee"), &answers, false)
        .unwrap_err();
    assert!(matches!(err, ContractError::AuthzGrantNoAuthorization));
}

#[test]
fn deploy_fee_grant_rejects_a_different_authorization() {
    let t = setup(&addr("admin"));
    let granter = addr("granter");
    let answers = vec![Ok(vec![AuthzGrant {
        authorization: Some(basic_allowance_any("999")),
        expiration: None,
    }])];
    let err = t
        .deploy_fee_grant(&env(), &granter, granter.clone(), addr("grantee"), &answers, false)
        .unwrap_err();
    assert!(matches!(err, ContractError::AuthzGrantMismatch));
}

#[test]
fn deploy_fee_grant_passes_on_a_failed_query() {
    let t = setup(&addr("admin"));
    let granter = addr("granter");
    let answers = vec![Err(StdFailure::GenericErr { msg: "query failed".to_string() })];
    let err = t
        .deploy_fee_grant(&env(), &granter, granter.clone(), addr("grantee"), &answers, false)
        .unwrap_err();
    assert!(matches!(err, ContractError::Std(StdFailure::GenericErr { .. })));
}

#[test]
fn deploy_fee_grant_lets_an_optional_config_pass_without_a_grant() {
    let admin = addr("admin");
    let t = Treasury::init(
        Some(admin),
        vec![SEND_TYPE_URL.to_string()],
        vec![make_grant_config(basic_allowance_any("1000"), true)],
        make_fee_config(None, None),
        valid_params(),
    )
    .unwrap()
    .0;
    let granter = addr("granter");
    let answers = vec![Ok(vec![])];
    let res = t
        .deploy_fee_grant(&env(), &granter, granter.clone(), addr("grantee"), &answers, false)
        .unwrap();
    assert!(res.messages.is_empty());
    assert!(res.events.is_empty());
}

#[test]
fn deploy_fee_grant_grants_the_formatted_allowance() {
    let t = setup(&addr("admin"));
    let granter = addr("granter");
    let grantee = addr("grantee");
    let answers = vec![Ok(vec![matching_grant()])];
    let res = t
        .deploy_fee_grant(&env(), &granter, granter.clone(), grantee.clone(), &answers, false)
        .unwrap();
    assert_eq!(res.messages.len(), 1);
    match &res.messages[0] {
        Msg::Any(any) => {
            assert_eq!(any.type_url, "/cosmos.feegrant.v1beta1.MsgGrantAllowance");
            let msg = MsgGrantAllowance::decode(any.value.as_slice()).unwrap();
            assert_eq!(msg.granter, env().contract_address);
            assert_eq!(msg.grantee, grantee);
            let allowance = msg.allowance.unwrap();
            assert_eq!(allowance.type_url, BASIC_ALLOWANCE_URL);
            let basic = BasicAllowance::decode(allowance.value.as_slice()).unwrap();
            let expected = mock_env().block.time.plus_seconds(3600);
            let expiration = basic.expiration.unwrap();
            assert_eq!(expiration.seconds, expected.seconds() as i64);
            assert_eq!(expiration.nanos, expected.subsec_nanos() as i32);
            assert_eq!(basic.spend_limit[0].amount, "1000");
        }
        other => panic!("expected an Any message, got {other:?}"),
    }
}

#[test]
fn deploy_fee_grant_revokes_an_existing_allowance_first() {
    let t = setup(&addr("admin"));
    let granter = addr("granter");
    let grantee = addr("grantee");
    let answers = vec![Ok(vec![matching_grant()])];
    let res = t
        .deploy_fee_grant(&env(), &granter, granter.clone(), grantee, &answers, true)
        .unwrap();
    assert_eq!(res.messages.len(), 2);
    match (&res.messages[0], &res.messages[1]) {
        (Msg::Any(first), Msg::Any(second)) => {
            assert_eq!(first.type_url, "/cosmos.feegrant.v1beta1.MsgRevokeAllowance");
            assert_eq!(second.type_url, "/cosmos.feegrant.v1beta1.MsgGrantAllowance");
        }
        other => panic!("expected two Any messages, got {other:?}"),
    }
}

// ------------------------------------------------------------- migrate -----

#[test]
fn migrate_rejects_a_non_admin() {
    let admin = addr("admin");
    let stranger = addr("stranger");
    let t = setup(&admin);

    let err = t.migrate(&env(), &stranger, 2, vec![]).unwrap_err();
    assert!(matches!(err, ContractError::Unauthorized));
}

#[test]
fn migrate_emits_a_wasm_migrate_for_the_admin() {
    let admin = addr("admin");
    let t = setup(&admin);

    let env = env();
    let res = t.migrate(&env, &admin, 42, vec![]).unwrap();

    assert_eq!(res.messages.len(), 1);
    match &res.messages[0] {
        Msg::WasmMigrate {
            contract_addr,
            new_code_id,
            ..
        } => {
            assert_eq!(contract_addr, &env.contract_address);
            assert_eq!(*new_code_id, 42u64);
        }
        other => panic!("expected a wasm migrate, got {other:?}"),
    }
}

/// The key, length and UTF-8 bytes of a non-empty string field.
fn string_field(tag: u8, s: &str) -> Vec<u8> {
    let mut out = vec![tag * 8 + 2, s.len() as u8];
    out.extend_from_slice(s.as_bytes());
    out
}

#[test]
fn revoke_allowance_writes_the_two_string_fields() {
    let admin = addr("admin");
    let grantee = addr("grantee");
    let t = setup(&admin);

    let res = t.revoke_allowance(&env(), &admin, grantee.clone()).unwrap();
    let mut expected = string_field(1, &env().contract_address);
    expected.extend(string_field(2, &grantee));
    match &res.messages[0] {
        Msg::Any(any) => assert_eq!(any.value, expected),
        other => panic!("expected an Any message, got {other:?}"),
    }
}
