use cosmos_sdk_proto::cosmos::auth::v1beta1::QueryModuleAccountsResponse as MultiAnyAllowanceLayout;
use cosmos_sdk_proto::cosmos::feegrant::v1beta1::{AllowedMsgAllowance, BasicAllowance, PeriodicAllowance};
use cosmos_sdk_proto::cosmos::gov::v1::MsgExecLegacyContent as AuthzAllowanceLayout;
use cosmos_sdk_proto::prost::Message;
use cosmos_sdk_proto::Any as ProtoAny;
use cosmos_sdk_proto::Timestamp;
use cosmwasm_std::testing::MockApi;
use treasury::allowance::format_allowance;
use treasury::error::ContractError;
use treasury::proto::Any;
use treasury::samples::{basic_allowance_any, expiry};

const SEND_TYPE_URL: &str = "/cosmos.bank.v1beta1.MsgSend";
const BASIC_ALLOWANCE_URL: &str = "/cosmos.feegrant.v1beta1.BasicAllowance";

fn to_proto(any: Any) -> ProtoAny {
    ProtoAny {
        type_url: any.type_url,
        value: any.value,
    }
}

fn grantee_addr() -> String {
    MockApi::default().addr_make("grantee").to_string()
}

fn granter_addr() -> String {
    MockApi::default().addr_make("granter").to_string()
}

fn proto_expiry() -> Option<Timestamp> {
    Some(Timestamp {
        seconds: 1_800_000_000,
        nanos: 0,
    })
}

#[test]
fn format_allowance_leaves_a_basic_allowance_alone_without_an_expiration() {
    let input = basic_allowance_any("1000");
    let out = format_allowance(input.clone(), granter_addr(), grantee_addr(), None).unwrap();
    assert_eq!(out, input);
}

#[test]
fn format_allowance_sets_the_expiration_on_a_basic_allowance() {
    let out = format_allowance(
        basic_allowance_any("1000"),
        granter_addr(),
        grantee_addr(),
        expiry(),
    )
    .unwrap();

    let decoded = BasicAllowance::decode(out.value.as_slice()).unwrap();
    assert_eq!(decoded.expiration, proto_expiry());
    assert_eq!(decoded.spend_limit[0].amount, "1000");
}

#[test]
fn format_allowance_sets_the_expiration_inside_a_periodic_allowance() {
    let periodic = PeriodicAllowance {
        basic: Some(BasicAllowance {
            spend_limit: vec![],
            expiration: None,
        }),
        period: None,
        period_spend_limit: vec![],
        period_can_spend: vec![],
        period_reset: None,
    };
    let input = Any {
        type_url: "/cosmos.feegrant.v1beta1.PeriodicAllowance".to_string(),
        value: periodic.encode_to_vec(),
    };

    let out = format_allowance(input, granter_addr(), grantee_addr(), expiry()).unwrap();
    let decoded = PeriodicAllowance::decode(out.value.as_slice()).unwrap();
    assert_eq!(decoded.basic.unwrap().expiration, proto_expiry());
}

#[test]
fn format_allowance_recurses_into_an_allowed_msg_allowance() {
    let allowed = AllowedMsgAllowance {
        allowance: Some(to_proto(basic_allowance_any("250"))),
        allowed_messages: vec![SEND_TYPE_URL.to_string()],
    };
    let input = Any {
        type_url: "/cosmos.feegrant.v1beta1.AllowedMsgAllowance".to_string(),
        value: allowed.encode_to_vec(),
    };

    let out = format_allowance(input, granter_addr(), grantee_addr(), expiry()).unwrap();
    let decoded = AllowedMsgAllowance::decode(out.value.as_slice()).unwrap();
    assert_eq!(decoded.allowed_messages, vec![SEND_TYPE_URL.to_string()]);

    let inner = BasicAllowance::decode(decoded.allowance.unwrap().value.as_slice()).unwrap();
    assert_eq!(inner.expiration, proto_expiry());
}

#[test]
fn format_allowance_binds_an_authz_allowance_to_the_grantee() {
    let authz = AuthzAllowanceLayout {
        content: Some(to_proto(basic_allowance_any("10"))),
        authority: "placeholder-overwritten-by-format".to_string(),
    };
    let input = Any {
        type_url: "/xion.v1.AuthzAllowance".to_string(),
        value: authz.encode_to_vec(),
    };

    let grantee = grantee_addr();
    let out = format_allowance(input, granter_addr(), grantee.clone(), expiry()).unwrap();

    let decoded = AuthzAllowanceLayout::decode(out.value.as_slice()).unwrap();
    assert_eq!(decoded.authority, grantee);
}

#[test]
fn format_allowance_recurses_into_a_contracts_allowance() {
    let contracts = AllowedMsgAllowance {
        allowance: Some(to_proto(basic_allowance_any("10"))),
        allowed_messages: vec!["xion1contract".to_string()],
    };
    let input = Any {
        type_url: "/xion.v1.ContractsAllowance".to_string(),
        value: contracts.encode_to_vec(),
    };

    let out = format_allowance(input, granter_addr(), grantee_addr(), expiry()).unwrap();
    let decoded = AllowedMsgAllowance::decode(out.value.as_slice()).unwrap();
    assert_eq!(
        decoded.allowed_messages,
        vec!["xion1contract".to_string()]
    );

    let inner = BasicAllowance::decode(decoded.allowance.unwrap().value.as_slice()).unwrap();
    assert_eq!(inner.expiration, proto_expiry());
}

#[test]
fn format_allowance_recurses_into_every_arm_of_a_multi_any_allowance() {
    let multi = MultiAnyAllowanceLayout {
        accounts: vec![
            to_proto(basic_allowance_any("1")),
            to_proto(basic_allowance_any("2")),
        ],
    };
    let input = Any {
        type_url: "/xion.v1.MultiAnyAllowance".to_string(),
        value: multi.encode_to_vec(),
    };

    let out = format_allowance(input, granter_addr(), grantee_addr(), expiry()).unwrap();
    let decoded = MultiAnyAllowanceLayout::decode(out.value.as_slice()).unwrap();
    assert_eq!(decoded.accounts.len(), 2);

    for arm in decoded.accounts {
        let inner = BasicAllowance::decode(arm.value.as_slice()).unwrap();
        assert_eq!(inner.expiration, proto_expiry());
    }
}

#[test]
fn format_allowance_rejects_an_unknown_allowance_type() {
    let input = Any {
        type_url: "/not.A.Real.Allowance".to_string(),
        value: vec![],
    };
    let err = format_allowance(input, granter_addr(), grantee_addr(), expiry()).unwrap_err();
    assert!(matches!(err, ContractError::InvalidAllowanceType { .. }));
}

#[test]
fn format_allowance_rejects_a_wrapper_with_no_inner_allowance() {
    let allowed = AllowedMsgAllowance {
        allowance: None,
        allowed_messages: vec![SEND_TYPE_URL.to_string()],
    };
    let input = Any {
        type_url: "/cosmos.feegrant.v1beta1.AllowedMsgAllowance".to_string(),
        value: allowed.encode_to_vec(),
    };

    let err = format_allowance(input, granter_addr(), grantee_addr(), expiry()).unwrap_err();
    assert!(matches!(err, ContractError::AllowanceUnset));
}

#[test]
fn format_allowance_rejects_bytes_that_do_not_decode() {
    let input = Any {
        type_url: BASIC_ALLOWANCE_URL.to_string(),
        value: vec![0x0a, 0xff],
    };
    let err = format_allowance(input, granter_addr(), grantee_addr(), expiry()).unwrap_err();
    assert!(matches!(err, ContractError::Decode(_)));
}

#[test]
fn format_allowance_rejects_a_periodic_allowance_without_a_basic_one() {
    let periodic = PeriodicAllowance {
        basic: None,
        period: None,
        period_spend_limit: vec![],
        period_can_spend: vec![],
        period_reset: None,
    };
    let input = Any {
        type_url: "/cosmos.feegrant.v1beta1.PeriodicAllowance".to_string(),
        value: periodic.encode_to_vec(),
    };
    let err = format_allowance(input, granter_addr(), grantee_addr(), expiry()).unwrap_err();
    assert!(matches!(err, ContractError::AllowanceUnset));
}

#[test]
fn format_allowance_keeps_the_type_url() {
    let input = basic_allowance_any("3");
    let out = format_allowance(input.clone(), granter_addr(), grantee_addr(), expiry()).unwrap();
    assert_eq!(out.type_url, input.type_url);
    assert_ne!(out.value, input.value);
}

#[test]
fn format_allowance_reports_an_unknown_type_nested_in_a_wrapper() {
    let allowed = AllowedMsgAllowance {
        allowance: Some(ProtoAny {
            type_url: "/not.A.Real.Allowance".to_string(),
            value: vec![],
        }),
        allowed_messages: vec![],
    };
    let input = Any {
        type_url: "/cosmos.feegrant.v1beta1.AllowedMsgAllowance".to_string(),
        value: allowed.encode_to_vec(),
    };
    let err = format_allowance(input, granter_addr(), grantee_addr(), expiry()).unwrap_err();
    match err {
        ContractError::InvalidAllowanceType { msg_type_url } => assert_eq!(msg_type_url, "/not.A.Real.Allowance"),
        other => panic!("expected an invalid type, got {other:?}"),
    }
}

#[test]
fn format_allowance_stops_at_the_first_failing_arm() {
    let multi = MultiAnyAllowanceLayout {
        accounts: vec![
            to_proto(basic_allowance_any("1")),
            ProtoAny {
                type_url: "/first.Bad".to_string(),
                value: vec![],
            },
            ProtoAny {
                type_url: "/second.Bad".to_string(),
                value: vec![],
            },
        ],
    };
    let input = Any {
        type_url: "/xion.v1.MultiAnyAllowance".to_string(),
        value: multi.encode_to_vec(),
    };
    let err = format_allowance(input, granter_addr(), grantee_addr(), expiry()).unwrap_err();
    match err {
        ContractError::InvalidAllowanceType { msg_type_url } => assert_eq!(msg_type_url, "/first.Bad"),
        other => panic!("expected an invalid type, got {other:?}"),
    }
}

#[test]
fn format_allowance_leaves_a_periodic_allowance_alone_without_an_expiration() {
    let input = Any {
        type_url: "/cosmos.feegrant.v1beta1.PeriodicAllowance".to_string(),
        value: vec![0xde, 0xad],
    };
    let out = format_allowance(input.clone(), granter_addr(), grantee_addr(), None).unwrap();
    assert_eq!(out, input);
}

#[test]
fn format_allowance_reports_the_decoder_text() {
    let input = Any {
        type_url: "/cosmos.feegrant.v1beta1.BasicAllowance".to_string(),
        value: vec![0x0a, 0xff],
    };
    match format_allowance(input, granter_addr(), grantee_addr(), expiry()) {
        Err(ContractError::Decode(text)) => assert_eq!(
            text,
            BasicAllowance::decode([0x0au8, 0xff].as_slice()).unwrap_err().to_string()
        ),
        other => panic!("expected a decode error, got {other:?}"),
    }
}
