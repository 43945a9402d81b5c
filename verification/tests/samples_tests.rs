use cosmos_sdk_proto::cosmos::feegrant::v1beta1::BasicAllowance;
use cosmos_sdk_proto::prost::Message;
use treasury::samples::{basic_allowance_any, expiry, make_fee_config, make_grant_config};

#[test]
fn basic_allowance_any_packs_a_uxion_spend_limit() {
    let any = basic_allowance_any("1000");
    assert_eq!(any.type_url, "/cosmos.feegrant.v1beta1.BasicAllowance");
    let decoded = BasicAllowance::decode(any.value.as_slice()).unwrap();
    assert_eq!(decoded.spend_limit.len(), 1);
    assert_eq!(decoded.spend_limit[0].denom, "uxion");
    assert_eq!(decoded.spend_limit[0].amount, "1000");
    assert_eq!(decoded.expiration, None);
}

#[test]
fn sample_configs_carry_their_descriptions() {
    let grant = make_grant_config(basic_allowance_any("5"), true);
    assert_eq!(grant.description, "test grant config");
    assert!(grant.optional);
    assert_eq!(grant.authorization, basic_allowance_any("5"));

    let fee = make_fee_config(None, Some(3600));
    assert_eq!(fee.description, "test fee config");
    assert_eq!(fee.allowance, None);
    assert_eq!(fee.expiration, Some(3600));
}

#[test]
fn expiry_is_the_fixed_time() {
    let e = expiry().unwrap();
    assert_eq!(e.seconds, 1_800_000_000);
    assert_eq!(e.nanos, 0);
}
