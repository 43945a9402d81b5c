//! The protobuf messages that the treasury reads and writes, held as values of
//! its own, and the trusted codecs that turn them into bytes and back.
//!
//! Every codec here calls `prost` through the message types of
//! `cosmos-sdk-proto`. The three `xion.v1` allowances are not part of that
//! crate; each has the same field numbers and field types as a message that
//! is, and is decoded and encoded with that message's codec:
//! `xion.v1.ContractsAllowance` (`Any allowance = 1; repeated string
//! contract_addresses = 2`) like `cosmos.feegrant.v1beta1.AllowedMsgAllowance`,
//! `xion.v1.AuthzAllowance` (`Any allowance = 1; string authz_grantee = 2`)
//! like `cosmos.gov.v1.MsgExecLegacyContent`, and `xion.v1.MultiAnyAllowance`
//! (`repeated Any allowances = 1`) like
//! `cosmos.auth.v1beta1.QueryModuleAccountsResponse`.

use cosmos_sdk_proto::cosmos::auth::v1beta1::QueryModuleAccountsResponse as AnyListMsg;
use cosmos_sdk_proto::cosmos::base::v1beta1::Coin as CoinMsg;
use cosmos_sdk_proto::cosmos::feegrant::v1beta1::AllowedMsgAllowance as ListAllowanceMsg;
use cosmos_sdk_proto::cosmos::feegrant::v1beta1::BasicAllowance as BasicAllowanceMsg;
use cosmos_sdk_proto::cosmos::feegrant::v1beta1::MsgGrantAllowance;
use cosmos_sdk_proto::cosmos::feegrant::v1beta1::MsgRevokeAllowance;
use cosmos_sdk_proto::cosmos::feegrant::v1beta1::PeriodicAllowance as PeriodicAllowanceMsg;
use cosmos_sdk_proto::cosmos::gov::v1::MsgExecLegacyContent as GranteeAllowanceMsg;
use cosmos_sdk_proto::prost::Message;
use cosmos_sdk_proto::tendermint::google::protobuf::Duration as DurationMsg;
use cosmos_sdk_proto::Any as AnyMsg;
use cosmos_sdk_proto::Timestamp as TimestampMsg;
use vstd::prelude::*;
use vstd::utf8::encode_utf8;

verus! {

/// A packed protobuf message: its type URL and its encoded bytes.
#[derive(Debug, Clone, PartialEq, Eq)]
pub struct Any {
    pub type_url: String,
    pub value: Vec<u8>,
}

/// Mathematical model of an [`Any`].
pub struct AnyView {
    pub type_url: Seq<char>,
    pub value: Seq<u8>,
}

impl View for Any {
    type V = AnyView;

    open spec fn view(&self) -> AnyView {
        AnyView { type_url: self.type_url@, value: self.value@ }
    }
}

impl Any {
    /// A copy of this value.
    pub fn duplicate(&self) -> (r: Any)
        ensures
            r@ == self@,
    {
        Any { type_url: self.type_url.clone(), value: copy_bytes(&self.value) }
    }
}

/// A copy of a byte vector.
pub fn copy_bytes(v: &Vec<u8>) -> (r: Vec<u8>)
    ensures
        r@ == v@,
{
    let mut r: Vec<u8> = Vec::new();
    let mut i: usize = 0;
    while i < v.len()
        invariant
            i <= v.len(),
            r@ == v@.subrange(0, i as int),
        decreases v.len() - i,
    {
        r.push(v[i]);
        i = i + 1;
    }
    assert(r@ == v@);
    r
}

/// The model of an optional [`Any`].
pub open spec fn opt_any_view(a: Option<Any>) -> Option<AnyView> {
    match a {
        Some(x) => Some(x@),
        None => None,
    }
}

/// The models of a sequence of [`Any`] values.
pub open spec fn anys_view(s: Seq<Any>) -> Seq<AnyView> {
    s.map_values(|a: Any| a@)
}

/// The models of a sequence of strings.
pub open spec fn strings_view(s: Seq<String>) -> Seq<Seq<char>> {
    s.map_values(|x: String| x@)
}

/// `cosmos.base.v1beta1.Coin`: an amount, written in decimal, of a
/// denomination.
#[derive(Debug, Clone, PartialEq, Eq)]
pub struct ProtoCoin {
    pub denom: String,
    pub amount: String,
}

/// Mathematical model of a [`ProtoCoin`].
pub struct ProtoCoinView {
    pub denom: Seq<char>,
    pub amount: Seq<char>,
}

impl View for ProtoCoin {
    type V = ProtoCoinView;

    open spec fn view(&self) -> ProtoCoinView {
        ProtoCoinView { denom: self.denom@, amount: self.amount@ }
    }
}

/// The coin of `amount` in `denom`.
pub open spec fn coin(denom: Seq<char>, amount: Seq<char>) -> ProtoCoinView {
    ProtoCoinView { denom, amount }
}

/// The models of a sequence of coins.
pub open spec fn proto_coins_view(s: Seq<ProtoCoin>) -> Seq<ProtoCoinView> {
    s.map_values(|c: ProtoCoin| c@)
}

/// `google.protobuf.Timestamp`.
#[derive(Debug, Clone, Copy, PartialEq, Eq, Structural)]
pub struct Timestamp {
    pub seconds: i64,
    pub nanos: i32,
}

/// `google.protobuf.Duration`.
#[derive(Debug, Clone, Copy, PartialEq, Eq, Structural)]
pub struct Duration {
    pub seconds: i64,
    pub nanos: i32,
}

/// `cosmos.feegrant.v1beta1.BasicAllowance`.
#[derive(Debug, Clone, PartialEq)]
pub struct BasicAllowance {
    pub spend_limit: Vec<ProtoCoin>,
    pub expiration: Option<Timestamp>,
}

pub struct BasicAllowanceView {
    pub spend_limit: Seq<ProtoCoinView>,
    pub expiration: Option<Timestamp>,
}

impl View for BasicAllowance {
    type V = BasicAllowanceView;

    open spec fn view(&self) -> BasicAllowanceView {
        BasicAllowanceView { spend_limit: proto_coins_view(self.spend_limit@), expiration: self.expiration }
    }
}

/// `cosmos.feegrant.v1beta1.PeriodicAllowance`.
#[derive(Debug, Clone, PartialEq)]
pub struct PeriodicAllowance {
    pub basic: Option<BasicAllowance>,
    pub period: Option<Duration>,
    pub period_spend_limit: Vec<ProtoCoin>,
    pub period_can_spend: Vec<ProtoCoin>,
    pub period_reset: Option<Timestamp>,
}

pub struct PeriodicAllowanceView {
    pub basic: Option<BasicAllowanceView>,
    pub period: Option<Duration>,
    pub period_spend_limit: Seq<ProtoCoinView>,
    pub period_can_spend: Seq<ProtoCoinView>,
    pub period_reset: Option<Timestamp>,
}

impl View for PeriodicAllowance {
    type V = PeriodicAllowanceView;

    open spec fn view(&self) -> PeriodicAllowanceView {
        PeriodicAllowanceView {
            basic: match self.basic {
                Some(b) => Some(b@),
                None => None,
            },
            period: self.period,
            period_spend_limit: proto_coins_view(self.period_spend_limit@),
            period_can_spend: proto_coins_view(self.period_can_spend@),
            period_reset: self.period_reset,
        }
    }
}

/// An allowance wrapped together with a list of strings: the layout
/// (`Any = 1; repeated string = 2`) of `cosmos.feegrant.v1beta1.AllowedMsgAllowance`,
/// whose list holds the allowed message types, and of
/// `xion.v1.ContractsAllowance`, whose list holds contract addresses.
#[derive(Debug, Clone, PartialEq)]
pub struct ListAllowance {
    pub allowance: Option<Any>,
    pub entries: Vec<String>,
}

pub struct ListAllowanceView {
    pub allowance: Option<AnyView>,
    pub entries: Seq<Seq<char>>,
}

impl View for ListAllowance {
    type V = ListAllowanceView;

    open spec fn view(&self) -> ListAllowanceView {
        ListAllowanceView {
            allowance: opt_any_view(self.allowance),
            entries: strings_view(self.entries@),
        }
    }
}

/// `xion.v1.AuthzAllowance`: an allowance that only the given grantee of an
/// authz grant may spend.
#[derive(Debug, Clone, PartialEq)]
pub struct AuthzAllowance {
    pub allowance: Option<Any>,
    pub authz_grantee: String,
}

pub struct AuthzAllowanceView {
    pub allowance: Option<AnyView>,
    pub authz_grantee: Seq<char>,
}

impl View for AuthzAllowance {
    type V = AuthzAllowanceView;

    open spec fn view(&self) -> AuthzAllowanceView {
        AuthzAllowanceView {
            allowance: opt_any_view(self.allowance),
            authz_grantee: self.authz_grantee@,
        }
    }
}

/// `xion.v1.MultiAnyAllowance`: several allowances at once.
#[derive(Debug, Clone, PartialEq)]
pub struct MultiAnyAllowance {
    pub allowances: Vec<Any>,
}

pub struct MultiAnyAllowanceView {
    pub allowances: Seq<AnyView>,
}

impl View for MultiAnyAllowance {
    type V = MultiAnyAllowanceView;

    open spec fn view(&self) -> MultiAnyAllowanceView {
        MultiAnyAllowanceView { allowances: anys_view(self.allowances@) }
    }
}

/// A successful decoding that gives `v`.
pub open spec fn decoded<V>(v: V) -> Result<V, Seq<char>> {
    Ok(v)
}

/// What `prost` decodes from bytes as a `BasicAllowance`, or the text of its
/// decoding error.
pub uninterp spec fn basic_allowance_from_bytes(bytes: Seq<u8>) -> Result<BasicAllowanceView, Seq<char>>;

/// The bytes that `prost` encodes a `BasicAllowance` to.
pub uninterp spec fn basic_allowance_bytes(a: BasicAllowanceView) -> Seq<u8>;

/// What `prost` decodes from bytes as a `PeriodicAllowance`, or the text of
/// its decoding error.
pub uninterp spec fn periodic_allowance_from_bytes(bytes: Seq<u8>) -> Result<PeriodicAllowanceView, Seq<char>>;

/// The bytes that `prost` encodes a `PeriodicAllowance` to.
pub uninterp spec fn periodic_allowance_bytes(a: PeriodicAllowanceView) -> Seq<u8>;

/// What `prost` decodes from bytes in the layout of `AllowedMsgAllowance`, or
/// the text of its decoding error.
pub uninterp spec fn list_allowance_from_bytes(bytes: Seq<u8>) -> Result<ListAllowanceView, Seq<char>>;

/// The bytes that `prost` encodes the layout of `AllowedMsgAllowance` to.
pub uninterp spec fn list_allowance_bytes(a: ListAllowanceView) -> Seq<u8>;

/// What `prost` decodes from bytes in the layout of `xion.v1.AuthzAllowance`,
/// or the text of its decoding error.
pub uninterp spec fn authz_allowance_from_bytes(bytes: Seq<u8>) -> Result<AuthzAllowanceView, Seq<char>>;

/// The bytes that `prost` encodes the layout of `xion.v1.AuthzAllowance` to.
pub uninterp spec fn authz_allowance_bytes(a: AuthzAllowanceView) -> Seq<u8>;

/// What `prost` decodes from bytes in the layout of
/// `xion.v1.MultiAnyAllowance`, or the text of its decoding error.
pub uninterp spec fn multi_allowance_from_bytes(bytes: Seq<u8>) -> Result<MultiAnyAllowanceView, Seq<char>>;

/// The bytes that `prost` encodes the layout of `xion.v1.MultiAnyAllowance` to.
pub uninterp spec fn multi_allowance_bytes(a: MultiAnyAllowanceView) -> Seq<u8>;

/// The protobuf varint of `n`: seven bits per byte, least significant first,
/// the high bit set on every byte but the last.
pub open spec fn varint(n: nat) -> Seq<u8>
    decreases n,
{
    if n < 128 {
        seq![n as u8]
    } else {
        seq![(n % 128 + 128) as u8] + varint(n / 128)
    }
}

/// A length-delimited field: the key (field number `tag`, wire type 2), the
/// length of the payload, the payload.
pub open spec fn delimited_field(tag: nat, payload: Seq<u8>) -> Seq<u8> {
    varint(tag * 8 + 2) + varint(payload.len()) + payload
}

/// A `string` or `bytes` field of proto3: left out where empty.
pub open spec fn scalar_field(tag: nat, payload: Seq<u8>) -> Seq<u8> {
    if payload.len() == 0 {
        Seq::empty()
    } else {
        delimited_field(tag, payload)
    }
}

/// The bytes of a `google.protobuf.Any`.
pub open spec fn any_bytes(a: AnyView) -> Seq<u8> {
    scalar_field(1, encode_utf8(a.type_url)) + scalar_field(2, a.value)
}

/// The bytes of `cosmos.feegrant.v1beta1.MsgGrantAllowance { granter = 1,
/// grantee = 2, allowance = 3 }` with the allowance present.
pub open spec fn grant_allowance_msg_bytes(granter: Seq<char>, grantee: Seq<char>, allowance: AnyView) -> Seq<u8> {
    scalar_field(1, encode_utf8(granter)) + scalar_field(2, encode_utf8(grantee)) + delimited_field(3, any_bytes(allowance))
}

/// The bytes of `cosmos.feegrant.v1beta1.MsgRevokeAllowance { granter = 1,
/// grantee = 2 }`.
pub open spec fn revoke_allowance_msg_bytes(granter: Seq<char>, grantee: Seq<char>) -> Seq<u8> {
    scalar_field(1, encode_utf8(granter)) + scalar_field(2, encode_utf8(grantee))
}

/// Decodes a `BasicAllowance` with `prost::Message::decode`. Claimed: the
/// result is the named decoding: the allowance, or the text (`Display`) of
/// prost's `DecodeError`.
#[verifier::external_body]
pub(crate) fn decode_basic_allowance(bytes: &[u8]) -> (r: Result<BasicAllowance, String>)
    ensures
        match r {
            Ok(a) => basic_allowance_from_bytes(bytes@) == Ok::<BasicAllowanceView, Seq<char>>(a@),
            Err(text) => basic_allowance_from_bytes(bytes@) == Err::<BasicAllowanceView, Seq<char>>(text@),
        },
{
    match BasicAllowanceMsg::decode(bytes) {
        Ok(m) => Ok(BasicAllowance {
            spend_limit: m.spend_limit.into_iter().map(|c| ProtoCoin { denom: c.denom, amount: c.amount }).collect(),
            expiration: m.expiration.map(|t| Timestamp { seconds: t.seconds, nanos: t.nanos }),
        }),
        Err(e) => Err(e.to_string()),
    }
}

/// Encodes a `BasicAllowance` with `prost::Message::encode_to_vec`, which
/// cannot fail. Claimed: the result is the named encoding, and decoding it
/// gives the allowance back (prost decodes every field that it encodes).
#[verifier::external_body]
pub(crate) fn encode_basic_allowance(a: BasicAllowance) -> (r: Vec<u8>)
    ensures
        r@ == basic_allowance_bytes(a@),
        basic_allowance_from_bytes(r@) == decoded(a@),
{
    BasicAllowanceMsg {
        spend_limit: a.spend_limit.into_iter().map(|c| CoinMsg { denom: c.denom, amount: c.amount }).collect(),
        expiration: a.expiration.map(|t| TimestampMsg { seconds: t.seconds, nanos: t.nanos }),
    }.encode_to_vec()
}

/// Decodes a `PeriodicAllowance` with `prost::Message::decode`. Claimed: the
/// result is the named decoding: the allowance, or the text of prost's error.
#[verifier::external_body]
pub(crate) fn decode_periodic_allowance(bytes: &[u8]) -> (r: Result<PeriodicAllowance, String>)
    ensures
        match r {
            Ok(a) => periodic_allowance_from_bytes(bytes@) == Ok::<PeriodicAllowanceView, Seq<char>>(a@),
            Err(text) => periodic_allowance_from_bytes(bytes@) == Err::<PeriodicAllowanceView, Seq<char>>(text@),
        },
{
    let ts = |t: TimestampMsg| Timestamp { seconds: t.seconds, nanos: t.nanos };
    let coins = |v: Vec<CoinMsg>| v.into_iter().map(|c| ProtoCoin { denom: c.denom, amount: c.amount }).collect();
    match PeriodicAllowanceMsg::decode(bytes) {
        Ok(m) => Ok(PeriodicAllowance {
            basic: m.basic.map(|b| BasicAllowance { spend_limit: coins(b.spend_limit), expiration: b.expiration.map(ts) }),
            period: m.period.map(|d| Duration { seconds: d.seconds, nanos: d.nanos }),
            period_spend_limit: coins(m.period_spend_limit),
            period_can_spend: coins(m.period_can_spend),
            period_reset: m.period_reset.map(ts),
        }),
        Err(e) => Err(e.to_string()),
    }
}

/// Encodes a `PeriodicAllowance` with `prost::Message::encode_to_vec`.
/// Claimed: the result is the named encoding, and decoding it gives the
/// allowance back.
#[verifier::external_body]
pub(crate) fn encode_periodic_allowance(a: PeriodicAllowance) -> (r: Vec<u8>)
    ensures
        r@ == periodic_allowance_bytes(a@),
        periodic_allowance_from_bytes(r@) == decoded(a@),
{
    let ts = |t: Timestamp| TimestampMsg { seconds: t.seconds, nanos: t.nanos };
    let coins = |v: Vec<ProtoCoin>| v.into_iter().map(|c| CoinMsg { denom: c.denom, amount: c.amount }).collect();
    PeriodicAllowanceMsg {
        basic: a.basic.map(|b| BasicAllowanceMsg { spend_limit: coins(b.spend_limit), expiration: b.expiration.map(ts) }),
        period: a.period.map(|d| DurationMsg { seconds: d.seconds, nanos: d.nanos }),
        period_spend_limit: coins(a.period_spend_limit),
        period_can_spend: coins(a.period_can_spend),
        period_reset: a.period_reset.map(ts),
    }.encode_to_vec()
}

/// Decodes the layout of `AllowedMsgAllowance` with `prost::Message::decode`.
/// Claimed: the result is the named decoding (the allowance, or the text of
/// prost's error); and the bytes of a wrapped allowance, being a field nested inside
/// the input, are fewer than the input's.
#[verifier::external_body]
pub(crate) fn decode_list_allowance(bytes: &[u8]) -> (r: Result<ListAllowance, String>)
    ensures
        match r {
            Ok(a) => list_allowance_from_bytes(bytes@) == Ok::<ListAllowanceView, Seq<char>>(a@),
            Err(text) => list_allowance_from_bytes(bytes@) == Err::<ListAllowanceView, Seq<char>>(text@),
        },
        r matches Ok(a) ==> (a.allowance matches Some(x) ==> x.value@.len() < bytes@.len()),
{
    match ListAllowanceMsg::decode(bytes) {
        Ok(m) => Ok(ListAllowance {
            allowance: m.allowance.map(|x| Any { type_url: x.type_url, value: x.value }),
            entries: m.allowed_messages,
        }),
        Err(e) => Err(e.to_string()),
    }
}

/// Encodes the layout of `AllowedMsgAllowance` with
/// `prost::Message::encode_to_vec`. Claimed: the result is the named
/// encoding, and decoding it gives the allowance back.
#[verifier::external_body]
pub(crate) fn encode_list_allowance(a: ListAllowance) -> (r: Vec<u8>)
    ensures
        r@ == list_allowance_bytes(a@),
        list_allowance_from_bytes(r@) == decoded(a@),
{
    ListAllowanceMsg {
        allowance: a.allowance.map(|x| AnyMsg { type_url: x.type_url, value: x.value }),
        allowed_messages: a.entries,
    }.encode_to_vec()
}

/// Decodes the layout of `xion.v1.AuthzAllowance` with
/// `prost::Message::decode` on `MsgExecLegacyContent`. Claimed: the result
/// is the named decoding (the allowance, or the text of prost's error); and the
/// bytes of the wrapped allowance are fewer than the input's.
#[verifier::external_body]
pub(crate) fn decode_authz_allowance(bytes: &[u8]) -> (r: Result<AuthzAllowance, String>)
    ensures
        match r {
            Ok(a) => authz_allowance_from_bytes(bytes@) == Ok::<AuthzAllowanceView, Seq<char>>(a@),
            Err(text) => authz_allowance_from_bytes(bytes@) == Err::<AuthzAllowanceView, Seq<char>>(text@),
        },
        r matches Ok(a) ==> (a.allowance matches Some(x) ==> x.value@.len() < bytes@.len()),
{
    match GranteeAllowanceMsg::decode(bytes) {
        Ok(m) => Ok(AuthzAllowance {
            allowance: m.content.map(|x| Any { type_url: x.type_url, value: x.value }),
            authz_grantee: m.authority,
        }),
        Err(e) => Err(e.to_string()),
    }
}

/// Encodes the layout of `xion.v1.AuthzAllowance` with
/// `prost::Message::encode_to_vec` on `MsgExecLegacyContent`. Claimed: the
/// result is the named encoding, and decoding it gives the allowance back.
#[verifier::external_body]
pub(crate) fn encode_authz_allowance(a: AuthzAllowance) -> (r: Vec<u8>)
    ensures
        r@ == authz_allowance_bytes(a@),
        authz_allowance_from_bytes(r@) == decoded(a@),
{
    GranteeAllowanceMsg {
        content: a.allowance.map(|x| AnyMsg { type_url: x.type_url, value: x.value }),
        authority: a.authz_grantee,
    }.encode_to_vec()
}

/// Decodes the layout of `xion.v1.MultiAnyAllowance` with
/// `prost::Message::decode` on `QueryModuleAccountsResponse`. Claimed: the
/// result is the named decoding (the allowance, or the text of prost's error);
/// and the bytes of each listed allowance are fewer than the input's.
#[verifier::external_body]
pub(crate) fn decode_multi_allowance(bytes: &[u8]) -> (r: Result<MultiAnyAllowance, String>)
    ensures
        match r {
            Ok(a) => multi_allowance_from_bytes(bytes@) == Ok::<MultiAnyAllowanceView, Seq<char>>(a@),
            Err(text) => multi_allowance_from_bytes(bytes@) == Err::<MultiAnyAllowanceView, Seq<char>>(text@),
        },
        r matches Ok(a) ==> forall|i: int|
            0 <= i < a.allowances@.len() ==> #[trigger] a.allowances@[i].value@.len() < bytes@.len(),
{
    match AnyListMsg::decode(bytes) {
        Ok(m) => Ok(MultiAnyAllowance {
            allowances: m.accounts.into_iter().map(|x| Any { type_url: x.type_url, value: x.value }).collect(),
        }),
        Err(e) => Err(e.to_string()),
    }
}

/// Encodes the layout of `xion.v1.MultiAnyAllowance` with
/// `prost::Message::encode_to_vec` on `QueryModuleAccountsResponse`. Claimed:
/// the result is the named encoding, and decoding it gives the allowance back.
#[verifier::external_body]
pub(crate) fn encode_multi_allowance(a: MultiAnyAllowance) -> (r: Vec<u8>)
    ensures
        r@ == multi_allowance_bytes(a@),
        multi_allowance_from_bytes(r@) == decoded(a@),
{
    AnyListMsg {
        accounts: a.allowances.into_iter().map(|x| AnyMsg { type_url: x.type_url, value: x.value }).collect(),
    }.encode_to_vec()
}

/// Encodes `MsgGrantAllowance { granter, grantee, allowance: Some(allowance) }`
/// with `prost::Message::encode_to_vec`. Claimed: the bytes that prost's
/// derived encoding writes, field by field in field-number order, proto3
/// scalars left out where empty, the present allowance always written.
#[verifier::external_body]
pub(crate) fn encode_grant_allowance_msg(granter: String, grantee: String, allowance: Any) -> (r: Vec<u8>)
    ensures
        r@ == grant_allowance_msg_bytes(granter@, grantee@, allowance@),
{
    let allowance = Some(AnyMsg { type_url: allowance.type_url, value: allowance.value });
    MsgGrantAllowance { granter, grantee, allowance }.encode_to_vec()
}

/// Encodes `MsgRevokeAllowance { granter, grantee }` with
/// `prost::Message::encode_to_vec`. Claimed: the bytes that prost's derived
/// encoding writes: each non-empty string as key, length and UTF-8 bytes.
#[verifier::external_body]
pub(crate) fn encode_revoke_allowance_msg(granter: String, grantee: String) -> (r: Vec<u8>)
    ensures
        r@ == revoke_allowance_msg_bytes(granter@, grantee@),
{
    MsgRevokeAllowance { granter, grantee }.encode_to_vec()
}

} // verus!
