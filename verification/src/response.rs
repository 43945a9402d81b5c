//! What a treasury operation answers: the messages it asks the chain to
//! dispatch and the events it reports.

use crate::proto::{Any, AnyView};
use vstd::prelude::*;
use vstd::string::*;

verus! {

/// An amount of one denomination of a native token.
#[derive(Debug, Clone, PartialEq, Eq)]
pub struct Coin {
    pub denom: String,
    pub amount: u128,
}

pub struct CoinView {
    pub denom: Seq<char>,
    pub amount: u128,
}

impl View for Coin {
    type V = CoinView;

    open spec fn view(&self) -> CoinView {
        CoinView { denom: self.denom@, amount: self.amount }
    }
}

/// The models of a sequence of coins.
pub open spec fn coins_view(s: Seq<Coin>) -> Seq<CoinView> {
    s.map_values(|c: Coin| c@)
}

/// A message for the chain to dispatch.
#[derive(Debug, Clone, PartialEq, Eq)]
pub enum Msg {
    /// Send `amount` from the treasury to `to_address`.
    BankSend { to_address: String, amount: Vec<Coin> },
    /// Migrate the contract at `contract_addr` to the code `new_code_id`.
    WasmMigrate { contract_addr: String, new_code_id: u64, msg: Vec<u8> },
    /// A protobuf message of any module, packed.
    Any(Any),
}

pub enum MsgView {
    BankSend { to_address: Seq<char>, amount: Seq<CoinView> },
    WasmMigrate { contract_addr: Seq<char>, new_code_id: u64, msg: Seq<u8> },
    Any(AnyView),
}

impl View for Msg {
    type V = MsgView;

    open spec fn view(&self) -> MsgView {
        match self {
            Msg::BankSend { to_address, amount } => MsgView::BankSend {
                to_address: to_address@,
                amount: coins_view(amount@),
            },
            Msg::WasmMigrate { contract_addr, new_code_id, msg } => MsgView::WasmMigrate {
                contract_addr: contract_addr@,
                new_code_id: *new_code_id,
                msg: msg@,
            },
            Msg::Any(a) => MsgView::Any(a@),
        }
    }
}

/// A key and a value that an event carries.
#[derive(Debug, Clone, PartialEq, Eq)]
pub struct Attribute {
    pub key: String,
    pub value: String,
}

pub struct AttributeView {
    pub key: Seq<char>,
    pub value: Seq<char>,
}

impl View for Attribute {
    type V = AttributeView;

    open spec fn view(&self) -> AttributeView {
        AttributeView { key: self.key@, value: self.value@ }
    }
}

/// A named event with its attributes.
#[derive(Debug, Clone, PartialEq, Eq)]
pub struct Event {
    pub ty: String,
    pub attributes: Vec<Attribute>,
}

pub struct EventView {
    pub ty: Seq<char>,
    pub attributes: Seq<AttributeView>,
}

impl View for Event {
    type V = EventView;

    open spec fn view(&self) -> EventView {
        EventView { ty: self.ty@, attributes: self.attributes@.map_values(|a: Attribute| a@) }
    }
}

/// The messages and events of a successful operation.
#[derive(Debug, Clone, PartialEq, Eq)]
pub struct Response {
    pub messages: Vec<Msg>,
    pub events: Vec<Event>,
}

pub struct ResponseView {
    pub messages: Seq<MsgView>,
    pub events: Seq<EventView>,
}

impl View for Response {
    type V = ResponseView;

    open spec fn view(&self) -> ResponseView {
        ResponseView {
            messages: self.messages@.map_values(|m: Msg| m@),
            events: self.events@.map_values(|e: Event| e@),
        }
    }
}

/// An event of type `ty` with the given attributes.
pub open spec fn event_view(ty: Seq<char>, attributes: Seq<AttributeView>) -> EventView {
    EventView { ty, attributes }
}

/// An attribute.
pub open spec fn attr(key: Seq<char>, value: Seq<char>) -> AttributeView {
    AttributeView { key, value }
}

/// A response with one event and no message.
pub open spec fn event_response(e: EventView) -> ResponseView {
    ResponseView { messages: seq![], events: seq![e] }
}

/// A response with the given messages and no event.
pub open spec fn messages_response(messages: Seq<MsgView>) -> ResponseView {
    ResponseView { messages, events: seq![] }
}

/// The text of a boolean, as `bool::to_string` writes it.
pub open spec fn bool_text(b: bool) -> Seq<char> {
    if b {
        "true"@
    } else {
        "false"@
    }
}

/// Builds an attribute.
pub fn attribute(key: &str, value: String) -> (r: Attribute)
    ensures
        r@ == attr(key@, value@),
{
    Attribute { key: String::from_str(key), value }
}

/// Builds a response with a single event.
pub fn respond_with_event(ty: &str, attributes: Vec<Attribute>) -> (r: Response)
    ensures
        r@ == event_response(event_view(ty@, attributes@.map_values(|a: Attribute| a@))),
{
    let mut events: Vec<Event> = Vec::new();
    events.push(Event { ty: String::from_str(ty), attributes });
    let r = Response { messages: Vec::new(), events };
    assert(r@.messages =~= Seq::<MsgView>::empty());
    assert(r@.events =~= seq![event_view(ty@, attributes@.map_values(|a: Attribute| a@))]);
    r
}

/// Builds a response with messages only.
pub fn respond_with_messages(messages: Vec<Msg>) -> (r: Response)
    ensures
        r@ == messages_response(messages@.map_values(|m: Msg| m@)),
{
    let r = Response { messages, events: Vec::new() };
    assert(r@.events =~= Seq::<EventView>::empty());
    r
}

/// The text of a boolean.
pub fn bool_to_text(b: bool) -> (r: String)
    ensures
        r@ == bool_text(b),
{
    if b {
        String::from_str("true")
    } else {
        String::from_str("false")
    }
}

} // verus!
