//! The treasury's state and the operations that read and change it.

use crate::error::{result_view, ContractError, ErrorView, StdFailure, StdFailureView};
use crate::grant::{
    table_has, table_insert, table_keys, table_map, table_remove, table_sorted, FeeConfig,
    FeeConfigView, GrantConfig, GrantConfigView, GrantTable,
};
use crate::params::{params_error, validate_params, Params, ParamsView};
use crate::proto::{encode_revoke_allowance_msg, revoke_allowance_msg_bytes, strings_view, Any, AnyView};
use crate::response::{
    attr, attribute, bool_text, bool_to_text, coins_view, event_response, event_view,
    messages_response, respond_with_event, respond_with_messages, Attribute, AttributeView,
    Coin, CoinView, Msg, MsgView, Response, ResponseView,
};
use vstd::prelude::*;
use vstd::string::*;

verus! {

/// The type URL of `cosmos.feegrant.v1beta1.MsgRevokeAllowance`.
pub const REVOKE_ALLOWANCE_URL: &'static str = "/cosmos.feegrant.v1beta1.MsgRevokeAllowance";

/// What the chain tells a contract about where and when it runs.
#[derive(Debug, Clone, PartialEq, Eq)]
pub struct ContractEnv {
    /// The treasury's own address.
    pub contract_address: String,
    /// The time of the current block, in nanoseconds since the epoch.
    pub block_time_nanos: u64,
}

pub struct ContractEnvView {
    pub contract_address: Seq<char>,
    pub block_time_nanos: u64,
}

impl View for ContractEnv {
    type V = ContractEnvView;

    open spec fn view(&self) -> ContractEnvView {
        ContractEnvView { contract_address: self.contract_address@, block_time_nanos: self.block_time_nanos }
    }
}

/// The state of a treasury.
pub struct Treasury {
    admin: String,
    pending_admin: Option<String>,
    grant_configs: GrantTable,
    fee_config: FeeConfig,
    params: Params,
}

/// Mathematical model of a [`Treasury`]: the grant configurations are listed
/// in the order of their type URLs in the chain's store.
pub struct TreasuryView {
    pub admin: Seq<char>,
    pub pending_admin: Option<Seq<char>>,
    pub grant_configs: Seq<(Seq<char>, GrantConfigView)>,
    pub fee_config: FeeConfigView,
    pub params: ParamsView,
}

impl View for Treasury {
    type V = TreasuryView;

    closed spec fn view(&self) -> TreasuryView {
        TreasuryView {
            admin: self.admin@,
            pending_admin: match self.pending_admin {
                Some(a) => Some(a@),
                None => None,
            },
            grant_configs: self.grant_configs@,
            fee_config: self.fee_config@,
            params: self.params@,
        }
    }
}

/// What holds of every treasury: its grant configurations are in store
/// order and its parameters are valid.
pub open spec fn treasury_wf(t: TreasuryView) -> bool {
    table_sorted(t.grant_configs) && params_error(t.params) is None
}

/// The model of an address that the chain validated, or of why it did not.
pub open spec fn addr_result_view(r: Result<String, StdFailure>) -> Result<Seq<char>, StdFailureView> {
    match r {
        Ok(a) => Ok(a@),
        Err(e) => Err(e@),
    }
}

/// The table built from `type_urls[i] -> configs[i]`, later entries
/// replacing earlier ones with the same type URL.
pub open spec fn table_from(type_urls: Seq<Seq<char>>, configs: Seq<GrantConfigView>) -> Seq<(Seq<char>, GrantConfigView)>
    decreases type_urls.len(),
{
    if type_urls.len() == 0 || configs.len() == 0 {
        Seq::empty()
    } else {
        table_insert(
            table_from(type_urls.drop_last(), configs.drop_last()),
            type_urls.last(),
            configs.last(),
        )
    }
}

/// A new treasury: refused without an admin, with as many type URLs as grant
/// configurations, and with invalid parameters.
pub open spec fn spec_init(
    admin: Option<Seq<char>>,
    type_urls: Seq<Seq<char>>,
    configs: Seq<GrantConfigView>,
    fee_config: FeeConfigView,
    params: ParamsView,
) -> Result<(TreasuryView, ResponseView), ErrorView> {
    match admin {
        None => Err(ErrorView::Unauthorized),
        Some(a) => if type_urls.len() != configs.len() {
            Err(ErrorView::ConfigurationMismatch)
        } else {
            match params_error(params) {
                Some(e) => Err(e),
                None => Ok((
                    TreasuryView {
                        admin: a,
                        pending_admin: None,
                        grant_configs: table_from(type_urls, configs),
                        fee_config,
                        params,
                    },
                    event_response(event_view("create_treasury_instance"@, seq![attr("admin"@, a)])),
                )),
            }
        },
    }
}

/// The admin proposes `new_admin` (as validated by the chain) to succeed it.
pub open spec fn spec_propose_admin(t: TreasuryView, sender: Seq<char>, new_admin: Result<Seq<char>, StdFailureView>) -> (TreasuryView, Result<ResponseView, ErrorView>) {
    if sender != t.admin {
        (t, Err(ErrorView::Unauthorized))
    } else {
        match new_admin {
            Err(e) => (t, Err(ErrorView::Std(e))),
            Ok(n) => (
                TreasuryView { pending_admin: Some(n), ..t },
                Ok(event_response(event_view(
                    "propose_treasury_admin"@,
                    seq![attr("old_admin"@, t.admin), attr("proposed_admin"@, n)],
                ))),
            ),
        }
    }
}

/// The failure of looking up a pending admin where none is proposed.
pub open spec fn no_pending_admin() -> StdFailureView {
    StdFailureView::NotFound { kind: "pending admin"@ }
}

/// The proposed admin takes over.
pub open spec fn spec_accept_admin(t: TreasuryView, sender: Seq<char>) -> (TreasuryView, Result<ResponseView, ErrorView>) {
    match t.pending_admin {
        None => (t, Err(ErrorView::Std(no_pending_admin()))),
        Some(p) => if sender != p {
            (t, Err(ErrorView::Unauthorized))
        } else {
            (
                TreasuryView { admin: p, pending_admin: None, ..t },
                Ok(event_response(event_view(
                    "accept_treasury_admin"@,
                    seq![attr("old_admin"@, t.admin), attr("new_admin"@, p)],
                ))),
            )
        },
    }
}

/// The admin withdraws its proposal.
pub open spec fn spec_cancel_proposed_admin(t: TreasuryView, sender: Seq<char>) -> (TreasuryView, Result<ResponseView, ErrorView>) {
    if sender != t.admin {
        (t, Err(ErrorView::Unauthorized))
    } else {
        (
            TreasuryView { pending_admin: None, ..t },
            Ok(event_response(event_view("cancel_treasury_admin"@, seq![attr("admin"@, t.admin)]))),
        )
    }
}

/// The admin sets the grant configuration of a message type; the event says
/// whether one was replaced.
pub open spec fn spec_update_grant_config(t: TreasuryView, sender: Seq<char>, type_url: Seq<char>, config: GrantConfigView) -> (TreasuryView, Result<ResponseView, ErrorView>) {
    if sender != t.admin {
        (t, Err(ErrorView::Unauthorized))
    } else {
        (
            TreasuryView { grant_configs: table_insert(t.grant_configs, type_url, config), ..t },
            Ok(event_response(event_view(
                "updated_treasury_grant_config"@,
                seq![attr("msg type url"@, type_url), attr("overwritten"@, bool_text(table_has(t.grant_configs, type_url)))],
            ))),
        )
    }
}

/// The admin removes the grant configuration of a message type.
pub open spec fn spec_remove_grant_config(t: TreasuryView, sender: Seq<char>, type_url: Seq<char>) -> (TreasuryView, Result<ResponseView, ErrorView>) {
    if sender != t.admin {
        (t, Err(ErrorView::Unauthorized))
    } else if !table_has(t.grant_configs, type_url) {
        (t, Err(ErrorView::GrantConfigNotFound { type_url }))
    } else {
        (
            TreasuryView { grant_configs: table_remove(t.grant_configs, type_url), ..t },
            Ok(event_response(event_view("removed_treasury_grant_config"@, seq![attr("msg type url"@, type_url)]))),
        )
    }
}

/// The admin replaces the fee configuration.
pub open spec fn spec_update_fee_config(t: TreasuryView, sender: Seq<char>, fee_config: FeeConfigView) -> (TreasuryView, Result<ResponseView, ErrorView>) {
    if sender != t.admin {
        (t, Err(ErrorView::Unauthorized))
    } else {
        (
            TreasuryView { fee_config, ..t },
            Ok(event_response(event_view("updated_treasury_fee_config"@, seq![]))),
        )
    }
}

/// The admin replaces the parameters with valid ones.
pub open spec fn spec_update_params(t: TreasuryView, sender: Seq<char>, params: ParamsView) -> (TreasuryView, Result<ResponseView, ErrorView>) {
    if sender != t.admin {
        (t, Err(ErrorView::Unauthorized))
    } else {
        match params_error(params) {
            Some(e) => (t, Err(e)),
            None => (TreasuryView { params, ..t }, Ok(event_response(event_view("updated_params"@, seq![])))),
        }
    }
}

/// The admin takes coins out of the treasury; they go to the admin.
pub open spec fn spec_withdraw_coins(t: TreasuryView, sender: Seq<char>, coins: Seq<CoinView>) -> Result<ResponseView, ErrorView> {
    if sender != t.admin {
        Err(ErrorView::Unauthorized)
    } else {
        Ok(messages_response(seq![MsgView::BankSend { to_address: t.admin, amount: coins }]))
    }
}

/// The admin revokes the fee allowance that the treasury gave `grantee`.
pub open spec fn spec_revoke_allowance(t: TreasuryView, env: ContractEnvView, sender: Seq<char>, grantee: Seq<char>) -> Result<ResponseView, ErrorView> {
    if sender != t.admin {
        Err(ErrorView::Unauthorized)
    } else {
        Ok(ResponseView {
            messages: seq![MsgView::Any(AnyView {
                type_url: REVOKE_ALLOWANCE_URL@,
                value: revoke_allowance_msg_bytes(env.contract_address, grantee),
            })],
            events: seq![event_view("revoked_treasury_allowance"@, seq![attr("grantee"@, grantee)])],
        })
    }
}

/// The admin migrates the treasury's contract to new code.
pub open spec fn spec_migrate(t: TreasuryView, env: ContractEnvView, sender: Seq<char>, new_code_id: u64, msg: Seq<u8>) -> Result<ResponseView, ErrorView> {
    if sender != t.admin {
        Err(ErrorView::Unauthorized)
    } else {
        Ok(messages_response(seq![MsgView::WasmMigrate {
            contract_addr: env.contract_address,
            new_code_id,
            msg,
        }]))
    }
}

impl Treasury {
    #[verifier::type_invariant]
    spec fn inv(&self) -> bool {
        self.grant_configs.wf() && params_error(self.params@) is None
    }

    /// Creates a treasury run by `admin`, with `grant_configs[i]` stored for
    /// `type_urls[i]`, the given fee configuration and parameters.
    pub fn init(
        admin: Option<String>,
        type_urls: Vec<String>,
        grant_configs: Vec<GrantConfig>,
        fee_config: FeeConfig,
        params: Params,
    ) -> (r: Result<(Treasury, Response), ContractError>)
        ensures
            match r {
                Ok((t, resp)) => spec_init(
                    match admin { Some(a) => Some(a@), None => None },
                    strings_view(type_urls@),
                    grant_configs@.map_values(|c: GrantConfig| c@),
                    fee_config@,
                    params@,
                ) == Ok::<(TreasuryView, ResponseView), ErrorView>((t@, resp@)) && treasury_wf(t@),
                Err(e) => spec_init(
                    match admin { Some(a) => Some(a@), None => None },
                    strings_view(type_urls@),
                    grant_configs@.map_values(|c: GrantConfig| c@),
                    fee_config@,
                    params@,
                ) == Err::<(TreasuryView, ResponseView), ErrorView>(e@),
            },
    {
        let admin = match admin {
            None => return Err(ContractError::Unauthorized),
            Some(a) => a,
        };
        if type_urls.len() != grant_configs.len() {
            return Err(ContractError::ConfigurationMismatch);
        }
        match validate_params(&params) {
            Err(e) => return Err(e),
            Ok(()) => {},
        }
        let ghost urls = strings_view(type_urls@);
        let ghost confs = grant_configs@.map_values(|c: GrantConfig| c@);
        let mut table = GrantTable::new();
        let mut i: usize = 0;
        assert(urls.take(0) =~= Seq::<Seq<char>>::empty());
        assert(confs.take(0) =~= Seq::<GrantConfigView>::empty());
        while i < type_urls.len()
            invariant
                i <= type_urls.len(),
                type_urls.len() == grant_configs.len(),
                urls == strings_view(type_urls@),
                confs == grant_configs@.map_values(|c: GrantConfig| c@),
                table.wf(),
                table@ == table_from(urls.take(i as int), confs.take(i as int)),
            decreases type_urls.len() - i,
        {
            let url = type_urls[i].clone();
            let config = grant_configs[i].duplicate();
            assert(urls.take(i + 1).drop_last() =~= urls.take(i as int));
            assert(confs.take(i + 1).drop_last() =~= confs.take(i as int));
            assert(urls.take(i + 1).last() == url@);
            assert(confs.take(i + 1).last() == config@);
            table.insert(url, config);
            i = i + 1;
        }
        assert(urls.take(i as int) =~= urls);
        assert(confs.take(i as int) =~= confs);
        let mut attributes: Vec<Attribute> = Vec::new();
        attributes.push(attribute("admin", admin.clone()));
        let resp = respond_with_event("create_treasury_instance", attributes);
        assert(attributes@.map_values(|a: Attribute| a@) =~= seq![attr("admin"@, admin@)]);
        let t = Treasury { admin, pending_admin: None, grant_configs: table, fee_config, params };
        Ok((t, resp))
    }

    /// Rebuilds a treasury from the parts in which it is stored: the same
    /// treasury as `init` builds from them, with `pending_admin` proposed.
    pub fn restore(
        admin: String,
        pending_admin: Option<String>,
        type_urls: Vec<String>,
        grant_configs: Vec<GrantConfig>,
        fee_config: FeeConfig,
        params: Params,
    ) -> (r: Result<Treasury, ContractError>)
        ensures
            match spec_init(
                Some(admin@),
                strings_view(type_urls@),
                grant_configs@.map_values(|c: GrantConfig| c@),
                fee_config@,
                params@,
            ) {
                Ok((t, _)) => r matches Ok(x) && x@ == (TreasuryView {
                    pending_admin: match pending_admin { Some(p) => Some(p@), None => None },
                    ..t
                }),
                Err(e) => r matches Err(x) && x@ == e,
            },
    {
        match Treasury::init(Some(admin), type_urls, grant_configs, fee_config, params) {
            Err(e) => Err(e),
            Ok((t, _)) => {
                let mut t = t;
                t.pending_admin = pending_admin;
                Ok(t)
            },
        }
    }

    /// The admin.
    pub fn admin(&self) -> (r: String)
        ensures
            r@ == self@.admin,
    {
        self.admin.clone()
    }

    /// The proposed admin, or the failure to find one.
    pub fn pending_admin(&self) -> (r: Result<String, StdFailure>)
        ensures
            match self@.pending_admin {
                Some(p) => r matches Ok(x) && x@ == p,
                None => r matches Err(e) && e@ == no_pending_admin(),
            },
    {
        match &self.pending_admin {
            Some(p) => Ok(p.clone()),
            None => Err(StdFailure::NotFound { kind: String::from_str("pending admin") }),
        }
    }

    /// The type URLs that have a grant configuration, in store order.
    pub fn grant_config_type_urls(&self) -> (r: Vec<String>)
        ensures
            strings_view(r@) == table_keys(self@.grant_configs),
    {
        self.grant_configs.type_urls()
    }

    /// The grant configuration of `type_url`.
    pub fn grant_config_by_type_url(&self, type_url: &String) -> (r: Result<GrantConfig, StdFailure>)
        ensures
            table_map(self@.grant_configs).contains_key(type_url@) ==> (r matches Ok(c) && c@
                == table_map(self@.grant_configs)[type_url@]),
            !table_map(self@.grant_configs).contains_key(type_url@) ==> (r matches Err(e) && e@
                == (StdFailureView::NotFound { kind: "grant config"@ })),
    {
        proof { use_type_invariant(self); }
        match self.grant_configs.get(type_url) {
            Some(c) => Ok(c.duplicate()),
            None => Err(StdFailure::NotFound { kind: String::from_str("grant config") }),
        }
    }

    /// How many grant configurations there are.
    pub fn grant_config_count(&self) -> (r: usize)
        ensures
            r == self@.grant_configs.len(),
    {
        self.grant_configs.len()
    }

    /// The type URL and grant configuration at place `i` in store order.
    pub fn grant_config_at(&self, i: usize) -> (r: (&String, &GrantConfig))
        requires
            i < self@.grant_configs.len(),
        ensures
            r.0@ == self@.grant_configs[i as int].0,
            r.1@ == self@.grant_configs[i as int].1,
    {
        self.grant_configs.row(i)
    }

    /// The fee configuration.
    pub fn fee_config(&self) -> (r: FeeConfig)
        ensures
            r@ == self@.fee_config,
    {
        self.fee_config.duplicate()
    }

    /// The parameters.
    pub fn params(&self) -> (r: Params)
        ensures
            r@ == self@.params,
    {
        self.params.duplicate()
    }

    /// Every treasury is well formed.
    pub fn check_wf(&self)
        ensures
            treasury_wf(self@),
    {
        proof { use_type_invariant(self); }
    }

    /// `sender` proposes `new_admin`, as the chain validated it, as the next
    /// admin.
    pub fn propose_admin(&mut self, sender: &String, new_admin: Result<String, StdFailure>) -> (r: Result<Response, ContractError>)
        ensures
            (final(self)@, result_view(r)) == spec_propose_admin(old(self)@, sender@, addr_result_view(new_admin)),
    {
        proof { use_type_invariant(&*self); }
        if !sender.eq(&self.admin) {
            return Err(ContractError::Unauthorized);
        }
        match new_admin {
            Err(e) => Err(ContractError::Std(e)),
            Ok(n) => {
                let mut attributes: Vec<Attribute> = Vec::new();
                attributes.push(attribute("old_admin", self.admin.clone()));
                attributes.push(attribute("proposed_admin", n.clone()));
                let resp = respond_with_event("propose_treasury_admin", attributes);
                assert(attributes@.map_values(|a: Attribute| a@) =~= seq![attr("old_admin"@, self.admin@), attr("proposed_admin"@, n@)]);
                self.pending_admin = Some(n);
                Ok(resp)
            },
        }
    }

    /// The proposed admin, as `sender`, takes over.
    pub fn accept_admin(&mut self, sender: &String) -> (r: Result<Response, ContractError>)
        ensures
            (final(self)@, result_view(r)) == spec_accept_admin(old(self)@, sender@),
    {
        proof { use_type_invariant(&*self); }
        let pending = match &self.pending_admin {
            None => return Err(ContractError::Std(StdFailure::NotFound { kind: String::from_str("pending admin") })),
            Some(p) => p.clone(),
        };
        if !sender.eq(&pending) {
            return Err(ContractError::Unauthorized);
        }
        let mut attributes: Vec<Attribute> = Vec::new();
        attributes.push(attribute("old_admin", self.admin.clone()));
        attributes.push(attribute("new_admin", pending.clone()));
        let resp = respond_with_event("accept_treasury_admin", attributes);
        assert(attributes@.map_values(|a: Attribute| a@) =~= seq![attr("old_admin"@, self.admin@), attr("new_admin"@, pending@)]);
        self.admin = pending;
        self.pending_admin = None;
        Ok(resp)
    }

    /// The admin, as `sender`, withdraws its proposal of a successor.
    pub fn cancel_proposed_admin(&mut self, sender: &String) -> (r: Result<Response, ContractError>)
        ensures
            (final(self)@, result_view(r)) == spec_cancel_proposed_admin(old(self)@, sender@),
    {
        proof { use_type_invariant(&*self); }
        if !sender.eq(&self.admin) {
            return Err(ContractError::Unauthorized);
        }
        let mut attributes: Vec<Attribute> = Vec::new();
        attributes.push(attribute("admin", self.admin.clone()));
        let resp = respond_with_event("cancel_treasury_admin", attributes);
        assert(attributes@.map_values(|a: Attribute| a@) =~= seq![attr("admin"@, self.admin@)]);
        self.pending_admin = None;
        Ok(resp)
    }

    /// The admin, as `sender`, stores `grant_config` for `msg_type_url`.
    pub fn update_grant_config(&mut self, sender: &String, msg_type_url: String, grant_config: GrantConfig) -> (r: Result<Response, ContractError>)
        ensures
            (final(self)@, result_view(r)) == spec_update_grant_config(old(self)@, sender@, msg_type_url@, grant_config@),
    {
        proof { use_type_invariant(&*self); }
        if !sender.eq(&self.admin) {
            return Err(ContractError::Unauthorized);
        }
        let mut table = GrantTable::new();
        std::mem::swap(&mut table, &mut self.grant_configs);
        let url = msg_type_url.clone();
        let existed = table.insert(msg_type_url, grant_config);
        self.grant_configs = table;
        let mut attributes: Vec<Attribute> = Vec::new();
        attributes.push(attribute("msg type url", url.clone()));
        attributes.push(attribute("overwritten", bool_to_text(existed)));
        let resp = respond_with_event("updated_treasury_grant_config", attributes);
        assert(attributes@.map_values(|a: Attribute| a@) =~= seq![attr("msg type url"@, url@), attr("overwritten"@, bool_text(existed))]);
        Ok(resp)
    }

    /// The admin, as `sender`, removes the grant configuration of
    /// `msg_type_url`.
    pub fn remove_grant_config(&mut self, sender: &String, msg_type_url: String) -> (r: Result<Response, ContractError>)
        ensures
            (final(self)@, result_view(r)) == spec_remove_grant_config(old(self)@, sender@, msg_type_url@),
    {
        proof { use_type_invariant(&*self); }
        if !sender.eq(&self.admin) {
            return Err(ContractError::Unauthorized);
        }
        if self.grant_configs.get(&msg_type_url).is_none() {
            return Err(ContractError::GrantConfigNotFound { type_url: msg_type_url });
        }
        let mut table = GrantTable::new();
        std::mem::swap(&mut table, &mut self.grant_configs);
        table.remove(&msg_type_url);
        self.grant_configs = table;
        let mut attributes: Vec<Attribute> = Vec::new();
        attributes.push(attribute("msg type url", msg_type_url.clone()));
        let resp = respond_with_event("removed_treasury_grant_config", attributes);
        assert(attributes@.map_values(|a: Attribute| a@) =~= seq![attr("msg type url"@, msg_type_url@)]);
        Ok(resp)
    }

    /// The admin, as `sender`, replaces the fee configuration.
    pub fn update_fee_config(&mut self, sender: &String, fee_config: FeeConfig) -> (r: Result<Response, ContractError>)
        ensures
            (final(self)@, result_view(r)) == spec_update_fee_config(old(self)@, sender@, fee_config@),
    {
        proof { use_type_invariant(&*self); }
        if !sender.eq(&self.admin) {
            return Err(ContractError::Unauthorized);
        }
        self.fee_config = fee_config;
        let attributes: Vec<Attribute> = Vec::new();
        let resp = respond_with_event("updated_treasury_fee_config", attributes);
        assert(attributes@.map_values(|a: Attribute| a@) =~= Seq::<AttributeView>::empty());
        Ok(resp)
    }

    /// The admin, as `sender`, replaces the parameters, once they are
    /// validated.
    pub fn update_params(&mut self, sender: &String, params: Params) -> (r: Result<Response, ContractError>)
        ensures
            (final(self)@, result_view(r)) == spec_update_params(old(self)@, sender@, params@),
    {
        proof { use_type_invariant(&*self); }
        if !sender.eq(&self.admin) {
            return Err(ContractError::Unauthorized);
        }
        match validate_params(&params) {
            Err(e) => return Err(e),
            Ok(()) => {},
        }
        self.params = params;
        let attributes: Vec<Attribute> = Vec::new();
        let resp = respond_with_event("updated_params", attributes);
        assert(attributes@.map_values(|a: Attribute| a@) =~= Seq::<AttributeView>::empty());
        Ok(resp)
    }

    /// The admin, as `sender`, takes `coins` out of the treasury.
    pub fn withdraw_coins(&self, sender: &String, coins: Vec<Coin>) -> (r: Result<Response, ContractError>)
        ensures
            result_view(r) == spec_withdraw_coins(self@, sender@, coins_view(coins@)),
    {
        if !sender.eq(&self.admin) {
            return Err(ContractError::Unauthorized);
        }
        let mut messages: Vec<Msg> = Vec::new();
        messages.push(Msg::BankSend { to_address: self.admin.clone(), amount: coins });
        let resp = respond_with_messages(messages);
        assert(messages@.map_values(|m: Msg| m@) =~= seq![MsgView::BankSend { to_address: self.admin@, amount: coins_view(coins@) }]);
        Ok(resp)
    }

    /// The admin, as `sender`, revokes the fee allowance that the treasury
    /// gave `grantee`.
    pub fn revoke_allowance(&self, env: &ContractEnv, sender: &String, grantee: String) -> (r: Result<Response, ContractError>)
        ensures
            result_view(r) == spec_revoke_allowance(self@, env@, sender@, grantee@),
    {
        if !sender.eq(&self.admin) {
            return Err(ContractError::Unauthorized);
        }
        let value = encode_revoke_allowance_msg(env.contract_address.clone(), grantee.clone());
        let mut messages: Vec<Msg> = Vec::new();
        messages.push(Msg::Any(Any { type_url: String::from_str(REVOKE_ALLOWANCE_URL), value }));
        let mut attributes: Vec<Attribute> = Vec::new();
        attributes.push(attribute("grantee", grantee));
        let mut resp = respond_with_event("revoked_treasury_allowance", attributes);
        assert(attributes@.map_values(|a: Attribute| a@) =~= seq![attr("grantee"@, grantee@)]);
        resp.messages = messages;
        assert(resp@.messages =~= seq![MsgView::Any(AnyView {
            type_url: REVOKE_ALLOWANCE_URL@,
            value: revoke_allowance_msg_bytes(env.contract_address@, grantee@),
        })]);
        Ok(resp)
    }

    /// The admin, as `sender`, migrates the treasury's contract to the code
    /// `new_code_id`, passing it `migrate_msg`.
    pub fn migrate(&self, env: &ContractEnv, sender: &String, new_code_id: u64, migrate_msg: Vec<u8>) -> (r: Result<Response, ContractError>)
        ensures
            result_view(r) == spec_migrate(self@, env@, sender@, new_code_id, migrate_msg@),
    {
        if !sender.eq(&self.admin) {
            return Err(ContractError::Unauthorized);
        }
        let mut messages: Vec<Msg> = Vec::new();
        messages.push(Msg::WasmMigrate {
            contract_addr: env.contract_address.clone(),
            new_code_id,
            msg: migrate_msg,
        });
        let resp = respond_with_messages(messages);
        assert(messages@.map_values(|m: Msg| m@) =~= seq![MsgView::WasmMigrate {
            contract_addr: env.contract_address@,
            new_code_id,
            msg: migrate_msg@,
        }]);
        Ok(resp)
    }
}

} // verus!
