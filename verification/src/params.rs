//! The display parameters of a treasury and their validation.

use crate::error::{ContractError, ErrorView};
use vstd::prelude::*;
use vstd::string::*;

verus! {

/// The parameters that a front end shows for the treasury.
#[derive(Debug, Clone, PartialEq, Eq)]
pub struct Params {
    /// Where users are sent back to after granting.
    pub redirect_url: String,
    /// The treasury's icon.
    pub icon_url: String,
    /// Free-form metadata, a JSON document.
    pub metadata: String,
}

/// Mathematical model of [`Params`].
pub struct ParamsView {
    pub redirect_url: Seq<char>,
    pub icon_url: Seq<char>,
    pub metadata: Seq<char>,
}

impl View for Params {
    type V = ParamsView;

    open spec fn view(&self) -> ParamsView {
        ParamsView { redirect_url: self.redirect_url@, icon_url: self.icon_url@, metadata: self.metadata@ }
    }
}

impl Params {
    /// A copy of these parameters.
    pub fn duplicate(&self) -> (r: Params)
        ensures
            r@ == self@,
    {
        Params {
            redirect_url: self.redirect_url.clone(),
            icon_url: self.icon_url.clone(),
            metadata: self.metadata.clone(),
        }
    }
}

/// Why `url::Url::parse` refuses `input` as an absolute URL, as the text of
/// its error; `None` where it parses.
pub uninterp spec fn url_error(input: Seq<char>) -> Option<Seq<char>>;

/// Why `serde_json::from_str::<serde_json::Value>` refuses `input` as a JSON
/// document, as the text of its error; `None` where it parses.
pub uninterp spec fn json_error(input: Seq<char>) -> Option<Seq<char>>;

/// Parses `input` with `url::Url::parse`. Claimed: it succeeds exactly where
/// the named refusal is `None`, and otherwise fails with that text (the
/// `Display` of url's `ParseError`).
#[verifier::external_body]
fn parse_url(input: &str) -> (r: Result<(), String>)
    ensures
        match url_error(input@) {
            None => r is Ok,
            Some(text) => r matches Err(m) && m@ == text,
        },
{
    match url::Url::parse(input) {
        Ok(_) => Ok(()),
        Err(e) => Err(e.to_string()),
    }
}

/// Parses `input` with `serde_json::from_str` into a `serde_json::Value`.
/// Claimed: it succeeds exactly where the named refusal is `None`, and
/// otherwise fails with that text (the `Display` of serde_json's `Error`).
#[verifier::external_body]
fn parse_json(input: &str) -> (r: Result<(), String>)
    ensures
        match json_error(input@) {
            None => r is Ok,
            Some(text) => r matches Err(m) && m@ == text,
        },
{
    match serde_json::from_str::<serde_json::Value>(input) {
        Ok(_) => Ok(()),
        Err(e) => Err(e.to_string()),
    }
}

/// Why `p` is refused, checked in order: the redirect URL, the icon URL, the
/// metadata; `None` where it is accepted.
pub open spec fn params_error(p: ParamsView) -> Option<ErrorView> {
    match url_error(p.redirect_url) {
        Some(text) => Some(ErrorView::URLParse(text)),
        None => match url_error(p.icon_url) {
            Some(text) => Some(ErrorView::URLParse(text)),
            None => match json_error(p.metadata) {
                Some(text) => Some(ErrorView::JsonError(text)),
                None => None,
            },
        },
    }
}

/// Accepts parameters whose two URLs parse and whose metadata is JSON.
pub fn validate_params(params: &Params) -> (r: Result<(), ContractError>)
    ensures
        match params_error(params@) {
            None => r is Ok,
            Some(e) => r matches Err(x) && x@ == e,
        },
{
    match parse_url(params.redirect_url.as_str()) {
        Err(msg) => return Err(ContractError::URLParse(msg)),
        Ok(()) => {},
    }
    match parse_url(params.icon_url.as_str()) {
        Err(msg) => return Err(ContractError::URLParse(msg)),
        Ok(()) => {},
    }
    match parse_json(params.metadata.as_str()) {
        Err(msg) => Err(ContractError::JsonError(msg)),
        Ok(()) => Ok(()),
    }
}

/// A complete set of well-formed parameters: an `https` redirect URL, an
/// `https` icon URL and a JSON object as metadata.
pub fn valid_params() -> (p: Params)
    ensures
        p@ == (ParamsView {
            redirect_url: "https://example.com/redirect"@,
            icon_url: "https://example.com/icon.png"@,
            metadata: "{\"name\":\"test treasury\"}"@,
        }),
{
    Params {
        redirect_url: String::from_str("https://example.com/redirect"),
        icon_url: String::from_str("https://example.com/icon.png"),
        metadata: String::from_str("{\"name\":\"test treasury\"}"),
    }
}

} // verus!
