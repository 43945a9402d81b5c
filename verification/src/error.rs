//! Errors of the treasury.

use vstd::prelude::*;

verus! {

/// A failure of the chain's standard layer: a missing stored item, a rejected
/// address, a failed query.
#[derive(Debug, Clone, PartialEq, Eq)]
pub enum StdFailure {
    /// A stored item that was expected is absent.
    NotFound { kind: String },
    /// Any other failure, with its message.
    GenericErr { msg: String },
}

/// Mathematical model of a [`StdFailure`].
pub enum StdFailureView {
    NotFound { kind: Seq<char> },
    GenericErr { msg: Seq<char> },
}

impl View for StdFailure {
    type V = StdFailureView;

    open spec fn view(&self) -> StdFailureView {
        match self {
            StdFailure::NotFound { kind } => StdFailureView::NotFound { kind: kind@ },
            StdFailure::GenericErr { msg } => StdFailureView::GenericErr { msg: msg@ },
        }
    }
}

impl StdFailure {
    /// A copy of this failure.
    pub fn duplicate(&self) -> (r: StdFailure)
        ensures
            r@ == self@,
    {
        match self {
            StdFailure::NotFound { kind } => StdFailure::NotFound { kind: kind.clone() },
            StdFailure::GenericErr { msg } => StdFailure::GenericErr { msg: msg.clone() },
        }
    }
}

/// Every way in which a treasury operation can be refused.
#[derive(Debug, Clone, PartialEq, Eq)]
pub enum ContractError {
    Std(StdFailure),
    /// Bytes that should hold a protobuf message could not be decoded.
    Decode(String),
    /// The metadata parameter is not a JSON document.
    JsonError(String),
    /// A URL parameter is not an absolute URL.
    URLParse(String),
    AuthzGrantNotFound { msg_type_url: String },
    AuthzGrantNoAuthorization,
    AuthzGrantMismatch,
    InvalidAllowanceType { msg_type_url: String },
    AllowanceUnset,
    Unauthorized,
    ConfigurationMismatch,
    GrantConfigNotFound { type_url: String },
}

/// Mathematical model of a [`ContractError`].
pub enum ErrorView {
    Std(StdFailureView),
    Decode(Seq<char>),
    JsonError(Seq<char>),
    URLParse(Seq<char>),
    AuthzGrantNotFound { msg_type_url: Seq<char> },
    AuthzGrantNoAuthorization,
    AuthzGrantMismatch,
    InvalidAllowanceType { msg_type_url: Seq<char> },
    AllowanceUnset,
    Unauthorized,
    ConfigurationMismatch,
    GrantConfigNotFound { type_url: Seq<char> },
}

impl View for ContractError {
    type V = ErrorView;

    open spec fn view(&self) -> ErrorView {
        match self {
            ContractError::Std(e) => ErrorView::Std(e@),
            ContractError::Decode(m) => ErrorView::Decode(m@),
            ContractError::JsonError(m) => ErrorView::JsonError(m@),
            ContractError::URLParse(m) => ErrorView::URLParse(m@),
            ContractError::AuthzGrantNotFound { msg_type_url } => ErrorView::AuthzGrantNotFound {
                msg_type_url: msg_type_url@,
            },
            ContractError::AuthzGrantNoAuthorization => ErrorView::AuthzGrantNoAuthorization,
            ContractError::AuthzGrantMismatch => ErrorView::AuthzGrantMismatch,
            ContractError::InvalidAllowanceType { msg_type_url } => ErrorView::InvalidAllowanceType {
                msg_type_url: msg_type_url@,
            },
            ContractError::AllowanceUnset => ErrorView::AllowanceUnset,
            ContractError::Unauthorized => ErrorView::Unauthorized,
            ContractError::ConfigurationMismatch => ErrorView::ConfigurationMismatch,
            ContractError::GrantConfigNotFound { type_url } => ErrorView::GrantConfigNotFound {
                type_url: type_url@,
            },
        }
    }
}

/// The model of a result: the model of the value or of the error.
pub open spec fn result_view<T: View>(r: Result<T, ContractError>) -> Result<T::V, ErrorView> {
    match r {
        Ok(v) => Ok(v@),
        Err(e) => Err(e@),
    }
}

} // verus!
