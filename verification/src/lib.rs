//! Verified core of the XION treasury contract: the state it keeps, the rules
//! that decide who may change it, the validation of its display parameters and
//! the shaping of the fee allowances it grants.

pub mod error;
pub mod proto;
pub mod allowance;
pub mod order;
pub mod grant;
pub mod params;
pub mod response;
pub mod treasury;
pub mod fee_grant;
pub mod laws;
pub mod samples;
