//! Error classification for the Pasqal backends of QRMI: the framework-level
//! error type, the Pasqal-specific errors, the mapping of failed Pasqal API
//! calls onto framework errors by HTTP status, and the decisions taken while
//! obtaining a munge credential.

pub mod error;
pub mod status;
pub mod api_error;
pub mod pasqal;
pub mod munge;
