//! Value model of Foundation's `NSError`: the domain, the domain-specific
//! code and the user-info strings that the native error object reports.

pub mod ns_error;

pub use ns_error::{NSError, NSErrorModel, NSErrorRecoveryAttempting};
