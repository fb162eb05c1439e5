//! Error classification and context propagation for storage backends.
//!
//! Backend failures are wrapped in context carriers ([`error::ObjectError`],
//! [`error::BackendError`]) and reduced to one of a few canonical kinds
//! ([`error::ErrorKind`]) that callers can branch on.

pub mod error;
pub mod http_util;
pub mod ipmfs;
pub mod ops;
