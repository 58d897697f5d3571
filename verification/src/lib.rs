//! The rules of an application's secret store: how a secret is named in the
//! platform's credential store, and how the outcome of a call on that store
//! is reported.
//!
//! A secret is known by a pair of strings, a service and a key. The pair is
//! turned into one entry name, under which the host keeps the secret in the
//! platform store, for one fixed account. Whatever the platform then reports
//! becomes one uniform response: a flag, the secret if one was asked for and
//! found, and an error text if the call failed.
//!
//! The library makes no call on the platform. The host makes it, between
//! [`entry_name`] and one of [`store_response`], [`retrieve_response`] and
//! [`delete_response`], and hands its outcome over as a plain value.
//!
//! - [`entry`]: the entry name of a service and a key, and when two pairs
//!   share one.
//! - [`response`]: the response, and which response each outcome of a
//!   platform call becomes.
//! - [`model`]: the operations over a store that keeps what it is given, and
//!   the laws that hold there.

pub mod entry;
pub mod model;
pub mod response;

pub use entry::{entry_name, ACCOUNT, SEPARATOR};
pub use response::{
    delete_response, retrieve_response, store_response, Failure, Operation, SecureStoreResponse,
};
