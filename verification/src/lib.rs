//! Verified core of the Traverse services.
//!
//! The heart of it is a sponsored-transaction relay. The relay accepts
//! transaction requests from untrusted callers, checks them against an
//! abuse-prevention policy, and decides which backend operation comes next,
//! so that no request drains the service's funds and no two requests sign
//! at once. Everything here is a function on plain values: the surrounding
//! service performs the backend operations and feeds their results back in.
//!
//! - [`primitives`]: addresses, hashes and 256-bit integers.
//! - [`request`]: the transaction request and the checks on its own fields.
//! - [`delegation`]: which destinations may receive a sponsored call.
//! - [`upstream`]: the backend's answers, and the ceiling on gas.
//! - [`wallet`]: the coordinator that takes one request from arrival to
//!   reply, one step at a time.
//! - [`run`]: what holds of every request served.
//! - [`service`]: what holds of many requests served at once.
//! - [`error`]: why a request is turned down, and how that is reported.
//! - [`forks`]: which EVM rules a block runs under.
//! - [`walltime`]: wall time against block time.
//! - [`rpc`]: the module that overrides part of the `eth` namespace.

pub mod delegation;
pub mod error;
pub mod forks;
pub mod primitives;
pub mod request;
pub mod rpc;
pub mod run;
pub mod service;
pub mod upstream;
pub mod wallet;
pub mod walltime;
