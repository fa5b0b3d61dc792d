//! Core of a hospital-administration REST backend: account resolution across
//! role-partitioned profile tables, password verification, session-token
//! issuance and validation, the HTTP outcome mapping, boundary validation of
//! request bodies, and the uniform entity-gateway contract.
//!
//! All state read during authentication is taken as explicit values — a
//! snapshot of the credential rows, the clock, the signing secret — so every
//! decision the subsystem makes is a function of its inputs, stated in the
//! contracts; the surrounding process supplies those values and carries the
//! answers back to the wire.

pub mod dto;
pub mod errors;
pub mod hospital;
pub mod http;
pub mod password;
pub mod resolver;
pub mod role;
pub mod service;
pub mod store;
pub mod token;
pub mod validate;
