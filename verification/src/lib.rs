//! Client-side core of a driver for the YubiHSM2 hardware security module:
//! the wire codec, message framing, the SCP03-style secure channel, session
//! management, the typed client facade and an in-process simulator of the
//! device. Every function is verified against the contract it carries; only
//! the calls into other crates, which the module `crypto` gathers, have
//! contracts that are taken on trust.

pub mod algorithm;
pub mod audit;
pub mod client;
pub mod codec;
pub mod command;
pub mod commands;
pub mod connector;
pub mod crypto;
pub mod error;
pub mod filter;
pub mod mockhsm;
pub mod object;
pub mod response;
pub mod responses;
pub mod scp03;
pub mod securechannel;
pub mod session;
