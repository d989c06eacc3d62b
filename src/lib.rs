//! A chain extension for non-fungible token collections: contracts running in
//! a metered sandbox call privileged operations of the runtime's NFT module by
//! number, with requests and answers encoded in byte buffers.
//!
//! - `types`: the records as the contract side writes them.
//! - `host`: the records as the runtime module keeps them.
//! - `translate`: from the first to the second.
//! - `codec`, `wire`: the byte layout of requests and answers.
//! - `errors`: the failure codes and the mapping of runtime failures onto them.
//! - `dispatch`: the runtime side, which routes a call by its function id.
//! - `extension`: the contract side, which builds calls and reads answers.
use vstd::prelude::*;

pub mod codec;
pub mod dispatch;
pub mod errors;
pub mod extension;
pub mod host;
pub mod translate;
pub mod types;
pub mod wire;

verus! {

} // verus!
