//! State-transition rules of an address-reputation and fraud-reporting network.
//!
//! Every handler is a function from records and a decoded instruction to
//! updated records or a typed failure. Reading and writing the records, the
//! clock and value transfers belong to the host program that calls in.

pub mod arith;
pub mod batch;
pub mod error;
pub mod gate;
pub mod history;
pub mod ledger;
pub mod scoring;
pub mod staking;
pub mod state;
pub mod text;
pub mod weight;
pub mod wire;
