//! A verified payment connector for PayMe, with the authorize flow that drives
//! a connector and the blocklist lookup store beside it.
//!
//! The crate performs no I/O. Where the connector needs a codec (a JSON or form
//! decoder, an amount converter, a request transformer) it takes it as a
//! function argument; where a flow needs the network or a database it hands out
//! an action and is given the reply as an event.

pub mod authorize_flow;
pub mod authorize_laws;
pub mod blocklist_lookup;
pub mod codec;
pub mod errors;
pub mod mandates;
pub mod payme;
pub mod payme_laws;
pub mod text;
pub mod types;
pub mod webhook_laws;
pub mod webhooks;
