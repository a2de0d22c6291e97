//! Transaction lifecycle engine of a wallet: the negotiation state machine, the
//! transaction ledger, the confirmation monitor, the decisions of the service
//! event loop, the base-node query model, the mempool state response, and the
//! chain scanner's settings.
pub mod ledger;
pub mod lifecycle;
pub mod mempool;
pub mod monitor;
pub mod protocol;
pub mod query;
pub mod record;
pub mod scanner;
pub mod service;
