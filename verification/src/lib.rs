//! Token-gated access to a costly external generation job.
//!
//! The library holds the core rules of a small service: a per-account token
//! ledger, an identity validator, the state machine that decides whether a
//! generation attempt may invoke the external job, and the administrative
//! top-up path. The surrounding web server, the database backend and the job
//! process itself live outside the library and drive it through plain values.

pub mod decimal;
pub mod encode;
pub mod gatekeeper;
pub mod identity;
pub mod ledger;
pub mod responses;
pub mod store;
pub mod topup;

pub use identity::invalid_public_key;
pub use responses::{AddTokensRequest, AddTokensResponse, GenerateResponse};
