//! Engine of a time-series dataset server: a resource model of sequences and
//! topics, an exclusive-access lock manager, a query resolver that groups
//! topic selections by owning sequence, and a marshal that turns typed
//! results into the JSON envelopes streamed back to clients.

pub mod dispatch;
pub mod engine;
pub mod errors;
pub mod lock;
pub mod marshal;
pub mod num;
pub mod query;
pub mod resource;
pub mod tokens;
