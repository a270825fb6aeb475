//! Low-level building blocks for lock-free memory reclamation: a two-tier
//! cross-thread memory barrier, a run-once deferred action, and a tagged
//! pointer representation that packs auxiliary bits into aligned addresses.

pub mod barrier;
pub mod deferred;
pub mod shared;
pub mod tag;
