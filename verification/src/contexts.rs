//! Transactional wrappers around the persisted pool fields: a mutable
//! snapshot that is written back by an explicit commit, and a read-only
//! snapshot for queries.

pub mod base;
pub mod readonly;
