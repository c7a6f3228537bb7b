//! Resumable batch extraction of imaging metadata: the record model, the
//! decisions of traversal, scheduling, retry and persistence, and the laws
//! that make resuming safe.

pub mod adapter;
pub mod dates;
pub mod legacy;
pub mod native;
pub mod pipeline;
pub mod record;
pub mod resume;
pub mod retrieval;
pub mod retry;
pub mod scheduler;
pub mod rotation;
pub mod sink;
pub mod text;
pub mod tool;
pub mod traversal;
