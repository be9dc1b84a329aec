//! A growable array whose length and capacity live in a header in front of the
//! elements, with its operations specified over a model of that block.

pub mod block;
pub mod laws;
pub mod minivec;
pub mod raw;

pub use block::{dedup_runs, grown_capacity, Block};
pub use laws::{lemma_dedup_runs_collapsed, lemma_leak_write_rebuild, lemma_push_all};
pub use minivec::{answers_as, Header, MiniVec};
pub use raw::Handle;
