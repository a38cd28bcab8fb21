use vstd::prelude::*;

mod engine;
mod flags;
mod transform;

pub use crate::engine::{
    lemma_clean_end_delivers_everything, lemma_delivery_follows_transform,
    lemma_identity_is_passthrough, lemma_mode_restored_once, lemma_muted_input, Action, Forwarder,
    ForwarderView, ReadOutcome, Readiness, CHUNK_CAPACITY,
};
pub use crate::flags::add_flags;
pub use crate::transform::{
    drops_all, event_for, forwarded_bytes, forwarded_part, lemma_dropping_forwards_nothing,
    lemma_pass_through_forwards_what_was_read, passes_through, read_bytes,
    ChunkRecord, Direction, Event, EventHandler,
};
