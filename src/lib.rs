//! A replayable cursor over a forward-only, lazily fetched stream of remote
//! items, and a cancelable delay for debouncing input.
//!
//! Both are written as state machines: the code that awaits a fetch, a timer or
//! a channel hands each outcome to these types and acts on what they return.

mod cursor;
mod error;
mod preload;
mod query;
mod replay;
mod search;
mod timers;

pub use cursor::{begin_spec, complete_spec, pull_error, Cursor, CursorModel, Msg, Pulled, Step};
pub use error::{Action, Error};
pub use preload::{
    kind_name, media_kind, media_kind_spec, preload_hint, FileFormat, MediaKind, Preload,
};
pub use query::{fixed_filters, search_terms, search_terms_spec, unfavorited_by};
pub use replay::{
    lemma_advance_serves_in_order, lemma_monotonic_replay, lemma_no_skip_on_failure,
    lemma_peek_idempotent, lemma_request_keeps_history, lemma_rewind_then_resume, pull_spec,
    repeat, request, run, served, yielding, Answer, Session,
};
pub use search::{settle, Delivery};
pub use timers::{
    lemma_delay_resolves_once, lemma_detached_waits_for_elapse, lemma_resolved_stays,
    none_elapsed_before, observe_all, observe_spec, Cancelled, Delay, DelayEvent, DelayPhase,
};
