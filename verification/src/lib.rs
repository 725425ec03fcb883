//! Step-wise sequence production with an explicit, typed terminal value.
//!
//! A [`Sequential`] produces a sequence of items and then a single, typed
//! terminal value, one step at a time.  Each step consumes the current value
//! and returns an [`Update`]: either a continuation together with one item, or
//! the terminal.  Combinators concatenate sequences, map items or terminals,
//! and convert failure-shaped items into early termination.

mod accum;
mod andthen;
mod consume;
mod digits;
mod fnmut;
mod func;
mod mapitems;
mod mapterminal;
mod sequential;
mod source;
mod termonerr;
pub mod transduce;
mod update;

pub use crate::accum::{overflow_message, ramp_items, ramp_total, CountingSum, Overflow};
pub use crate::andthen::AndThen;
pub use crate::consume::{consumed, ctl_breaks, ctl_state, ctl_steps, lemma_ctl_steps_bounds, lemma_vec_collector_consumed, BoundedCollector, Consumer, VecCollector};
pub use crate::digits::{decimal_digits, digit_char, u64_to_string};
pub use crate::fnmut::{from_fn_mut, SequentialFnMut, StepFn};
pub use crate::func::{fn_precise, lemma_spec_apply, spec_apply};
pub use crate::mapitems::{lemma_map_items_compose, MapItems};
pub use crate::mapterminal::MapTerminal;
pub use crate::sequential::Sequential;
pub use crate::source::VecSequential;
pub use crate::termonerr::{early_terminal, lemma_early_terminal_first_err, lemma_early_terminal_no_err, ok_prefix, terminate_on_error, TerminateOnErr};
pub use crate::update::Update;
