//! A poll-driven model of suspendable computations and the cooperative
//! machinery that drives them: a sequence cursor, an iteration adapter that
//! emits one suspension point per element, two suspension primitives
//! (cooperative yield and timer sleep), an early-exit guard for empty
//! sequences, stack- and heap-resident representations of the same
//! computation, and a measurement harness that times repeated runs.
//!
//! Every run records its observable events — cursor constructions,
//! "has more" checks, polls, suspension points, allocations and
//! deallocations — in a [`trace::Trace`], and the contracts pin those
//! counts exactly, so that the guarded and unguarded paths are provably
//! equivalent in everything but construction and scheduling cost.

pub mod clock;
pub mod computation;
pub mod cursor;
pub mod executor;
pub mod harness;
pub mod runs;
pub mod suspension;
pub mod trace;
