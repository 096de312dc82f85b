//! A governor for hybrid processors: it keeps the efficiency cores busy, moves
//! load onto the performance cores once the efficiency cores saturate, and falls
//! back to the efficiency cores after a quiet period.
//!
//! The library holds the decisions: how a sampling cycle is classified, how the
//! governor moves between its two states, how the keep-alive pool is sized, and how
//! the processor topology record is read. Threads, timers and operating-system
//! calls stay with the caller, which reports what happened and carries out what
//! the library decides.

pub mod control;
pub mod event;
pub mod keep_alive;
pub mod sampler;
pub mod topology;
