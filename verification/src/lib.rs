//! Execution core of a minimal batch runtime: an application table and
//! loader, the saved execution state that crosses the privilege boundary,
//! and the trap dispatcher that decides what happens after each trap.

pub mod batch;
pub mod trap;
