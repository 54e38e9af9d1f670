//! Interrupt-driven sampling for a timer-and-sensor logger: timer configuration,
//! the tick/sample handoff shared with the interrupt handler, the critical
//! section that guards it, and the report lines of the polling loop.

pub mod timer;
pub mod ticks;
pub mod critical;
pub mod report;
pub mod poll;
