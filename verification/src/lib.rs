//! Cooperative asynchronous core for embedded peripherals.
//!
//! Every blocking hardware operation is exposed as a pollable, single-step
//! operation: each poll either completes the step (`Ready`) or suspends the
//! calling task (`Pending`) after arranging for a wake-up.  The pieces:
//!
//! * [`poll`] — the poll outcome, the hardware error taxonomy, and the
//!   scheduler-supplied wake context.
//! * [`registry`] — the run-time pin/peripheral ownership table: each physical
//!   resource is claimed at most once, at platform-construction time.
//! * [`wake`] — the wake-source bridge: a single-slot notifier hand-off per
//!   watched resource between task context and interrupt context.
//! * [`gpio`] — the digital-output and digital-input capability traits, their
//!   zero-allocation asynchronous operation wrappers, and simulated pins.
//! * [`changes`] — the lazy, infinite sequence of pin-level transitions built
//!   on the wake-source bridge.
//! * [`i2c`], [`spi`], [`serial`], [`timer`] — the remaining capability
//!   categories: addressed bus transactions, full-duplex word exchange,
//!   byte I/O and tick-counter delays, each with its operation wrappers and
//!   a simulated device.
//!
//! Interrupt context is modeled explicitly: the hardware-side calls
//! (`fire`, `complete`, `deliver`, `advance`, `drive`) stand for what the
//! interrupt collaborator does, and may be interleaved with task-side polls
//! at every suspension point.  The contracts state what each side may
//! assume of the single wake-record slot they share; the notifier itself is
//! a plain wake token that the embedding maps back to its scheduler.

pub mod changes;
pub mod gpio;
pub mod i2c;
pub mod poll;
pub mod registry;
pub mod serial;
pub mod spi;
pub mod timer;
pub mod wake;
