//! A tick scheduler with a live, remotely controllable graph of computation.
//!
//! A host audio callback advances a logical tick clock; the scheduler
//! dispatches every due event, and each event walks a graph of nodes that
//! read and write typed parameters and emit timed MIDI messages. A control
//! plane creates parameters and graph items and wires them together while
//! the scheduler runs.

pub mod acyclic;
pub mod binding;
pub mod clock;
pub mod error;
pub mod graph;
pub mod ident;
pub mod json;
pub mod laws;
pub mod midi;
pub mod osc;
pub mod oscquery;
pub mod param;
pub mod pqueue;
pub mod sched;
pub mod store;
pub mod tree;
pub mod value;
