//! Core of a small Java virtual machine: stack frames, the object heap, class mirrors,
//! exception metadata, monitors, thread bookkeeping and the native methods behind `java.base`.
//!
//! The machine is written as a sequential state machine. Whatever needs the outside world (running
//! bytecode, blocking, clocks, files, dynamic libraries) is handed out as an action and comes back
//! as a value.

pub mod metadata;
pub mod runtime;
pub mod testkit;
