//! Register access and cooperative scheduling for the SAM3X8E.
//!
//! The library computes and decides; it touches no memory, reads no clock
//! and runs no task. What has to happen on the peripheral bus it hands out
//! as loads and stores, and what was loaded it takes as arguments.
//!
//! - `field`: the encoding of values in bit fields of a 32-bit word.
//! - `bus`: the loads and stores.
//! - `areas`: registers whose fields are named by enumerations and carry
//!   plain numbers.
//! - `sam3x8e`: registers whose fields carry typed values, laid out in
//!   blocks, with the real-time timer and the power management controller
//!   on top.
//! - `schedule`: the queue of deferred tasks, ordered by wake tick.

pub mod areas;
pub mod bus;
pub mod field;
pub mod sam3x8e;
pub mod schedule;
