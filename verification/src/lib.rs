//! Protocol engine for the System Management Controller (SMC) of Apple
//! hardware.
//!
//! The controller exposes named registers ("keys") through one privileged
//! call that takes a fixed-layout record and hands one back.  This crate holds
//! everything about that conversation that can be decided without touching
//! the hardware: the record itself, the call sequences that read, write and
//! enumerate keys, and the decoding of raw payloads into typed values.
//!
//! The crate performs no I/O.  Every operation is a small state machine: it
//! names the record to send next, takes the channel's reply, and either asks
//! for another call or finishes with a result.  The program that owns the
//! connection runs the calls.
#![allow(non_camel_case_types)]

pub mod command;
pub mod endian;
pub mod enumerator;
pub mod io;
pub mod structs;
pub mod text;
pub mod value;
