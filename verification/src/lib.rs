//! A border-checkpoint interrogation game, as a verified library.
//!
//! Each round the library builds a random persona (a name, two personality
//! quirks, an optional hidden secret, a display colour), renders the
//! instruction preamble that opens the round, and runs the session state
//! machine: free-form lines become user turns of the transcript, while the
//! reserved words accept, reject and reset end the round. The unverified
//! binary around it does the terminal and network work.

pub mod casing;
pub mod persona;
pub mod session;
pub mod rng;
pub mod tables;
