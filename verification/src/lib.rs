//! Decision logic of a code-judging pipeline: the submission gateway's
//! replies, the job messages that travel through the broker, and the
//! execution worker's state machine.
//!
//! Everything that touches a socket lives with the caller; this crate says
//! what to do next and what to answer.

pub mod codec;
pub mod config;
pub mod gateway;
pub mod model;
pub mod trace;
pub mod worker;
