//! A verified client-side codec for the beanstalkd work-queue protocol.
//!
//! The library covers the protocol logic: encoding typed commands into their
//! exact wire bytes, decoding reply lines and length-prefixed bodies,
//! classifying reply statuses into success, expected failure, or protocol
//! anomaly, and the job-handle state machine.  Socket handling lives outside
//! the library and exchanges plain byte vectors and strings with it.

pub mod codec;
pub mod command;
pub mod config;
pub mod dispatch;
pub mod error;
pub mod job;
pub mod numbers;
pub mod response;
pub mod scan;
pub mod status;
