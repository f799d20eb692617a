//! Client-side core of a streaming market-data subscription: envelope
//! classification, the subscription session's decisions, and the controller
//! that starts and stops one session at a time.

pub mod json;
pub mod codec;
pub mod message;
pub mod request;
pub mod session;
pub mod trace;
pub mod controller;
pub mod screen;
