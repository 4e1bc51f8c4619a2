//! The responses of a small HTTP responder that serves a made-up image:
//! a fixed payload of 512 bytes on `GET /image`, and its size alone on
//! `HEAD /image`.
//!
//! Everything here is pure: a response is described by plain values, and the
//! program around this library hands them to the HTTP layer.

pub mod decimal;
pub mod handlers;
pub mod payload;
pub mod response;
