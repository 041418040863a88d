//! A verified core for a small email relay service.
//!
//! The service accepts a "send email" request, forwards it as a form-encoded
//! message to a transactional-email provider over authenticated HTTP, and
//! reports a normalized result to the caller.  Everything that decides or
//! computes lives here with a contract: reading settings from the
//! environment's values, loading and trimming credentials, building the
//! authorization header, shaping the outbound payload and URL, and turning
//! the outcome of the outbound call into the caller-visible response.
//! Process wiring (the HTTP server, file and network I/O) stays outside.

pub mod auth;
pub mod config;
pub mod relay;
pub mod text;
