//! A connector dispatch engine for payment and payout processors.
//!
//! The engine drives one processor round trip at a time through a uniform
//! capability interface, keeps access tokens fresh, and turns processor error
//! payloads into one canonical shape. It performs no I/O itself: every
//! network or cache interaction is handed to the caller as an action and
//! comes back as an event.

pub mod access_token;
pub mod decimal;
pub mod errors;
pub mod json;
pub mod request;
pub mod services;
pub mod types;
pub mod wise;
