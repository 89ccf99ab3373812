//! Selecting and driving one SSH user-authentication strategy.
//!
//! The exchanges themselves (agent signing, public-key and password requests)
//! happen over a live session that the caller owns. This library decides, one
//! step at a time, which exchange to make and what the outcome of the whole
//! attempt is; the caller performs each requested action and reports back.
pub mod authentication;
pub mod error;

pub use authentication::{lists_method_of, Action, Attempt, AuthenticationType, Event, Phase};
pub use error::Error;
