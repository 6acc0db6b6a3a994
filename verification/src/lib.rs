//! A greeting handler for a managed function host.
//!
//! The host decodes one payload into a [`Request`], calls
//! [`function_handler`], and encodes the [`Response`] it gets back. The
//! handler keeps no state between invocations.

pub mod greeting;
pub mod handler;
pub mod message;

pub use greeting::GREETING_PREFIX;
pub use handler::function_handler;
pub use message::{Request, Response};
