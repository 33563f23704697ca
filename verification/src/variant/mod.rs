//! The game abstraction shared by every chess variant.
//!
//! A variant keeps its own strong types and shows the rest of the server
//! type-erased payloads through the object-safe
//! [`GameSession`](session::GameSession) trait. Games are created by a
//! [`VariantFactory`](registry::VariantFactory) held in a
//! [`VariantRegistry`](registry::VariantRegistry).

pub mod color;
pub mod error;
pub mod json;
pub mod json_text;
pub mod payload;
pub mod registry;
pub mod session;
pub mod status;
