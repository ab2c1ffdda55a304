//! The core of a small task-tracking service: routing, content negotiation,
//! input validation, the meaning of the store's statements, and the mapping
//! of every failure to one transport-level response.
//!
//! Nothing here performs I/O. A request is driven step by step: the library
//! says what to do next, the caller does it and reports what came of it.

pub mod content;
pub mod errors;
pub mod response;
pub mod routing;
pub mod service;
pub mod store;
pub mod tasks;
pub mod text;
pub mod validation;
