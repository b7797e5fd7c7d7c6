//! A compile-time signature-analysis and code-synthesis engine.
//!
//! Given a structured description of an annotated handler function, the
//! engine classifies each parameter by name into an extraction role,
//! validates the return shape, and synthesizes an adapter function that
//! extracts each argument from an incoming request, calls the handler,
//! and wraps its outcome in a uniform response envelope.

pub mod ast;
pub mod engine;
pub mod render;
pub mod reply;
pub mod laws;
