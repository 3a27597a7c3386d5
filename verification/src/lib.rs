//! Call-scoped template rendering core.
//!
//! Each call decodes a request made of plain values, parses a JSON context,
//! configures a fresh minijinja environment (undefined-variable semantics,
//! template resolution, autoescape policy), renders either an inline template
//! or a named one, and returns a tagged outcome: rendered text or a
//! diagnostic. No state survives a call.

pub mod engine;
pub mod outcome;
pub mod policy;
pub mod render;
