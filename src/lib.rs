//! Session-scoped engine for a path-addressed remote inventory: identity
//! types, the record model with its tolerant wire decoding, request
//! construction, status classification, and the move protocol that is
//! synthesized from delete and put primitives.

pub mod api;
pub mod cli;
pub mod fields;
pub mod ids;
pub mod json;
pub mod moving;
pub mod record;
pub mod session;
pub mod status;
pub mod text;
pub mod time;

