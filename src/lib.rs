//! Small, fully specified building blocks of everyday Rust: arithmetic
//! helpers, records, tagged unions, and control-flow patterns, each with a
//! contract that pins its result down.
pub mod decimal;
pub mod flow;
pub mod functions;
pub mod records;
pub mod variants;
