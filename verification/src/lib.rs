//! Paper search, citation formatting and history for research sources.
pub mod mcp;
pub mod models;
pub mod sources;
pub mod utils;
