//! The tools that the research server offers.
pub mod unified_tools;
