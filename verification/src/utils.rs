//! Text, citation and history utilities.
pub mod text;
pub mod cite;
pub mod history;
