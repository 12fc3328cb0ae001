//! Decision core of a best-effort video encoder: it checks tool versions,
//! analyses probed inputs, writes the normalising filter program, builds the
//! quality-search and encoder command lines, and reads their outcomes.

pub mod error;
pub mod filter;
pub mod input;
pub mod pattern;
pub mod command;
pub mod version;
pub mod search;
pub mod encode;
pub mod job;
pub mod text;
