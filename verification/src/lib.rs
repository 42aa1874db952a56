//! Decisions, parsers and report builders of a tool that copies the files
//! changed between git revisions into a separate folder.

pub mod text;
pub mod cli;
pub mod types;
pub mod error;
pub mod git;
pub mod config;
pub mod glob;
pub mod diff;
pub mod copy;
pub mod safety;
pub mod summary;
pub mod tree;
pub mod excel;
pub mod flow;
