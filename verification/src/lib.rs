//! Decision logic of a utility that keeps selected processes at configured
//! CPU, I/O and power priorities: parsing of configuration values, path
//! pattern normalisation, group selection, and the priority changes to apply.

pub mod text;
pub mod util;
pub mod process;
pub mod priority;
pub mod glob;
pub mod config;
pub mod monitor;
