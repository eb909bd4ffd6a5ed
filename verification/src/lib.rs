//! Identity lookups answered by configured commands.
//!
//! A lookup for a group, passwd or shadow record is turned into the command
//! line that the configuration names for it, and the text that the command
//! printed is turned into records. Reading the configuration file and running
//! the command are left to the caller; everything between them is here, with
//! its contract.

pub mod command;
pub mod config;
pub mod fields;
pub mod group;
pub mod json;
pub mod lookup;
pub mod number;
pub mod output;
pub mod passwd;
pub mod record;
pub mod resolve;
pub mod response;
pub mod shadow;
pub mod status;
pub mod template;
pub mod text;
