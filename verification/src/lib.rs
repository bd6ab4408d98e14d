//! Trading-journal rules: user profiles, trade entries, strategy tags and
//! the aggregate statistics kept when trades are closed.

pub mod constants;
pub mod errors;
pub mod instructions;
pub mod key;
pub mod state;
pub mod text;
