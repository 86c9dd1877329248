//! The commands.

pub mod str_deunicode;
