//! Transliteration of Unicode text into ASCII, and the `str deunicode`
//! command built on it.

pub mod commands;
pub mod mapping;
pub mod transliterate;
pub mod value;

pub use commands::str_deunicode::StrDeunicode;
