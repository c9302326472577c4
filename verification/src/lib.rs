//! Argument parsing and configuration resolution for a sudo-like AWS
//! role-assumption wrapper: recognise the tool's own flags, capture the
//! trailing external command verbatim, and resolve the configuration-file
//! path and the credential cache directory through an explicit
//! override-then-fallback chain.

pub mod args;
pub mod cli;
pub mod text;
