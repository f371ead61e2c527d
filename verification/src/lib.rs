//! Backend support logic for a desktop application shell: strict,
//! normalized validation of a server URL, atomic persistence of that one
//! configuration value, and a health probe with ordered endpoint fallback.

pub mod config;
pub mod errors;
pub mod health;
pub mod jsondoc;
pub mod persist;
pub mod text;
pub mod urlnorm;
