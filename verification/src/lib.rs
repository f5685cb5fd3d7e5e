//! A small simulation of two independent subsystems: an identity-addressed
//! message relay between ground stations and satellites, and a file-like
//! resource whose byte contents are readable only while it is open.

pub mod file;
pub mod relay;
pub mod station;
