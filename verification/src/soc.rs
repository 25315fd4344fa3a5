//! Chip-specific ROM boot structures.

pub mod bl702;
