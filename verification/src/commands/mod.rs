//! Radio commands, grouped by the part of the radio that they configure.
pub mod rf;
pub mod rf_laws;
pub mod rf_layout;
