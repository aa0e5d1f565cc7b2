//! Command encodings for the SX126x family of LoRa / FSK radio transceivers.
//!
//! Each command of the radio is a value whose invoking parameters serialize to a
//! fixed-size byte array that is sent after the command's opcode.
pub mod byte_order;
pub mod commands;
pub mod regiface_items;
