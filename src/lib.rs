//! Snowflake-style 64-bit identifier generation, with the bit layout, the
//! clock/sequence state machine and its laws stated and proved.

pub mod config;
pub mod generator;
pub mod laws;
pub mod layout;
pub mod time;
