//! Decoder for the compiled enemy-control bytecode ("ECL") of a legacy game
//! engine: header and offset-table resolution, the two record-sequence
//! dialects ("Main" scheduling and "Sub" behaviour), the opcode-to-argument
//! dispatch tables, and the embedded fixed-width legacy-text field.
//!
//! The decoder is a pure transform from an immutable byte buffer to a typed
//! `Ecl` script, or to a typed error; it never panics on malformed input.

pub mod bytes;
pub mod text;
pub mod ecl;
pub mod error;
pub mod main_instructions;
pub mod rank;
pub mod sub_instructions;
