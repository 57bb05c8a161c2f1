//! Core of a command-line x86 disassembler: argument validation, driving the
//! external decoder, and mapping formatter tokens to colored text lines.
//!
//! The opcode tables, instruction decoding and mnemonic rendering themselves
//! come from the `iced-x86` crate and terminal coloring from the `colored`
//! crate; both are reached only through small trusted wrappers whose contracts
//! state what their sources show.

pub mod config;
pub mod decode;
pub mod numeral;
pub mod render;
pub mod runner;
pub mod text;
pub mod token;
