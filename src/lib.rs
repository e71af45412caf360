//! A small configurable-width virtual CPU: width-tagged word values, a
//! register file, bounds-checked memory, an operand classifier for a
//! line-oriented assembly language, and the fetch/decode/execute cycle.
pub mod error;
pub mod word;
pub mod cell;
pub mod memory;
pub mod text;
pub mod registers;
pub mod operand;
pub mod opcode;
pub mod display;
pub mod program;
pub mod instructions;
pub mod machine;
pub mod bits;
pub mod render;
