//! A decoder from 8086 machine code (the MOV family) to assembly text.
pub mod cursor;
pub mod instruction;
pub mod listing;
pub mod render;
pub mod tables;
