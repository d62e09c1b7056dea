//! A small register machine: a byte stream is decoded into instructions that
//! load and combine typed numeric values held in a bank of 32 registers.
//!
//! - [`instructions`]: the values a register can hold, and the instructions.
//! - [`encoding`]: how instructions and values are laid out in a program.
//! - [`arith`]: checked integer arithmetic on register values.
//! - [`vm`]: the engine, with its single step and its run to completion.
//! - [`anyobject`]: a container for one value of a closed set of types.
//!
//! Floating values are kept as IEEE-754 bit patterns. The engine decodes,
//! stores and moves them, and leaves arithmetic on them to its caller.

pub mod anyobject;
pub mod arith;
pub mod encoding;
pub mod instructions;
pub mod vm;
