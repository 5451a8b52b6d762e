//! Code generation for GObject classes described by a small class language.
//!
//! The library holds the syntax tree of a program (`ast`), renders its pieces
//! as Rust tokens (`render`), and generates, for every class, the Rust code
//! that registers and implements it as a GObject type (`gen`).  The produced
//! text is built with `quote::Tokens`; `text` states what its operations do.

pub mod text;
pub mod ast;
pub mod render;
pub mod segments;
pub mod case;
pub mod gen;
pub mod objects;
