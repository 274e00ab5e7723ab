//! Generator of reference-counting procedures for a mid-level IR.
//!
//! For every heap layout the generator builds the procedures that increment,
//! decrement, release without descending, and reset values of that layout, and
//! it rewrites the reference-count markers of a program into calls of them.
//! Every function of the library carries a contract proved by Verus.
//!
//! - `symbol`, `low_level`, `layout`, `interner`, `ir`: what the generator
//!   works on.
//! - `helper`, `gen_basic`, `gen_data`, `gen_union`, `refcount`, `procs`: the
//!   generator. The contract of each function is the code it emits.
//! - `machine`: what emitted code does when it runs.
//! - `laws`, `flow`, `order`, `chain`, `elements`: what holds of emitted code.
//! - `function_builder`, `opcodes`, `bump_vec`: the writer of WebAssembly
//!   function bodies.
//! - `convert`: diagnostics for an editor.

pub mod symbol;
pub mod low_level;
pub mod layout;
pub mod interner;
pub mod ir;
pub mod helper;
pub mod gen_basic;
pub mod gen_data;
pub mod gen_union;
pub mod refcount;
pub mod procs;
pub mod machine;
pub mod laws;
pub mod flow;
pub mod order;
pub mod chain;
pub mod elements;
pub mod bump_vec;
pub mod opcodes;
pub mod function_builder;
pub mod convert;
