//! A block-structured intermediate representation with a tree-walking
//! interpreter.
//!
//! Programs are assembled from blocks: leaf blocks wrapping a scalar
//! (`Boolean`, `Number`, `Str`) and composite blocks combining other blocks
//! (`IfElse`, `Loop`, `Function`, `Call`, `Critical`).  Every block carries a
//! process-unique `Label`, satisfies the `BasicBlock` capability, and can be
//! collected into a `Recipe`, which drives interpretation from a designated
//! entry block.

pub mod blocks;
pub mod label;
pub mod llvm;
pub mod recipe;
