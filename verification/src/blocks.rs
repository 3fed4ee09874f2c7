//! Blocks are the building blocks of a program.
//!
//! All block types implement the [`BasicBlock`] trait and have a `::new()`
//! method for easy initialization.  The closed set of block variants is
//! gathered in the [`Block`] enum, so any block can stand wherever a block is
//! expected — as the child of a composite block or as an element of a recipe.

mod basic_block;
mod boolean;
mod call;
mod critical;
mod function;
mod if_else;
mod loop_block;
mod number;
mod primitive;
mod static_str;

pub use basic_block::BasicBlock;
pub use basic_block::Block;
pub use boolean::Boolean;
pub use call::Call;
pub use critical::Critical;
pub use critical::lemma_critical_transparency;
pub use function::Function;
pub use if_else::IfElse;
pub use if_else::lemma_if_else_selection;
pub use loop_block::Loop;
pub use number::Number;
pub use number::hex_digit_char;
pub use number::hex_digits;
pub use number::is_finite_bits;
pub use number::is_nan_bits;
pub use number::lemma_finite_number_valid;
pub use number::lemma_nan_number_invalid;
pub use primitive::Primitive;
pub use static_str::Str;
pub use static_str::lemma_str_emptiness;
