//! Trait that all primitive blocks implement: leaf blocks wrapping a single
//! scalar value, such as booleans, numbers and strings.

use crate::blocks::basic_block::BasicBlock;

use vstd::prelude::*;

verus! {

/// A leaf block exposing `get`/`set` over its scalar, in addition to the
/// [`BasicBlock`] contract.
pub trait Primitive: BasicBlock {
    /// Type of the value contained in the primitive.
    type ValueType;

    /// The value currently contained in the block.
    spec fn value_spec(&self) -> Self::ValueType;

    /// Return the value contained in the block.
    fn get(&self) -> (r: Self::ValueType)
        ensures
            r == self.value_spec(),
    ;

    /// Set the value contained in the block.  The block's label is
    /// untouched: a primitive keeps its identity when its value changes.
    fn set(&mut self, value: Self::ValueType)
        ensures
            final(self).value_spec() == value,
            final(self).label_spec() == old(self).label_spec(),
    ;
}

} // verus!
