//! The capability a block may implement to translate itself to target code.
//!
//! The core defines only the capability and its error kind; no block in the
//! core implements it yet.  It is the hook through which a native-code
//! backend plugs into the block tree.

use vstd::prelude::*;

verus! {

/// Failure of an attempted translation to target code.  The error is a unit
/// kind: translation either succeeds or fails without further diagnostic
/// payload.
pub struct LlvmTranslateError;

/// Capability of translating a block to target code.
pub trait LlvmTranslate {
    /// Attempt to translate this block, failing with a `LlvmTranslateError`.
    fn translate(&self) -> Result<(), LlvmTranslateError>;
}

} // verus!
