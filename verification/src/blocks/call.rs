//! A Call block is a block whose aim is to call a function.  It binds a
//! function and an optional ordered sequence of actual-argument blocks.
//!
//! The actual arguments are carried but not yet substituted for the
//! function's placeholders — binding is an open design point of this IR —
//! so interpretation delegates entirely to the bound function.

use crate::blocks::basic_block::BasicBlock;
use crate::blocks::basic_block::Block;
use crate::blocks::basic_block::debug_dump;
use crate::blocks::function::Function;
use crate::label::Label;
use crate::label::LabelRegistry;

use vstd::prelude::*;

verus! {

/// A call of a [`Function`], carrying optional actual arguments.
pub struct Call {
    /// Label of the call.
    pub label: Label,
    /// The function being called.
    pub function: Box<Function>,
    /// Actual-argument blocks, if any are bound.
    pub args: Option<Vec<Block>>,
}

impl Call {
    /// The bound function.
    pub open spec fn function_spec(&self) -> Function {
        *self.function
    }

    /// Delegation: the call's outcome is the bound function's outcome.
    pub open spec fn interp(&self) -> bool
        decreases self,
    {
        self.function.interp()
    }

    pub(crate) fn run(&self) -> (r: bool)
        ensures
            r == self.interp(),
        decreases self,
    {
        self.function.run()
    }

    /// Create a new call block binding `function` and, optionally, a
    /// sequence of actual arguments.
    pub fn new(registry: &mut LabelRegistry, function: Function, args: Option<Vec<Block>>) -> (r:
        Call)
        requires
            old(registry).issued() < u128::MAX,
        ensures
            final(registry).issued() == old(registry).issued() + 1,
            r.function_spec() == function,
            r.args == args,
            r.label.wf(),
            r.label.prefix_spec() == "call"@,
            r.label.id_spec() == old(registry).issued() + 1,
    {
        Call { label: Label::new(registry, "call"), function: Box::new(function), args }
    }
}

impl BasicBlock for Call {
    open spec fn label_spec(&self) -> Seq<char> {
        self.label.name_spec()
    }

    /// Rendering: `CALL ` followed by the bound function's label name.
    open spec fn output_spec(&self) -> Seq<char> {
        "CALL "@ + self.function.label.name_spec()
    }

    open spec fn interpret_spec(&self) -> bool {
        self.interp()
    }

    open spec fn is_critical_spec(&self) -> bool {
        false
    }

    fn label(&self) -> (r: &String) {
        self.label.name()
    }

    fn debug(&self) {
        let out = self.output();
        debug_dump(self.label(), &out);
    }

    fn output(&self) -> (r: String) {
        let mut s = String::from_str("CALL ");
        s.append(self.function.label.name().as_str());
        s
    }

    fn interpret(&self) -> (r: bool) {
        self.run()
    }

    fn is_critical(&self) -> (r: bool) {
        false
    }
}

} // verus!
