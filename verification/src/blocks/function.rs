//! A Function block is a block containing other blocks: an ordered sequence
//! of statements to execute one by one, optional argument placeholders, and
//! an optional return-value block.

use crate::blocks::basic_block::BasicBlock;
use crate::blocks::basic_block::Block;
use crate::blocks::basic_block::debug_dump;
use crate::label::Label;
use crate::label::LabelRegistry;

use vstd::prelude::*;

verus! {

/// A function: argument placeholders, statements, and an optional return
/// value.
pub struct Function {
    /// Label of the function.
    pub label: Label,
    /// Argument placeholder blocks, if the function declares any.
    pub args: Option<Vec<Block>>,
    /// Statement blocks, executed in declaration order.
    pub stmts: Vec<Block>,
    /// The block whose outcome the function returns, if any.
    pub retval: Option<Box<Block>>,
}

impl Function {
    /// The return-value block, if any.
    pub open spec fn retval_spec(&self) -> Option<Block> {
        match self.retval {
            Some(b) => Some(*b),
            None => None,
        }
    }

    /// The outcome of calling the function: the return-value block's
    /// outcome if one is designated, else `false`.
    pub open spec fn interp(&self) -> bool
        decreases self,
    {
        match self.retval {
            Some(val) => val.interp(),
            None => false,
        }
    }

    #[verifier::loop_isolation(false)]
    pub(crate) fn run(&self) -> (r: bool)
        ensures
            r == self.interp(),
        decreases self,
    {
        let mut i: usize = 0;
        while i < self.stmts.len()
            invariant
                i <= self.stmts.len(),
            decreases self.stmts.len() - i,
        {
            proof {
                assert(decreases_to!(self => self.stmts@[i as int]));
            }
            let _ = self.stmts[i].run();
            i = i + 1;
        }
        match &self.retval {
            Some(val) => val.run(),
            None => false,
        }
    }

    /// Create a new function block from a vector of statement blocks, with
    /// no return value yet.
    pub fn new(registry: &mut LabelRegistry, args: Option<Vec<Block>>, stmts: Vec<Block>) -> (r:
        Function)
        requires
            old(registry).issued() < u128::MAX,
        ensures
            final(registry).issued() == old(registry).issued() + 1,
            r.args == args,
            r.stmts == stmts,
            r.retval_spec() is None,
            r.label.wf(),
            r.label.prefix_spec() == "function"@,
            r.label.id_spec() == old(registry).issued() + 1,
    {
        Function { label: Label::new(registry, "function"), args, stmts, retval: None }
    }

    /// Designate the block whose outcome the function returns.
    pub fn set_retval(&mut self, retval: Block)
        ensures
            final(self).retval_spec() == Some(retval),
            final(self).label == old(self).label,
            final(self).args == old(self).args,
            final(self).stmts == old(self).stmts,
    {
        self.retval = Some(Box::new(retval));
    }

    /// Return the argument placeholder at position `idx`, or `None` if the
    /// function declares no arguments at all.
    pub fn get_arg(&self, idx: usize) -> (r: Option<&Block>)
        requires
            self.args matches Some(a) ==> idx < a.len(),
        ensures
            match self.args {
                Some(a) => r matches Some(b) && *b == a[idx as int],
                None => r is None,
            },
    {
        match &self.args {
            Some(args) => Some(&args[idx]),
            None => None,
        }
    }
}

impl BasicBlock for Function {
    open spec fn label_spec(&self) -> Seq<char> {
        self.label.name_spec()
    }

    /// Rendering: `FUNCTION ` followed by the function's label name.
    open spec fn output_spec(&self) -> Seq<char> {
        "FUNCTION "@ + self.label.name_spec()
    }

    /// Every statement is executed in order, purely for effect and without
    /// short-circuiting; the outcome is the return-value block's outcome if
    /// one is designated, else `false`.
    open spec fn interpret_spec(&self) -> bool {
        self.interp()
    }

    open spec fn is_critical_spec(&self) -> bool {
        false
    }

    fn label(&self) -> (r: &String) {
        self.label.name()
    }

    fn debug(&self) {
        let out = self.output();
        debug_dump(self.label(), &out);
    }

    fn output(&self) -> (r: String) {
        let mut s = String::from_str("FUNCTION ");
        s.append(self.label.name().as_str());
        s
    }

    fn interpret(&self) -> (r: bool) {
        self.run()
    }

    fn is_critical(&self) -> (r: bool) {
        false
    }
}

} // verus!
