//! An IfElse block allows you to execute another block based on a given
//! condition.

use crate::blocks::basic_block::BasicBlock;
use crate::blocks::basic_block::Block;
use crate::blocks::basic_block::debug_dump;
use crate::label::Label;
use crate::label::LabelRegistry;

use vstd::prelude::*;

verus! {

/// A two-branch conditional.  The condition, then-block and else-block may
/// be blocks of any kind.
pub struct IfElse {
    /// Label of the IfElse block.
    pub label: Label,
    /// Block of the condition.  If it interprets to `true`, the `t_block`
    /// decides; else the `f_block` decides.
    pub cond_block: Box<Block>,
    /// True block: decides the outcome if `cond_block` interprets to `true`.
    pub t_block: Box<Block>,
    /// False block: decides the outcome if `cond_block` interprets to
    /// `false`.  Without one, a false condition makes the whole block
    /// interpret to `false`.
    pub f_block: Option<Box<Block>>,
}

impl IfElse {
    /// The condition block.
    pub open spec fn cond_spec(&self) -> Block {
        *self.cond_block
    }

    /// The then-block.
    pub open spec fn then_spec(&self) -> Block {
        *self.t_block
    }

    /// The else-block, if any.
    pub open spec fn else_spec(&self) -> Option<Block> {
        match self.f_block {
            Some(b) => Some(*b),
            None => None,
        }
    }

    /// Create a new IfElse block.  If there is no body to the `else`, pass
    /// `None` as argument.
    pub fn new(
        registry: &mut LabelRegistry,
        cond_block: Block,
        t_block: Block,
        f_block: Option<Block>,
    ) -> (r: IfElse)
        requires
            old(registry).issued() < u128::MAX,
        ensures
            final(registry).issued() == old(registry).issued() + 1,
            r.cond_spec() == cond_block,
            r.then_spec() == t_block,
            r.else_spec() == f_block,
            r.label.wf(),
            r.label.prefix_spec() == "if_else"@,
            r.label.id_spec() == old(registry).issued() + 1,
    {
        IfElse {
            label: Label::new(registry, "if_else"),
            cond_block: Box::new(cond_block),
            t_block: Box::new(t_block),
            f_block: match f_block {
                Some(b) => Some(Box::new(b)),
                None => None,
            },
        }
    }
}

impl IfElse {
    /// Selection: a true condition hands the outcome to the then-block; a
    /// false one hands it to the else-block if present, else the outcome is
    /// `false`.
    pub open spec fn interp(&self) -> bool
        decreases self,
    {
        if self.cond_block.interp() {
            self.t_block.interp()
        } else {
            match self.f_block {
                Some(f) => f.interp(),
                None => false,
            }
        }
    }

    /// Rendering: `IF `, the condition, ` {`, newline, the then-block,
    /// newline, `}`; then either an ` ELSE {` clause rendered the same way,
    /// or a bare newline when there is no else-block.
    pub open spec fn render(&self) -> Seq<char>
        decreases self,
    {
        let base = "IF "@ + self.cond_block.render() + " {\n"@ + self.t_block.render() + "\n}"@;
        match self.f_block {
            Some(f) => base + " ELSE {\n"@ + f.render() + "\n}\n"@,
            None => base + "\n"@,
        }
    }

    pub(crate) fn run(&self) -> (r: bool)
        ensures
            r == self.interp(),
        decreases self,
    {
        if self.cond_block.run() {
            self.t_block.run()
        } else {
            match &self.f_block {
                Some(f_b) => f_b.run(),
                None => false,
            }
        }
    }

    pub(crate) fn render_string(&self) -> (r: String)
        ensures
            r@ == self.render(),
        decreases self,
    {
        let mut s = String::from_str("IF ");
        let cond = self.cond_block.render_string();
        s.append(cond.as_str());
        s.append(" {\n");
        let then = self.t_block.render_string();
        s.append(then.as_str());
        s.append("\n}");
        match &self.f_block {
            Some(else_block) => {
                s.append(" ELSE {\n");
                let alt = else_block.render_string();
                s.append(alt.as_str());
                s.append("\n}\n");
            },
            None => {
                s.append("\n");
            },
        }
        assert(s@ =~= self.render());
        s
    }
}

impl BasicBlock for IfElse {
    open spec fn label_spec(&self) -> Seq<char> {
        self.label.name_spec()
    }

    open spec fn output_spec(&self) -> Seq<char> {
        self.render()
    }

    open spec fn interpret_spec(&self) -> bool {
        self.interp()
    }

    open spec fn is_critical_spec(&self) -> bool {
        false
    }

    fn label(&self) -> (r: &String) {
        self.label.name()
    }

    fn debug(&self) {
        let out = self.output();
        debug_dump(self.label(), &out);
    }

    fn output(&self) -> (r: String) {
        self.render_string()
    }

    fn interpret(&self) -> (r: bool) {
        self.run()
    }

    fn is_critical(&self) -> (r: bool) {
        false
    }
}

/// IfElse selection: a true condition makes the block's outcome the
/// then-block's outcome; a false condition hands the outcome to the
/// else-block when one is present, and yields `false` when none is.
pub proof fn lemma_if_else_selection(ie: IfElse)
    ensures
        ie.cond_spec().interpret_spec() ==> ie.interpret_spec() == ie.then_spec().interpret_spec(),
        ie.else_spec() matches Some(e) ==> (!ie.cond_spec().interpret_spec()
            ==> ie.interpret_spec() == e.interpret_spec()),
        (!ie.cond_spec().interpret_spec() && ie.else_spec() is None) ==> ie.interpret_spec()
            == false,
{
}

} // verus!
