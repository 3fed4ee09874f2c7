//! A Critical block is a block that shall not be multithreaded.  Critical
//! blocks wrap around any kind of block.
//!
//! The wrapper is transparent: label, diagnostics, rendering and
//! interpretation all forward verbatim to the wrapped child.  Only
//! `is_critical` differs — it always answers `true`, marking the wrapped
//! subtree as a unit a future scheduler must not split across concurrent
//! workers.

use crate::blocks::basic_block::BasicBlock;
use crate::blocks::basic_block::Block;
use crate::label::Label;
use crate::label::LabelRegistry;

use vstd::prelude::*;

verus! {

/// Transparent non-parallelizable marker around exactly one block.
pub struct Critical {
    /// The wrapper's own label.  Every block owns one, though a Critical
    /// block answers with its child's label to stay transparent.
    pub label: Label,
    /// The wrapped block.
    pub block: Box<Block>,
}

impl Critical {
    /// The wrapped block.
    pub open spec fn block_spec(&self) -> Block {
        *self.block
    }

    /// Transparency: the wrapper's outcome is the child's outcome.
    pub open spec fn interp(&self) -> bool
        decreases self,
    {
        self.block.interp()
    }

    /// Transparency: the wrapper renders as the child renders.
    pub open spec fn render(&self) -> Seq<char>
        decreases self,
    {
        self.block.render()
    }

    /// Transparency: the wrapper answers with the child's label name.
    pub open spec fn name_seq(&self) -> Seq<char>
        decreases self,
    {
        self.block.name_seq()
    }

    pub(crate) fn run(&self) -> (r: bool)
        ensures
            r == self.interp(),
        decreases self,
    {
        self.block.run()
    }

    pub(crate) fn render_string(&self) -> (r: String)
        ensures
            r@ == self.render(),
        decreases self,
    {
        self.block.render_string()
    }

    pub(crate) fn name_ref(&self) -> (r: &String)
        ensures
            r@ == self.name_seq(),
        decreases self,
    {
        self.block.name_ref()
    }

    pub(crate) fn dump(&self)
        decreases self,
    {
        self.block.dump()
    }

    /// Create a new Critical block and wrap it around another block.  When
    /// noticing a critical block in the syntax, create said block and then
    /// wrap it in a Critical block.
    pub fn new(registry: &mut LabelRegistry, block: Block) -> (r: Critical)
        requires
            old(registry).issued() < u128::MAX,
        ensures
            final(registry).issued() == old(registry).issued() + 1,
            r.block_spec() == block,
            r.label.wf(),
            r.label.prefix_spec() == "critical"@,
            r.label.id_spec() == old(registry).issued() + 1,
    {
        Critical { label: Label::new(registry, "critical"), block: Box::new(block) }
    }
}

impl BasicBlock for Critical {
    open spec fn label_spec(&self) -> Seq<char> {
        self.name_seq()
    }

    open spec fn output_spec(&self) -> Seq<char> {
        self.render()
    }

    open spec fn interpret_spec(&self) -> bool {
        self.interp()
    }

    open spec fn is_critical_spec(&self) -> bool {
        true
    }

    fn label(&self) -> (r: &String) {
        self.name_ref()
    }

    fn debug(&self) {
        self.dump()
    }

    fn output(&self) -> (r: String) {
        self.render_string()
    }

    fn interpret(&self) -> (r: bool) {
        self.run()
    }

    fn is_critical(&self) -> (r: bool) {
        true
    }
}

/// Critical transparency: wrapping a block leaves its label, outcome and
/// rendering unchanged, while the wrapper itself is always critical.  The
/// wrapped block is untouched: its own criticality stays whatever it was.
pub proof fn lemma_critical_transparency(c: Critical)
    ensures
        c.interpret_spec() == c.block_spec().interpret_spec(),
        c.output_spec() == c.block_spec().output_spec(),
        c.label_spec() == c.block_spec().label_spec(),
        c.is_critical_spec(),
{
}

} // verus!
