//! The capability every block satisfies, and the closed set of block
//! variants.
//!
//! `BasicBlock` is the uniform contract of all blocks: each one has a label,
//! a diagnostic dump, a textual rendering, a boolean interpretation result,
//! and a flag saying whether it must be kept whole by a parallel scheduler.
//! `Block` gathers the variants into one type, so composite blocks and
//! recipes can hold any block.
//!
//! The recursion over the block tree lives in inherent functions (`interp`,
//! `render`, `name_seq` and their executable counterparts); the trait
//! implementations forward to them.  Keeping the recursion out of the trait
//! implementations keeps their definitions free of cycles.

use std::io::Write;

use crate::blocks::boolean::Boolean;
use crate::blocks::call::Call;
use crate::blocks::critical::Critical;
use crate::blocks::function::Function;
use crate::blocks::if_else::IfElse;
use crate::blocks::loop_block::Loop;
use crate::blocks::number::Number;
use crate::blocks::static_str::Str;

use vstd::prelude::*;

verus! {

/// Trait that all blocks implement.  Allows for code generation and
/// inspection.
pub trait BasicBlock {
    /// The name of the block's unique label.
    spec fn label_spec(&self) -> Seq<char>;

    /// The block's rendering as IR source text.
    spec fn output_spec(&self) -> Seq<char>;

    /// The boolean outcome of executing the block.
    spec fn interpret_spec(&self) -> bool;

    /// Whether the block must be treated as a non-parallelizable unit.
    spec fn is_critical_spec(&self) -> bool;

    /// Return the unique label of the block.
    fn label(&self) -> (r: &String)
        ensures
            r@ == self.label_spec(),
    ;

    /// Emit a human-readable dump of the block for run-time inspection.
    fn debug(&self);

    /// Transform the block into its corresponding IR source text.
    ///
    /// Rendering is a pure function of the block's current state: it never
    /// mutates anything, and two calls on equal blocks render equal text.
    fn output(&self) -> (r: String)
        ensures
            r@ == self.output_spec(),
    ;

    /// Interpret and execute the block, producing its boolean outcome.
    fn interpret(&self) -> (r: bool)
        ensures
            r == self.interpret_spec(),
    ;

    /// Whether the block is critical, or whether it can safely be
    /// parallelized.  Advisory metadata only: no scheduler consumes it here.
    fn is_critical(&self) -> (r: bool)
        ensures
            r == self.is_critical_spec(),
    ;
}

/// The closed set of block variants.  Any block can stand wherever a block
/// reference is expected; composite blocks own their children through this
/// type.
pub enum Block {
    Boolean(Boolean),
    Number(Number),
    Str(Str),
    IfElse(Box<IfElse>),
    Loop(Box<Loop>),
    Function(Box<Function>),
    Call(Box<Call>),
    Critical(Box<Critical>),
}

impl Block {
    /// The boolean outcome of executing the block: dispatches on the
    /// variant.
    pub open spec fn interp(&self) -> bool
        decreases self,
    {
        match self {
            Block::Boolean(b) => b.interpret_spec(),
            Block::Number(b) => b.interpret_spec(),
            Block::Str(b) => b.interpret_spec(),
            Block::IfElse(b) => b.interp(),
            Block::Loop(b) => b.interp(),
            Block::Function(b) => b.interp(),
            Block::Call(b) => b.interp(),
            Block::Critical(b) => b.interp(),
        }
    }

    /// The rendering of the block as IR source text: dispatches on the
    /// variant.
    pub open spec fn render(&self) -> Seq<char>
        decreases self,
    {
        match self {
            Block::Boolean(b) => b.output_spec(),
            Block::Number(b) => b.output_spec(),
            Block::Str(b) => b.output_spec(),
            Block::IfElse(b) => b.render(),
            Block::Loop(b) => b.render(),
            Block::Function(b) => b.output_spec(),
            Block::Call(b) => b.output_spec(),
            Block::Critical(b) => b.render(),
        }
    }

    /// The name of the block's label: dispatches on the variant.
    pub open spec fn name_seq(&self) -> Seq<char>
        decreases self,
    {
        match self {
            Block::Boolean(b) => b.label_spec(),
            Block::Number(b) => b.label_spec(),
            Block::Str(b) => b.label_spec(),
            Block::IfElse(b) => b.label_spec(),
            Block::Loop(b) => b.label_spec(),
            Block::Function(b) => b.label_spec(),
            Block::Call(b) => b.label_spec(),
            Block::Critical(b) => b.name_seq(),
        }
    }

    pub(crate) fn run(&self) -> (r: bool)
        ensures
            r == self.interp(),
        decreases self,
    {
        match self {
            Block::Boolean(b) => b.interpret(),
            Block::Number(b) => b.interpret(),
            Block::Str(b) => b.interpret(),
            Block::IfElse(b) => b.run(),
            Block::Loop(b) => b.run(),
            Block::Function(b) => b.run(),
            Block::Call(b) => b.run(),
            Block::Critical(b) => b.run(),
        }
    }

    pub(crate) fn render_string(&self) -> (r: String)
        ensures
            r@ == self.render(),
        decreases self,
    {
        match self {
            Block::Boolean(b) => b.output(),
            Block::Number(b) => b.output(),
            Block::Str(b) => b.output(),
            Block::IfElse(b) => b.render_string(),
            Block::Loop(b) => b.render_string(),
            Block::Function(b) => b.output(),
            Block::Call(b) => b.output(),
            Block::Critical(b) => b.render_string(),
        }
    }

    pub(crate) fn name_ref(&self) -> (r: &String)
        ensures
            r@ == self.name_seq(),
        decreases self,
    {
        match self {
            Block::Boolean(b) => b.label(),
            Block::Number(b) => b.label(),
            Block::Str(b) => b.label(),
            Block::IfElse(b) => b.label(),
            Block::Loop(b) => b.label(),
            Block::Function(b) => b.label(),
            Block::Call(b) => b.label(),
            Block::Critical(b) => b.name_ref(),
        }
    }

    pub(crate) fn dump(&self)
        decreases self,
    {
        match self {
            Block::Boolean(b) => b.debug(),
            Block::Number(b) => b.debug(),
            Block::Str(b) => b.debug(),
            Block::IfElse(b) => b.debug(),
            Block::Loop(b) => b.debug(),
            Block::Function(b) => b.debug(),
            Block::Call(b) => b.debug(),
            Block::Critical(b) => b.dump(),
        }
    }
}

impl BasicBlock for Block {
    open spec fn label_spec(&self) -> Seq<char> {
        self.name_seq()
    }

    open spec fn output_spec(&self) -> Seq<char> {
        self.render()
    }

    open spec fn interpret_spec(&self) -> bool {
        self.interp()
    }

    open spec fn is_critical_spec(&self) -> bool {
        match self {
            Block::Critical(_) => true,
            _ => false,
        }
    }

    fn label(&self) -> (r: &String) {
        self.name_ref()
    }

    fn debug(&self) {
        self.dump()
    }

    fn output(&self) -> (r: String) {
        self.render_string()
    }

    fn interpret(&self) -> (r: bool) {
        self.run()
    }

    fn is_critical(&self) -> (r: bool) {
        match self {
            Block::Critical(_) => true,
            _ => false,
        }
    }
}

/// Emit one diagnostic line for a block: its label, then its rendered form.
pub(crate) fn debug_dump(label: &String, output: &String) {
    let mut line = String::from_str(label.as_str());
    line.append(" ");
    line.append(output.as_str());
    emit_diagnostic(line.as_str());
}

/// Relies on `std::io::Stderr::write_fmt` (reached through `writeln!`): a
/// best-effort write of one line to standard error, used for diagnostics
/// only.  Nothing is promised of its outcome.
#[verifier::external_body]
fn emit_diagnostic(line: &str) {
    let _ = writeln!(std::io::stderr(), "{}", line);
}

} // verus!
