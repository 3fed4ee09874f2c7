//! The Loop block is used to represent ranged and infinite loops.
//!
//! A loop holds optional lower-bound, upper-bound and body blocks: both
//! bounds present model a ranged loop, absent bounds an unbounded one.  The
//! execution semantics of iteration are an open design point of this IR —
//! blocks interpret to a bare boolean, so a bound block cannot yet supply an
//! iteration count — and interpretation therefore reports the loop as
//! trivially successful without iterating, as a documented design choice.

use crate::blocks::basic_block::BasicBlock;
use crate::blocks::basic_block::Block;
use crate::blocks::basic_block::debug_dump;
use crate::label::Label;
use crate::label::LabelRegistry;

use vstd::prelude::*;

verus! {

/// A loop over an optional body, with optional bound blocks.
pub struct Loop {
    /// Label of the loop.
    pub label: Label,
    /// Lower bound of a ranged loop, if any.
    pub lo_bound: Option<Box<Block>>,
    /// Upper bound of a ranged loop, if any.
    pub hi_bound: Option<Box<Block>>,
    /// The block iterated over, if any.
    pub body: Option<Box<Block>>,
}

impl Loop {
    /// The lower-bound block, if any.
    pub open spec fn lo_spec(&self) -> Option<Block> {
        match self.lo_bound {
            Some(b) => Some(*b),
            None => None,
        }
    }

    /// The upper-bound block, if any.
    pub open spec fn hi_spec(&self) -> Option<Block> {
        match self.hi_bound {
            Some(b) => Some(*b),
            None => None,
        }
    }

    /// The body block, if any.
    pub open spec fn body_spec(&self) -> Option<Block> {
        match self.body {
            Some(b) => Some(*b),
            None => None,
        }
    }

    /// Create a new Loop block.  Pass `None` as `lo_bound` or `hi_bound` if
    /// the loop is an infinite one.
    pub fn new(
        registry: &mut LabelRegistry,
        lo_bound: Option<Block>,
        hi_bound: Option<Block>,
        body: Option<Block>,
    ) -> (r: Loop)
        requires
            old(registry).issued() < u128::MAX,
        ensures
            final(registry).issued() == old(registry).issued() + 1,
            r.lo_spec() == lo_bound,
            r.hi_spec() == hi_bound,
            r.body_spec() == body,
            r.label.wf(),
            r.label.prefix_spec() == "loop"@,
            r.label.id_spec() == old(registry).issued() + 1,
    {
        Loop {
            label: Label::new(registry, "loop"),
            lo_bound: match lo_bound {
                Some(b) => Some(Box::new(b)),
                None => None,
            },
            hi_bound: match hi_bound {
                Some(b) => Some(Box::new(b)),
                None => None,
            },
            body: match body {
                Some(b) => Some(Box::new(b)),
                None => None,
            },
        }
    }
}

impl Loop {
    /// Iteration semantics are an open design point; a loop block reports
    /// successful interpretation without iterating.
    pub open spec fn interp(&self) -> bool {
        true
    }

    /// Rendering: `LOOP`, a ` FROM ` clause for a present lower bound, a
    /// ` TO ` clause for a present upper bound, then the body in braces on
    /// its own lines — or a bare newline when there is no body.
    pub open spec fn render(&self) -> Seq<char>
        decreases self,
    {
        "LOOP"@ + (match self.lo_bound {
            Some(l) => " FROM "@ + l.render(),
            None => Seq::empty(),
        }) + (match self.hi_bound {
            Some(h) => " TO "@ + h.render(),
            None => Seq::empty(),
        }) + (match self.body {
            Some(b) => " {\n"@ + b.render() + "\n}\n"@,
            None => "\n"@,
        })
    }

    pub(crate) fn run(&self) -> (r: bool)
        ensures
            r == self.interp(),
    {
        true
    }

    pub(crate) fn render_string(&self) -> (r: String)
        ensures
            r@ == self.render(),
        decreases self,
    {
        let mut s = String::from_str("LOOP");
        match &self.lo_bound {
            Some(l) => {
                s.append(" FROM ");
                let lo = l.render_string();
                s.append(lo.as_str());
            },
            None => {},
        }
        match &self.hi_bound {
            Some(h) => {
                s.append(" TO ");
                let hi = h.render_string();
                s.append(hi.as_str());
            },
            None => {},
        }
        match &self.body {
            Some(b) => {
                s.append(" {\n");
                let body = b.render_string();
                s.append(body.as_str());
                s.append("\n}\n");
            },
            None => {
                s.append("\n");
            },
        }
        assert(s@ =~= self.render());
        s
    }
}

impl BasicBlock for Loop {
    open spec fn label_spec(&self) -> Seq<char> {
        self.label.name_spec()
    }

    open spec fn output_spec(&self) -> Seq<char> {
        self.render()
    }

    open spec fn interpret_spec(&self) -> bool {
        self.interp()
    }

    open spec fn is_critical_spec(&self) -> bool {
        false
    }

    fn label(&self) -> (r: &String) {
        self.label.name()
    }

    fn debug(&self) {
        let out = self.output();
        debug_dump(self.label(), &out);
    }

    fn output(&self) -> (r: String) {
        self.render_string()
    }

    fn interpret(&self) -> (r: bool) {
        true
    }

    fn is_critical(&self) -> (r: bool) {
        false
    }
}

} // verus!
