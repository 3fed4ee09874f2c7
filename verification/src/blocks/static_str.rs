//! Str blocks are a block wrapper around owned text.

use crate::blocks::basic_block::BasicBlock;
use crate::blocks::basic_block::debug_dump;
use crate::blocks::primitive::Primitive;
use crate::label::Label;
use crate::label::LabelRegistry;

use vstd::prelude::*;

verus! {

/// Wrapper block around an owned `String`.
pub struct Str {
    /// Label of the string.
    pub label: Label,
    /// Actual text of the Str.
    pub value: String,
}

impl Str {
    /// Allocate a new Str holding `value`, labelled with the `str` prefix
    /// and the registry's next discriminator.
    pub fn new(registry: &mut LabelRegistry, value: String) -> (r: Str)
        requires
            old(registry).issued() < u128::MAX,
        ensures
            final(registry).issued() == old(registry).issued() + 1,
            r.value == value,
            r.label.wf(),
            r.label.prefix_spec() == "str"@,
            r.label.id_spec() == old(registry).issued() + 1,
    {
        Str { label: Label::new(registry, "str"), value }
    }
}

impl BasicBlock for Str {
    open spec fn label_spec(&self) -> Seq<char> {
        self.label.name_spec()
    }

    /// A Str renders as its raw text.
    open spec fn output_spec(&self) -> Seq<char> {
        self.value@
    }

    /// A Str interprets to `true` iff its text is non-empty.
    open spec fn interpret_spec(&self) -> bool {
        self.value@.len() > 0
    }

    open spec fn is_critical_spec(&self) -> bool {
        false
    }

    fn label(&self) -> (r: &String) {
        self.label.name()
    }

    fn debug(&self) {
        let out = self.output();
        debug_dump(self.label(), &out);
    }

    fn output(&self) -> (r: String) {
        self.value.clone()
    }

    fn interpret(&self) -> (r: bool) {
        !self.value.as_str().is_empty()
    }

    fn is_critical(&self) -> (r: bool) {
        false
    }
}

impl Primitive for Str {
    type ValueType = String;

    open spec fn value_spec(&self) -> String {
        self.value
    }

    fn get(&self) -> (r: String) {
        self.value.clone()
    }

    fn set(&mut self, value: String)
        ensures
            final(self).label == old(self).label,
    {
        self.value = value;
    }
}

/// Str emptiness: a Str interprets to `true` exactly when its text is
/// non-empty, so the empty text — and nothing else — yields `false`.
pub proof fn lemma_str_emptiness(s: Str)
    ensures
        s.interpret_spec() <==> s.value@.len() != 0,
{
}

} // verus!
