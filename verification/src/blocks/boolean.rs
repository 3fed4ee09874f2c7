//! This block represents a boolean value.  It is either `false` or `true`:
//! a wrapper around the `bool` type.

use crate::blocks::basic_block::BasicBlock;
use crate::blocks::basic_block::debug_dump;
use crate::blocks::primitive::Primitive;
use crate::label::Label;
use crate::label::LabelRegistry;

use vstd::prelude::*;

verus! {

/// Wrapper block around a `bool`.
pub struct Boolean {
    /// Label of the boolean.
    pub label: Label,
    /// Actual value of the Boolean.
    pub value: bool,
}

impl Boolean {
    /// Allocate a new Boolean holding `value`, labelled with the `bool`
    /// prefix and the registry's next discriminator.
    pub fn new(registry: &mut LabelRegistry, value: bool) -> (r: Boolean)
        requires
            old(registry).issued() < u128::MAX,
        ensures
            final(registry).issued() == old(registry).issued() + 1,
            r.value == value,
            r.label.wf(),
            r.label.prefix_spec() == "bool"@,
            r.label.id_spec() == old(registry).issued() + 1,
    {
        Boolean { value, label: Label::new(registry, "bool") }
    }
}

impl BasicBlock for Boolean {
    open spec fn label_spec(&self) -> Seq<char> {
        self.label.name_spec()
    }

    open spec fn output_spec(&self) -> Seq<char> {
        if self.value {
            "true"@
        } else {
            "false"@
        }
    }

    open spec fn interpret_spec(&self) -> bool {
        self.value
    }

    open spec fn is_critical_spec(&self) -> bool {
        false
    }

    fn label(&self) -> (r: &String) {
        self.label.name()
    }

    fn debug(&self) {
        let out = self.output();
        debug_dump(self.label(), &out);
    }

    fn output(&self) -> (r: String) {
        if self.value {
            String::from_str("true")
        } else {
            String::from_str("false")
        }
    }

    fn interpret(&self) -> (r: bool) {
        self.value
    }

    fn is_critical(&self) -> (r: bool) {
        false
    }
}

impl Primitive for Boolean {
    type ValueType = bool;

    open spec fn value_spec(&self) -> bool {
        self.value
    }

    fn get(&self) -> (r: bool) {
        self.value
    }

    fn set(&mut self, value: bool)
        ensures
            final(self).label == old(self).label,
    {
        self.value = value;
    }
}

} // verus!
