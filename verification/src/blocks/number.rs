//! This block represents a number.  Numbers are represented by the 64 bits
//! of an IEEE 754 double-precision value.
//!
//! The interpreter itself never computes with the number: it only checks the
//! value for numeric validity (a NaN is the sole intrinsically invalid
//! value) and renders it.  The block therefore stores the double's bit
//! pattern as a plain `u64` — hosts convert with `f64::to_bits` /
//! `f64::from_bits` — and both checks are defined over the bits: the IEEE
//! 754 exponent field is all ones on a NaN, together with a non-zero
//! fraction field.  Rendering is the bit-exact hexadecimal form of the
//! pattern, so a reader or downstream parser can reconstruct the double
//! exactly; decimal formatting of doubles is out of the interpreter's scope.

use crate::blocks::basic_block::BasicBlock;
use crate::blocks::basic_block::debug_dump;
use crate::blocks::primitive::Primitive;
use crate::label::Label;
use crate::label::LabelRegistry;

use vstd::prelude::*;

verus! {

/// Whether the 64 bits are an IEEE 754 double-precision NaN: exponent field
/// all ones, fraction field non-zero.
pub open spec fn is_nan_bits(bits: u64) -> bool {
    (bits >> 52) & 0x7FF == 0x7FF && bits & 0xF_FFFF_FFFF_FFFF != 0
}

/// Whether the 64 bits are a finite IEEE 754 double-precision value: the
/// exponent field is not all ones (which would make it a NaN or an
/// infinity).
pub open spec fn is_finite_bits(bits: u64) -> bool {
    (bits >> 52) & 0x7FF != 0x7FF
}

/// The character standing for a single hexadecimal digit.
pub open spec fn hex_digit_char(d: nat) -> char {
    if d < 10 {
        crate::label::digit_char(d)
    } else if d == 10 {
        'A'
    } else if d == 11 {
        'B'
    } else if d == 12 {
        'C'
    } else if d == 13 {
        'D'
    } else if d == 14 {
        'E'
    } else {
        'F'
    }
}

/// The hexadecimal rendering of `n` in exactly `width` digits, most
/// significant digit first.
pub open spec fn hex_digits(n: nat, width: nat) -> Seq<char>
    decreases width,
{
    if width == 0 {
        Seq::empty()
    } else {
        hex_digits(n / 16, (width - 1) as nat) + seq![hex_digit_char(n % 16)]
    }
}

/// Wrapper block around the bit pattern of a double.
pub struct Number {
    /// Label of the number.
    pub label: Label,
    /// The IEEE 754 double-precision bit pattern of the value.
    pub value: u64,
}

impl Number {
    /// Allocate a new Number holding the double whose bit pattern is
    /// `value`, labelled with the `number` prefix and the registry's next
    /// discriminator.
    pub fn new(registry: &mut LabelRegistry, value: u64) -> (r: Number)
        requires
            old(registry).issued() < u128::MAX,
        ensures
            final(registry).issued() == old(registry).issued() + 1,
            r.value == value,
            r.label.wf(),
            r.label.prefix_spec() == "number"@,
            r.label.id_spec() == old(registry).issued() + 1,
    {
        Number { label: Label::new(registry, "number"), value }
    }
}

impl BasicBlock for Number {
    open spec fn label_spec(&self) -> Seq<char> {
        self.label.name_spec()
    }

    open spec fn output_spec(&self) -> Seq<char> {
        "0x"@ + hex_digits(self.value as nat, 16)
    }

    /// Interpretation is a numeric-validity check, not a truthiness check:
    /// every value but a NaN is valid.
    open spec fn interpret_spec(&self) -> bool {
        !is_nan_bits(self.value)
    }

    open spec fn is_critical_spec(&self) -> bool {
        false
    }

    fn label(&self) -> (r: &String) {
        self.label.name()
    }

    fn debug(&self) {
        let out = self.output();
        debug_dump(self.label(), &out);
    }

    fn output(&self) -> (r: String) {
        proof {
            reveal_strlit("0x");
        }
        let mut r = String::from_str("0x");
        let digits = hex_digits_string(self.value, 16);
        r.append(digits.as_str());
        assert(r@ =~= self.output_spec());
        r
    }

    fn interpret(&self) -> (r: bool) {
        !((self.value >> 52) & 0x7FF == 0x7FF && self.value & 0xF_FFFF_FFFF_FFFF != 0)
    }

    fn is_critical(&self) -> (r: bool) {
        false
    }
}

impl Primitive for Number {
    type ValueType = u64;

    open spec fn value_spec(&self) -> u64 {
        self.value
    }

    fn get(&self) -> (r: u64) {
        self.value
    }

    fn set(&mut self, value: u64)
        ensures
            final(self).label == old(self).label,
    {
        self.value = value;
    }
}

/// The hexadecimal digit characters of `n`, exactly `width` of them, most
/// significant first.
fn hex_digits_string(n: u64, width: u64) -> (r: String)
    ensures
        r@ == hex_digits(n as nat, width as nat),
    decreases width,
{
    if width == 0 {
        String::new()
    } else {
        let mut r = hex_digits_string(n / 16, width - 1);
        r.append(hex_digit_str(n % 16));
        assert(r@ =~= hex_digits(n as nat, width as nat));
        r
    }
}

/// The one-character string for a single hexadecimal digit.
fn hex_digit_str(d: u64) -> (r: &'static str)
    requires
        d < 16,
    ensures
        r@ == seq![hex_digit_char(d as nat)],
{
    proof {
        reveal_strlit("0");
        reveal_strlit("1");
        reveal_strlit("2");
        reveal_strlit("3");
        reveal_strlit("4");
        reveal_strlit("5");
        reveal_strlit("6");
        reveal_strlit("7");
        reveal_strlit("8");
        reveal_strlit("9");
        reveal_strlit("A");
        reveal_strlit("B");
        reveal_strlit("C");
        reveal_strlit("D");
        reveal_strlit("E");
        reveal_strlit("F");
    }
    if d == 0 {
        "0"
    } else if d == 1 {
        "1"
    } else if d == 2 {
        "2"
    } else if d == 3 {
        "3"
    } else if d == 4 {
        "4"
    } else if d == 5 {
        "5"
    } else if d == 6 {
        "6"
    } else if d == 7 {
        "7"
    } else if d == 8 {
        "8"
    } else if d == 9 {
        "9"
    } else if d == 10 {
        "A"
    } else if d == 11 {
        "B"
    } else if d == 12 {
        "C"
    } else if d == 13 {
        "D"
    } else if d == 14 {
        "E"
    } else {
        "F"
    }
}

/// Number validity, the valid side: a finite double always interprets to
/// `true`; only a NaN is rejected.
pub proof fn lemma_finite_number_valid(n: Number)
    requires
        is_finite_bits(n.value),
    ensures
        n.interpret_spec(),
{
}

/// Number validity, the invalid side: a NaN — and nothing else — interprets
/// to `false`.
pub proof fn lemma_nan_number_invalid(n: Number)
    ensures
        n.interpret_spec() <==> !is_nan_bits(n.value),
{
}

} // verus!
