//! Unique labels for blocks.
//!
//! A `LabelRegistry` issues process-wide unique identifiers: every issued
//! `Label` is the requested human-readable prefix joined with a strictly
//! increasing numeric discriminator, formatted as `__{prefix}_{id}`.  Because
//! the rendered discriminator consists of decimal digits only and stands after
//! the last underscore of the name, two labels with distinct discriminators
//! always render to distinct names, whatever their prefixes are
//! (`lemma_label_uniqueness`).

use vstd::prelude::*;

verus! {

/// The character standing for a single decimal digit.
pub open spec fn digit_char(d: nat) -> char {
    if d == 0 {
        '0'
    } else if d == 1 {
        '1'
    } else if d == 2 {
        '2'
    } else if d == 3 {
        '3'
    } else if d == 4 {
        '4'
    } else if d == 5 {
        '5'
    } else if d == 6 {
        '6'
    } else if d == 7 {
        '7'
    } else if d == 8 {
        '8'
    } else {
        '9'
    }
}

/// Whether `c` is a decimal digit character.
pub open spec fn is_digit(c: char) -> bool {
    c == '0' || c == '1' || c == '2' || c == '3' || c == '4' || c == '5' || c == '6' || c == '7'
        || c == '8' || c == '9'
}

/// The numeric value a digit character stands for.
pub open spec fn digit_val(c: char) -> nat {
    if c == '0' {
        0
    } else if c == '1' {
        1
    } else if c == '2' {
        2
    } else if c == '3' {
        3
    } else if c == '4' {
        4
    } else if c == '5' {
        5
    } else if c == '6' {
        6
    } else if c == '7' {
        7
    } else if c == '8' {
        8
    } else {
        9
    }
}

/// The base-ten rendering of `n`, most significant digit first.
pub open spec fn decimal(n: nat) -> Seq<char>
    decreases n,
{
    if n < 10 {
        seq![digit_char(n)]
    } else {
        decimal(n / 10) + seq![digit_char(n % 10)]
    }
}

/// The number a digit string stands for, read most significant digit first.
pub open spec fn value_of(s: Seq<char>) -> nat
    decreases s.len(),
{
    if s.len() == 0 {
        0
    } else {
        value_of(s.drop_last()) * 10 + digit_val(s.last())
    }
}

/// A decimal rendering is never empty and consists of digits only.
pub proof fn lemma_decimal_digits(n: nat)
    ensures
        decimal(n).len() >= 1,
        forall|i: int| 0 <= i < decimal(n).len() ==> is_digit(#[trigger] decimal(n)[i]),
    decreases n,
{
    if n >= 10 {
        lemma_decimal_digits(n / 10);
        assert forall|i: int| 0 <= i < decimal(n).len() implies is_digit(
            #[trigger] decimal(n)[i],
        ) by {
            if i < decimal(n / 10).len() {
                assert(decimal(n)[i] == decimal(n / 10)[i]);
            } else {
                assert(decimal(n)[i] == digit_char(n % 10));
            }
        }
    }
}

/// Reading back a decimal rendering recovers the rendered number.
pub proof fn lemma_decimal_value(n: nat)
    ensures
        value_of(decimal(n)) == n,
    decreases n,
{
    if n < 10 {
        assert(decimal(n).drop_last() =~= Seq::<char>::empty());
        assert(decimal(n).last() == digit_char(n));
        assert(value_of(Seq::<char>::empty()) == 0);
        assert(value_of(decimal(n)) == value_of(decimal(n).drop_last()) * 10 + digit_val(
            decimal(n).last(),
        ));
        assert(value_of(decimal(n)) == digit_val(digit_char(n)));
        assert(digit_val(digit_char(n)) == n);
    } else {
        lemma_decimal_value(n / 10);
        assert(decimal(n).drop_last() =~= decimal(n / 10));
        assert(decimal(n).last() == digit_char(n % 10));
        assert(digit_val(digit_char(n % 10)) == n % 10);
        assert(value_of(decimal(n)) == (n / 10) * 10 + n % 10);
    }
}

/// Base-ten rendering is injective.
pub proof fn lemma_decimal_injective(a: nat, b: nat)
    requires
        decimal(a) == decimal(b),
    ensures
        a == b,
{
    lemma_decimal_value(a);
    lemma_decimal_value(b);
}

/// The name a label renders to: `__{prefix}_{id}`.
pub open spec fn label_name(prefix: Seq<char>, id: nat) -> Seq<char> {
    seq!['_', '_'] + prefix + seq!['_'] + decimal(id)
}

/// Helper for `lemma_label_name_determines_id`, assuming without loss of
/// generality that the first discriminator renders no longer than the second.
proof fn lemma_label_name_suffix(p1: Seq<char>, id1: nat, p2: Seq<char>, id2: nat)
    requires
        label_name(p1, id1) == label_name(p2, id2),
        decimal(id1).len() <= decimal(id2).len(),
    ensures
        id1 == id2,
{
    let s = label_name(p1, id1);
    let d1 = decimal(id1);
    let d2 = decimal(id2);
    let h1 = seq!['_', '_'] + p1 + seq!['_'];
    let h2 = seq!['_', '_'] + p2 + seq!['_'];
    assert(s == h1 + d1);
    assert(label_name(p2, id2) == h2 + d2);
    lemma_decimal_digits(id1);
    lemma_decimal_digits(id2);
    assert(s.len() == h1.len() + d1.len());
    assert(s.len() == h2.len() + d2.len());
    if d1.len() < d2.len() {
        // The separator before the first discriminator falls inside the
        // second discriminator's digits, which is impossible.
        let k: int = s.len() - 1 - d1.len();
        assert(k == h1.len() - 1);
        assert(s[k] == h1[h1.len() - 1]);
        assert(h1[h1.len() - 1] == '_');
        assert(k >= h2.len());
        assert(s[k] == d2[k - h2.len()]);
        assert(is_digit(d2[k - h2.len()]));
        assert(false);
    } else {
        assert(h1.len() == h2.len());
        assert forall|j: int| 0 <= j < d1.len() implies d1[j] == d2[j] by {
            assert(d1[j] == s[h1.len() + j]);
            assert(d2[j] == s[h2.len() + j]);
        }
        assert(d1 =~= d2);
        lemma_decimal_injective(id1, id2);
    }
}

/// A rendered label name determines its numeric discriminator: the digits
/// after the last underscore recover it, whatever the prefixes are.
pub proof fn lemma_label_name_determines_id(p1: Seq<char>, id1: nat, p2: Seq<char>, id2: nat)
    requires
        label_name(p1, id1) == label_name(p2, id2),
    ensures
        id1 == id2,
{
    if decimal(id1).len() <= decimal(id2).len() {
        lemma_label_name_suffix(p1, id1, p2, id2);
    } else {
        lemma_label_name_suffix(p2, id2, p1, id1);
    }
}

/// The one piece of process-wide mutable state: the counter behind label
/// issuance.  Constructed once by the host, handed by exclusive reference to
/// every block constructor; exclusivity of `&mut` is what keeps issuance
/// race-free in concurrent hosts.
pub struct LabelRegistry {
    last_id: u128,
}

impl LabelRegistry {
    /// How many labels this registry has issued so far; also the
    /// discriminator handed to the most recent one.
    pub closed spec fn issued(&self) -> u128 {
        self.last_id
    }

    /// A fresh registry that has issued nothing.
    pub fn new() -> (r: LabelRegistry)
        ensures
            r.issued() == 0,
    {
        LabelRegistry { last_id: 0 }
    }

    /// The issuance counter, for callers that must check headroom before
    /// constructing blocks.
    pub fn issued_count(&self) -> (r: u128)
        ensures
            r == self.issued(),
    {
        self.last_id
    }

    /// Issue a label formed from `prefix` and the next counter value.
    ///
    /// The returned name is `__{prefix}_{id}` with `id` strictly greater than
    /// the discriminator of every label issued before, so no two issued
    /// labels ever render to the same name.
    pub fn issue(&mut self, prefix: &str) -> (r: Label)
        requires
            old(self).issued() < u128::MAX,
        ensures
            final(self).issued() == old(self).issued() + 1,
            r.wf(),
            r.prefix_spec() == prefix@,
            r.id_spec() == old(self).issued() + 1,
            r.name_spec() == label_name(prefix@, (old(self).issued() + 1) as nat),
    {
        let name = unique_identifier(self, prefix);
        Label { name, prefix: Ghost(prefix@), id: Ghost(self.last_id as nat) }
    }
}

/// A process-unique identifier owned by exactly one block: a human-readable
/// prefix plus a numeric discriminator, rendered as `__{prefix}_{id}`.
pub struct Label {
    name: String,
    prefix: Ghost<Seq<char>>,
    id: Ghost<nat>,
}

impl Label {
    /// The rendered name.
    pub closed spec fn name_spec(&self) -> Seq<char> {
        self.name@
    }

    /// The prefix the label was requested with.
    pub closed spec fn prefix_spec(&self) -> Seq<char> {
        self.prefix@
    }

    /// The numeric discriminator.
    pub closed spec fn id_spec(&self) -> nat {
        self.id@
    }

    /// The name is the rendering of prefix and discriminator.
    pub closed spec fn wf(&self) -> bool {
        self.name@ == label_name(self.prefix@, self.id@)
    }

    /// Return a new, unique label formed from the given prefix and the next
    /// value of the registry's counter.
    pub fn new(registry: &mut LabelRegistry, prefix: &str) -> (r: Label)
        requires
            old(registry).issued() < u128::MAX,
        ensures
            final(registry).issued() == old(registry).issued() + 1,
            r.wf(),
            r.prefix_spec() == prefix@,
            r.id_spec() == old(registry).issued() + 1,
            r.name_spec() == label_name(prefix@, (old(registry).issued() + 1) as nat),
    {
        registry.issue(prefix)
    }

    /// Return the label's actual name.
    pub fn name(&self) -> (r: &String)
        ensures
            r@ == self.name_spec(),
    {
        &self.name
    }
}

/// Create a new unique identifier from a given prefix: `__`, the prefix, `_`,
/// then the incremented counter in base ten.
fn unique_identifier(registry: &mut LabelRegistry, prefix: &str) -> (r: String)
    requires
        old(registry).issued() < u128::MAX,
    ensures
        final(registry).issued() == old(registry).issued() + 1,
        r@ == label_name(prefix@, (old(registry).issued() + 1) as nat),
{
    proof {
        reveal_strlit("__");
        reveal_strlit("_");
    }
    let mut unique = String::from_str("__");
    unique.append(prefix);
    unique.append("_");
    registry.last_id = registry.last_id + 1;
    let digits = decimal_string(registry.last_id);
    unique.append(digits.as_str());
    assert(unique@ =~= label_name(prefix@, registry.last_id as nat));
    unique
}

/// The base-ten digit characters of `n`, most significant first.
fn decimal_string(n: u128) -> (r: String)
    ensures
        r@ == decimal(n as nat),
    decreases n,
{
    if n < 10 {
        let r = String::from_str(digit_str(n));
        assert(r@ =~= decimal(n as nat));
        r
    } else {
        let mut r = decimal_string(n / 10);
        r.append(digit_str(n % 10));
        assert(r@ =~= decimal(n as nat));
        r
    }
}

/// The one-character string for a single decimal digit.
fn digit_str(d: u128) -> (r: &'static str)
    requires
        d < 10,
    ensures
        r@ == seq![digit_char(d as nat)],
{
    proof {
        reveal_strlit("0");
        reveal_strlit("1");
        reveal_strlit("2");
        reveal_strlit("3");
        reveal_strlit("4");
        reveal_strlit("5");
        reveal_strlit("6");
        reveal_strlit("7");
        reveal_strlit("8");
        reveal_strlit("9");
    }
    if d == 0 {
        "0"
    } else if d == 1 {
        "1"
    } else if d == 2 {
        "2"
    } else if d == 3 {
        "3"
    } else if d == 4 {
        "4"
    } else if d == 5 {
        "5"
    } else if d == 6 {
        "6"
    } else if d == 7 {
        "7"
    } else if d == 8 {
        "8"
    } else {
        "9"
    }
}

/// Label uniqueness: two well-formed labels with distinct discriminators
/// render to distinct names, whatever their prefixes are.  Labels issued in
/// sequence from one registry always carry distinct discriminators, so all
/// their names are pairwise distinct.
pub proof fn lemma_label_uniqueness(l1: Label, l2: Label)
    requires
        l1.wf(),
        l2.wf(),
        l1.id_spec() != l2.id_spec(),
    ensures
        l1.name_spec() != l2.name_spec(),
{
    if l1.name_spec() == l2.name_spec() {
        lemma_label_name_determines_id(
            l1.prefix_spec(),
            l1.id_spec(),
            l2.prefix_spec(),
            l2.id_spec(),
        );
    }
}

/// A well-formed label's name contains the prefix it was requested with,
/// starting right after the two leading underscores.
pub proof fn lemma_label_contains_prefix(l: Label)
    requires
        l.wf(),
    ensures
        l.name_spec().len() >= l.prefix_spec().len() + 4,
        l.name_spec().subrange(2, 2 + l.prefix_spec().len() as int) == l.prefix_spec(),
{
    lemma_decimal_digits(l.id_spec());
    let s = l.name_spec();
    let p = l.prefix_spec();
    assert forall|j: int| 0 <= j < p.len() implies s.subrange(2, 2 + p.len() as int)[j] == p[j] by {
        assert(s[2 + j] == p[j]);
    }
    assert(s.subrange(2, 2 + p.len() as int) =~= p);
}

} // verus!
