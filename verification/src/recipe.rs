//! A `Recipe` is a collection of blocks.  Use it to build your program and
//! run passes on it.  You can also execute code from a `Recipe`.
//!
//! A recipe is modelled as a mapping from label name to block — keys unique,
//! insertion order irrelevant for lookup — plus an optional entry block.  At
//! most one entry can ever be set: later attempts fail by returning `false`
//! and leave the first entry in place.  `fry` interprets the entry block, or
//! fails when none is configured.

use crate::blocks::BasicBlock;
use crate::blocks::Block;

use vstd::prelude::*;

verus! {

/// Whether the blocks of `s` carry pairwise distinct label names.
pub open spec fn distinct_labels(s: Seq<Block>) -> bool {
    forall|i: int, j: int|
        0 <= i < j < s.len() ==> (#[trigger] s[i]).name_seq() != (#[trigger] s[j]).name_seq()
}

/// The label-keyed mapping that a sequence of blocks stands for: later
/// entries shadow earlier ones of the same label.
pub open spec fn map_of(s: Seq<Block>) -> Map<Seq<char>, Block>
    decreases s.len(),
{
    if s.len() == 0 {
        Map::empty()
    } else {
        map_of(s.drop_last()).insert(s.last().name_seq(), s.last())
    }
}

/// A name is a key of `map_of(s)` exactly when some block of `s` carries it.
proof fn lemma_map_of_contains(s: Seq<Block>, k: Seq<char>)
    ensures
        map_of(s).dom().contains(k) <==> exists|i: int|
            0 <= i < s.len() && (#[trigger] s[i]).name_seq() == k,
    decreases s.len(),
{
    if s.len() > 0 {
        let sub = s.drop_last();
        lemma_map_of_contains(sub, k);
        if s.last().name_seq() == k {
            assert(s[s.len() - 1].name_seq() == k);
        } else {
            if map_of(s).dom().contains(k) {
                let i = choose|i: int| 0 <= i < sub.len() && (#[trigger] sub[i]).name_seq() == k;
                assert(s[i].name_seq() == k);
            }
            if exists|i: int| 0 <= i < s.len() && (#[trigger] s[i]).name_seq() == k {
                let i = choose|i: int| 0 <= i < s.len() && (#[trigger] s[i]).name_seq() == k;
                assert(i < s.len() - 1);
                assert(sub[i].name_seq() == k);
            }
        }
    }
}

/// With pairwise distinct labels, the mapping has exactly one key per block.
proof fn lemma_map_of_len(s: Seq<Block>)
    requires
        distinct_labels(s),
    ensures
        map_of(s).dom().finite(),
        map_of(s).dom().len() == s.len(),
    decreases s.len(),
{
    if s.len() > 0 {
        let sub = s.drop_last();
        assert(forall|i: int| 0 <= i < sub.len() ==> sub[i] == s[i]);
        lemma_map_of_len(sub);
        lemma_map_of_contains(sub, s.last().name_seq());
        assert(!map_of(sub).dom().contains(s.last().name_seq())) by {
            if exists|i: int|
                0 <= i < sub.len() && (#[trigger] sub[i]).name_seq() == s.last().name_seq() {
                let i = choose|i: int|
                    0 <= i < sub.len() && (#[trigger] sub[i]).name_seq() == s.last().name_seq();
                assert(s[i].name_seq() == s[s.len() - 1].name_seq());
            }
        }
    }
}

/// Replacing the one block that carries a label is, on the mapping, an
/// insert under that label.
proof fn lemma_map_of_update(s: Seq<Block>, i: int, b: Block)
    requires
        0 <= i < s.len(),
        s[i].name_seq() == b.name_seq(),
        distinct_labels(s),
    ensures
        map_of(s.update(i, b)) == map_of(s).insert(b.name_seq(), b),
    decreases s.len(),
{
    let t = s.update(i, b);
    if i == s.len() - 1 {
        assert(t.drop_last() =~= s.drop_last());
        assert(t.last() == b);
        assert(map_of(t) =~= map_of(s).insert(b.name_seq(), b));
    } else {
        let sub = s.drop_last();
        assert(forall|m: int| 0 <= m < sub.len() ==> sub[m] == s[m]);
        assert(t.drop_last() =~= sub.update(i, b));
        assert(t.last() == s.last());
        lemma_map_of_update(sub, i, b);
        assert(s[i].name_seq() != s[s.len() - 1].name_seq());
        assert(map_of(t) =~= map_of(s).insert(b.name_seq(), b));
    }
}

/// Appending a block is, on the mapping, an insert under its label.
proof fn lemma_map_of_push(s: Seq<Block>, b: Block)
    ensures
        map_of(s.push(b)) == map_of(s).insert(b.name_seq(), b),
{
    assert(s.push(b).drop_last() =~= s);
    assert(s.push(b).last() == b);
}

/// BasicBlock collection: the program container, driving interpretation
/// from its entry block.
pub struct Recipe {
    /// The collected blocks, keyed by their label names: an invariant of
    /// every recipe is that the labels are pairwise distinct.
    pub blocks: Vec<Block>,
    /// Position of the entry block among `blocks`, once one is set.
    pub entry: Option<usize>,
}

impl View for Recipe {
    type V = Map<Seq<char>, Block>;

    open spec fn view(&self) -> Map<Seq<char>, Block> {
        map_of(self.blocks@)
    }
}

impl Recipe {
    /// Well-formedness: labels are pairwise distinct and the entry position,
    /// if set, points at a block.  Constructors establish it and every
    /// method preserves it.
    pub open spec fn wf(&self) -> bool {
        &&& distinct_labels(self.blocks@)
        &&& match self.entry {
            Some(i) => i < self.blocks@.len(),
            None => true,
        }
    }

    /// The entry block, if one is set.
    pub open spec fn entry_spec(&self) -> Option<Block> {
        match self.entry {
            Some(i) => Some(self.blocks@[i as int]),
            None => None,
        }
    }

    /// Init a new Recipe: no blocks, no entry.
    pub fn new() -> (r: Recipe)
        ensures
            r.wf(),
            r@ == Map::<Seq<char>, Block>::empty(),
            r.entry_spec() is None,
    {
        let r = Recipe { entry: None, blocks: Vec::new() };
        proof {
            assert(r@ =~= Map::<Seq<char>, Block>::empty());
        }
        r
    }

    /// Insert `block` under its label and report where it landed: either the
    /// position of the block it shadows, or the end of the collection.
    #[verifier::loop_isolation(false)]
    fn add_at(&mut self, block: Block) -> (idx: usize)
        requires
            old(self).wf(),
        ensures
            final(self).wf(),
            final(self)@ == old(self)@.insert(block.name_seq(), block),
            final(self).entry == old(self).entry,
            idx < final(self).blocks@.len(),
            final(self).blocks@[idx as int] == block,
            old(self)@.dom().contains(block.name_seq()) ==> idx < old(self).blocks@.len()
                && old(self).blocks@[idx as int].name_seq() == block.name_seq()
                && final(self).blocks@ == old(self).blocks@.update(idx as int, block),
            !old(self)@.dom().contains(block.name_seq()) ==> idx == old(self).blocks@.len()
                && final(self).blocks@ == old(self).blocks@.push(block),
    {
        proof {
            lemma_map_of_contains(self.blocks@, block.name_seq());
        }
        let n = self.blocks.len();
        let mut i: usize = 0;
        while i < n
            invariant
                i <= n,
                *self == *old(self),
                forall|j: int|
                    0 <= j < i ==> (#[trigger] self.blocks@[j]).name_seq() != block.name_seq(),
            decreases n - i,
        {
            let same = *self.blocks[i].name_ref() == *block.name_ref();
            if same {
                proof {
                    lemma_map_of_update(self.blocks@, i as int, block);
                }
                self.blocks.set(i, block);
                return i;
            }
            i = i + 1;
        }
        proof {
            lemma_map_of_push(self.blocks@, block);
        }
        self.blocks.push(block);
        n
    }

    /// Add a block to the recipe, under its label.  The first block you add
    /// is typically the entry point.
    ///
    /// Inserting under an already-present label replaces that block in the
    /// mapping — which, labels being unique by construction, never happens
    /// in practice.  A configured entry stays configured: it changes only if
    /// the inserted block shadows it.
    pub fn add(&mut self, block: Block)
        requires
            old(self).wf(),
        ensures
            final(self).wf(),
            final(self)@ == old(self)@.insert(block.name_seq(), block),
            final(self).entry == old(self).entry,
            old(self).entry_spec() is None ==> final(self).entry_spec() is None,
            old(self).entry_spec() matches Some(e) ==> final(self).entry_spec() == (if e.name_seq()
                == block.name_seq() {
                Some(block)
            } else {
                Some(e)
            }),
    {
        let ghost prior = *self;
        let idx = self.add_at(block);
        proof {
            if prior.entry_spec() is Some {
                let e = prior.entry_spec()->Some_0;
                let ei = prior.entry->Some_0 as int;
                if prior@.dom().contains(block.name_seq()) {
                    if ei == idx {
                        assert(final(self).entry_spec() == Some(block));
                    } else {
                        assert(e.name_seq() != block.name_seq());
                    }
                }
            }
        }
    }

    /// Set the entry point of the recipe, if none is set yet: the block is
    /// also added to the collection, and `true` is returned.  When an entry
    /// is already configured the call changes nothing and returns `false`.
    pub fn add_entry(&mut self, entry: Block) -> (r: bool)
        requires
            old(self).wf(),
        ensures
            final(self).wf(),
            old(self).entry_spec() is None ==> r == true && final(self)@ == old(self)@.insert(
                entry.name_seq(),
                entry,
            ) && final(self).entry_spec() == Some(entry),
            old(self).entry_spec() matches Some(_) ==> r == false && *final(self) == *old(self),
    {
        match self.entry {
            None => {
                let idx = self.add_at(entry);
                self.entry = Some(idx);
                true
            },
            Some(_) => false,
        }
    }

    /// Interpret and execute the recipe: the entry block's outcome, or a
    /// unit error when no entry point is configured.
    pub fn fry(&self) -> (r: Result<bool, ()>)
        requires
            self.wf(),
        ensures
            self.entry_spec() matches Some(b) ==> r == Ok::<bool, ()>(b.interpret_spec()),
            self.entry_spec() is None ==> r == Err::<bool, ()>(()),
    {
        match self.entry {
            Some(i) => Ok(self.blocks[i].interpret()),
            None => Err(()),
        }
    }

    /// Return the entry point of the Recipe, if one is set.
    pub fn entry(&self) -> (r: Option<&Block>)
        requires
            self.wf(),
        ensures
            self.entry_spec() matches Some(b) ==> r matches Some(rb) && *rb == b,
            self.entry_spec() is None ==> r is None,
    {
        match self.entry {
            Some(i) => Some(&self.blocks[i]),
            None => None,
        }
    }

    /// Return the number of blocks in the Recipe: one per label.
    pub fn len(&self) -> (r: usize)
        requires
            self.wf(),
        ensures
            r == self@.dom().len(),
    {
        proof {
            lemma_map_of_len(self.blocks@);
        }
        self.blocks.len()
    }
}

} // verus!
