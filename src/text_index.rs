use vstd::prelude::*;

use crate::element::{check_column, ElementType, IndexError, KeyType};
use crate::packed::PackedLists;
use crate::postings::{
    lemma_postings_complete, lemma_postings_exact, lemma_postings_increasing, lemma_postings_push,
    ordinals_fit, postings,
};
use crate::slots::{text_slot_assign, text_slot_of, text_slots, text_slots_with_capacity, TextSlots};

verus! {

/// An immutable equality index over a column of text values.
pub struct ArrowStringIndex {
    slots: TextSlots,
    lists: PackedLists,
    column: Ghost<Seq<Seq<char>>>,
}

/// The characters of each value of a text column.
pub open spec fn text_column(col: Seq<String>) -> Seq<Seq<char>> {
    col.map_values(|s: String| s@)
}

/// The slot table and the postings lists agree with the column `col`: each
/// key of the column owns its own slot, whose list is the key's postings list.
pub open spec fn text_slots_agree(
    slots: Map<Seq<char>, usize>,
    lists: Seq<Vec<u64>>,
    col: Seq<Seq<char>>,
) -> bool {
    &&& forall|k: Seq<char>| #[trigger] slots.contains_key(k) <==> col.contains(k)
    &&& forall|k: Seq<char>|
        #[trigger] col.contains(k) ==> {
            &&& slots[k] < lists.len()
            &&& lists[slots[k] as int]@ == postings(col, k)
        }
    &&& forall|a: Seq<char>, b: Seq<char>|
        #[trigger] col.contains(a) && #[trigger] col.contains(b) && a != b ==> slots[a] != slots[b]
}

impl ArrowStringIndex {
    /// The column the index was built from, each value as its characters.
    pub closed spec fn column(&self) -> Seq<Seq<char>> {
        self.column@
    }

    /// Well-formedness: the key table and the packed lists agree with the column.
    pub closed spec fn wf(&self) -> bool {
        &&& ordinals_fit(self.column@)
        &&& self.lists.wf()
        &&& forall|k: Seq<char>| #[trigger] text_slots(self.slots).contains_key(k) <==> self.column@.contains(k)
        &&& forall|k: Seq<char>|
            #[trigger] self.column@.contains(k) ==> {
                &&& text_slots(self.slots)[k] < self.lists.count()
                &&& self.lists.list(text_slots(self.slots)[k] as int) == postings(self.column@, k)
            }
    }

    /// What a lookup of `key` answers: its postings list, or `None` where
    /// `key` does not occur in the column.
    pub open spec fn lookup(&self, key: Seq<char>) -> Option<Seq<u64>> {
        if self.column().contains(key) {
            Some(postings(self.column(), key))
        } else {
            None
        }
    }

    /// Builds the index of `column` in one left-to-right scan.
    pub fn build(column: &Vec<String>) -> (r: Self)
        ensures
            r.wf(),
            r.column() == text_column(column@),
    {
        let n = column.len();
        let ghost all = text_column(column@);
        let mut slots = text_slots_with_capacity(n);
        let mut lists: Vec<Vec<u64>> = Vec::new();
        let mut i: usize = 0;
        assert(all.subrange(0, 0) =~= Seq::<Seq<char>>::empty());
        while i < n
            invariant
                n == column@.len(),
                all == text_column(column@),
                i <= n,
                ordinals_fit(all),
                text_slots_agree(text_slots(slots), lists@, all.subrange(0, i as int)),
            decreases n - i,
        {
            let ghost pre = all.subrange(0, i as int);
            let ghost cur = all.subrange(0, i as int + 1);
            let value = &column[i];
            let ghost key = value@;
            assert(cur =~= pre.push(key));
            proof {
                lemma_postings_push(pre, key);
                assert forall|k: Seq<char>| #[trigger] cur.contains(k) <==> pre.contains(k) || k == key by {
                    if cur.contains(k) && k != key {
                        let j = choose|j: int| 0 <= j < cur.len() && cur[j] == k;
                        assert(pre[j] == k);
                    }
                    if pre.contains(k) {
                        let j = choose|j: int| 0 <= j < pre.len() && pre[j] == k;
                        assert(cur[j] == k);
                    }
                    if k == key {
                        assert(cur[i as int] == k);
                    }
                }
                assert forall|k: Seq<char>| k != key implies #[trigger] postings(cur, k) == postings(pre, k) by {
                    lemma_postings_push(pre, k);
                }
            }
            match text_slot_of(&slots, value.as_str()) {
                Some(s) => {
                    proof {
                        if !pre.contains(key) {
                            assert(false);
                        }
                    }
                    lists[s].push(i as u64);
                    proof {
                        assert forall|a: Seq<char>, b: Seq<char>|
                            #[trigger] cur.contains(a) && #[trigger] cur.contains(b) && a != b
                            implies text_slots(slots)[a] != text_slots(slots)[b] by {
                            if a == key {
                                assert(pre.contains(b));
                            } else if b == key {
                                assert(pre.contains(a));
                            }
                        }
                        assert forall|k: Seq<char>| #[trigger] cur.contains(k) implies {
                            &&& text_slots(slots)[k] < lists@.len()
                            &&& lists@[text_slots(slots)[k] as int]@ == postings(cur, k)
                        } by {
                            if k != key {
                                assert(pre.contains(k));
                            }
                        }
                    }
                },
                None => {
                    let mut list: Vec<u64> = Vec::new();
                    list.push(i as u64);
                    let s = lists.len();
                    let ghost old_slots = text_slots(slots);
                    text_slot_assign(&mut slots, value.clone(), s);
                    lists.push(list);
                    proof {
                        assert(!pre.contains(key));
                        lemma_postings_exact(pre, key);
                        assert(postings(pre, key) =~= Seq::<u64>::empty());
                        assert(list@ =~= postings(cur, key));
                        assert forall|k: Seq<char>| #[trigger] cur.contains(k) && k != key
                            implies text_slots(slots)[k] == old_slots[k] by {
                            assert(pre.contains(k));
                        }
                        assert forall|k: Seq<char>| #[trigger] cur.contains(k) implies {
                            &&& text_slots(slots)[k] < lists@.len()
                            &&& lists@[text_slots(slots)[k] as int]@ == postings(cur, k)
                        } by {
                            if k != key {
                                assert(pre.contains(k));
                            }
                        }
                        assert forall|a: Seq<char>, b: Seq<char>|
                            #[trigger] cur.contains(a) && #[trigger] cur.contains(b) && a != b
                            implies text_slots(slots)[a] != text_slots(slots)[b] by {
                            if a != key && b != key {
                                assert(pre.contains(a));
                                assert(pre.contains(b));
                            } else if a == key {
                                assert(pre.contains(b));
                            } else {
                                assert(pre.contains(a));
                            }
                        }
                    }
                },
            }
            i += 1;
        }
        assert(all.subrange(0, n as int) =~= all);
        let ghost unpacked = lists@;
        let lists = PackedLists::pack(lists);
        assert forall|k: Seq<char>| #[trigger] all.contains(k) implies {
            &&& text_slots(slots)[k] < lists.count()
            &&& lists.list(text_slots(slots)[k] as int) == postings(all, k)
        } by {
            assert(lists.list(text_slots(slots)[k] as int) == unpacked[text_slots(slots)[k] as int]@);
        }
        ArrowStringIndex { slots, lists, column: Ghost(all) }
    }

    /// Builds the index of a column that declares the element type `declared`,
    /// refusing it where that is not the text element type.
    pub fn from_column(declared: ElementType, column: &Vec<String>) -> (r: Result<Self, IndexError>)
        ensures
            r is Ok <==> declared == KeyType::Utf8.spec_element_type(),
            (match r {
                Ok(ix) => ix.wf() && ix.column() == text_column(column@),
                Err(e) => e == IndexError::TypeMismatch,
            }),
    {
        match check_column(declared, KeyType::Utf8) {
            Ok(()) => Ok(Self::build(column)),
            Err(e) => Err(e),
        }
    }

    /// The postings list of `key`, or `None` where `key` never occurs in the column.
    pub fn get(&self, key: &str) -> (r: Option<&[u64]>)
        requires
            self.wf(),
        ensures
            (match r {
                Some(v) => self.lookup(key@) == Some(v@),
                None => self.lookup(key@) is None,
            }),
    {
        match text_slot_of(&self.slots, key) {
            Some(s) => Some(self.lists.slot(s)),
            None => None,
        }
    }
}

/// Two text indexes built from the same column answer every lookup alike.
pub proof fn lemma_text_build_deterministic(a: &ArrowStringIndex, b: &ArrowStringIndex)
    requires
        a.column() == b.column(),
    ensures
        forall|k: Seq<char>| #[trigger] a.lookup(k) == b.lookup(k),
{
}

/// Every ordinal of the column lies in the postings list of exactly one key:
/// the value at that ordinal.
pub proof fn lemma_text_complete(ix: &ArrowStringIndex, i: int)
    requires
        ix.wf(),
        0 <= i < ix.column().len(),
    ensures
        ix.lookup(ix.column()[i]) is Some,
        ix.lookup(ix.column()[i])->0.contains(i as u64),
        forall|k: Seq<char>|
            #[trigger] ix.lookup(k) is Some && ix.lookup(k)->0.contains(i as u64) ==> k == ix.column()[i],
{
    lemma_postings_complete(ix.column(), i);
    assert(ix.column().contains(ix.column()[i]));
}

/// The postings list of every key present is strictly increasing and holds
/// exactly the ordinals of the rows equal to the key.
pub proof fn lemma_text_ordered(ix: &ArrowStringIndex, k: Seq<char>)
    requires
        ix.wf(),
        ix.lookup(k) is Some,
    ensures
        forall|a: int, b: int|
            0 <= a < b < ix.lookup(k)->0.len() ==> ix.lookup(k)->0[a] < ix.lookup(k)->0[b],
        forall|j: int|
            0 <= j < ix.lookup(k)->0.len() ==> {
                &&& ix.lookup(k)->0[j] < ix.column().len()
                &&& ix.column()[ix.lookup(k)->0[j] as int] == k
            },
        forall|i: int|
            0 <= i < ix.column().len() && ix.column()[i] == k ==> ix.lookup(k)->0.contains(i as u64),
{
    lemma_postings_increasing(ix.column(), k);
    lemma_postings_exact(ix.column(), k);
}

} // verus!
