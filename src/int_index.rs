use vstd::prelude::*;

use crate::element::{check_column, ElementType, IndexError, KeyType};
use crate::keys::IntKey;
use crate::packed::PackedLists;
use crate::postings::{
    lemma_postings_complete, lemma_postings_exact, lemma_postings_increasing, lemma_postings_push,
    ordinals_fit, postings,
};
use crate::slots::{code_slot_assign, code_slot_of, code_slots, code_slots_with_capacity, CodeSlots};

verus! {

/// An immutable equality index over a column of integers of type `K`.
pub struct IntIndex<K> {
    slots: CodeSlots,
    lists: PackedLists,
    column: Ghost<Seq<K>>,
}

/// The slot table and the postings lists agree with the column `col`: each
/// key of the column owns its own slot, whose list is the key's postings list.
pub open spec fn int_slots_agree<K: IntKey>(
    slots: Map<u64, usize>,
    lists: Seq<Vec<u64>>,
    col: Seq<K>,
) -> bool {
    &&& forall|k: K| #[trigger] slots.contains_key(k.code()) <==> col.contains(k)
    &&& forall|k: K|
        #[trigger] col.contains(k) ==> {
            &&& slots[k.code()] < lists.len()
            &&& lists[slots[k.code()] as int]@ == postings(col, k)
        }
    &&& forall|a: K, b: K|
        #[trigger] col.contains(a) && #[trigger] col.contains(b) && a != b
            ==> slots[a.code()] != slots[b.code()]
}

impl<K: IntKey> IntIndex<K> {
    /// The column the index was built from.
    pub closed spec fn column(&self) -> Seq<K> {
        self.column@
    }

    /// Well-formedness: the key table and the packed lists agree with the column.
    pub closed spec fn wf(&self) -> bool {
        &&& ordinals_fit(self.column@)
        &&& self.lists.wf()
        &&& forall|k: K| #[trigger] code_slots(self.slots).contains_key(k.code()) <==> self.column@.contains(k)
        &&& forall|k: K|
            #[trigger] self.column@.contains(k) ==> {
                &&& code_slots(self.slots)[k.code()] < self.lists.count()
                &&& self.lists.list(code_slots(self.slots)[k.code()] as int) == postings(self.column@, k)
            }
    }

    /// What a lookup of `key` answers: its postings list, or `None` where
    /// `key` does not occur in the column.
    pub open spec fn lookup(&self, key: K) -> Option<Seq<u64>> {
        if self.column().contains(key) {
            Some(postings(self.column(), key))
        } else {
            None
        }
    }

    /// Builds the index of `column` in one left-to-right scan.
    pub fn build(column: &Vec<K>) -> (r: Self)
        ensures
            r.wf(),
            r.column() == column@,
    {
        let n = column.len();
        let mut slots = code_slots_with_capacity(n);
        let mut lists: Vec<Vec<u64>> = Vec::new();
        let mut i: usize = 0;
        assert(column@.subrange(0, 0) =~= Seq::<K>::empty());
        while i < n
            invariant
                n == column@.len(),
                i <= n,
                ordinals_fit(column@),
                int_slots_agree(code_slots(slots), lists@, column@.subrange(0, i as int)),
            decreases n - i,
        {
            let ghost pre = column@.subrange(0, i as int);
            let ghost cur = column@.subrange(0, i as int + 1);
            let key = column[i];
            assert(cur =~= pre.push(key));
            proof {
                lemma_postings_push(pre, key);
                assert forall|k: K| #[trigger] cur.contains(k) <==> pre.contains(k) || k == key by {
                    if cur.contains(k) && k != key {
                        let j = choose|j: int| 0 <= j < cur.len() && cur[j] == k;
                        assert(pre[j] == k);
                    }
                    if pre.contains(k) {
                        let j = choose|j: int| 0 <= j < pre.len() && pre[j] == k;
                        assert(cur[j] == k);
                    }
                    if k == key {
                        assert(cur[i as int] == k);
                    }
                }
                assert forall|k: K| k != key implies #[trigger] postings(cur, k) == postings(pre, k) by {
                    lemma_postings_push(pre, k);
                }
            }
            let code = key.to_code();
            match code_slot_of(&slots, code) {
                Some(s) => {
                    proof {
                        if !pre.contains(key) {
                            assert(false);
                        }
                    }
                    lists[s].push(i as u64);
                    proof {
                        assert forall|a: K, b: K|
                            #[trigger] cur.contains(a) && #[trigger] cur.contains(b) && a != b
                            implies code_slots(slots)[a.code()] != code_slots(slots)[b.code()] by {
                            if a == key {
                                assert(pre.contains(b));
                            } else if b == key {
                                assert(pre.contains(a));
                            }
                        }
                        assert forall|k: K| #[trigger] cur.contains(k) implies {
                            &&& code_slots(slots)[k.code()] < lists@.len()
                            &&& lists@[code_slots(slots)[k.code()] as int]@ == postings(cur, k)
                        } by {
                            if k != key {
                                assert(pre.contains(k));
                            }
                        }
                    }
                },
                None => {
                    let mut list: Vec<u64> = Vec::with_capacity(10);
                    list.push(i as u64);
                    let s = lists.len();
                    let ghost old_slots = code_slots(slots);
                    code_slot_assign(&mut slots, code, s);
                    lists.push(list);
                    proof {
                        assert(!pre.contains(key));
                        lemma_postings_exact(pre, key);
                        assert(postings(pre, key) =~= Seq::<u64>::empty());
                        assert(list@ =~= postings(cur, key));
                        assert forall|k: K| #[trigger] code_slots(slots).contains_key(k.code())
                            <==> cur.contains(k) by {
                            K::lemma_code_injective(k, key);
                        }
                        assert forall|k: K| #[trigger] cur.contains(k) && k != key
                            implies code_slots(slots)[k.code()] == old_slots[k.code()] by {
                            K::lemma_code_injective(k, key);
                            assert(pre.contains(k));
                        }
                        assert forall|k: K| #[trigger] cur.contains(k) implies {
                            &&& code_slots(slots)[k.code()] < lists@.len()
                            &&& lists@[code_slots(slots)[k.code()] as int]@ == postings(cur, k)
                        } by {
                            if k != key {
                                assert(pre.contains(k));
                            }
                        }
                        assert forall|a: K, b: K|
                            #[trigger] cur.contains(a) && #[trigger] cur.contains(b) && a != b
                            implies code_slots(slots)[a.code()] != code_slots(slots)[b.code()] by {
                            if a != key && b != key {
                                assert(pre.contains(a));
                                assert(pre.contains(b));
                            } else if a == key {
                                assert(pre.contains(b));
                            } else {
                                assert(pre.contains(a));
                            }
                        }
                    }
                },
            }
            i += 1;
        }
        assert(column@.subrange(0, n as int) =~= column@);
        let ghost unpacked = lists@;
        let lists = PackedLists::pack(lists);
        assert forall|k: K| #[trigger] column@.contains(k) implies {
            &&& code_slots(slots)[k.code()] < lists.count()
            &&& lists.list(code_slots(slots)[k.code()] as int) == postings(column@, k)
        } by {
            assert(lists.list(code_slots(slots)[k.code()] as int) == unpacked[code_slots(slots)[k.code()] as int]@);
        }
        IntIndex { slots, lists, column: Ghost(column@) }
    }

    /// Builds the index of a column that declares the element type `declared`,
    /// refusing it where that is not the element type of the key type `K`.
    pub fn from_column(declared: ElementType, column: &Vec<K>) -> (r: Result<Self, IndexError>)
        ensures
            r is Ok <==> declared == K::key_type().spec_element_type(),
            (match r {
                Ok(ix) => ix.wf() && ix.column() == column@,
                Err(e) => e == IndexError::TypeMismatch,
            }),
    {
        match check_column(declared, K::declared_key_type()) {
            Ok(()) => Ok(Self::build(column)),
            Err(e) => Err(e),
        }
    }

    /// The postings list of `key`, or `None` where `key` never occurs in the column.
    pub fn get(&self, key: K) -> (r: Option<&[u64]>)
        requires
            self.wf(),
        ensures
            (match r {
                Some(v) => self.lookup(key) == Some(v@),
                None => self.lookup(key) is None,
            }),
    {
        match code_slot_of(&self.slots, key.to_code()) {
            Some(s) => Some(self.lists.slot(s)),
            None => None,
        }
    }
}

/// Two indexes built from the same column answer every lookup alike.
pub proof fn lemma_int_build_deterministic<K: IntKey>(a: &IntIndex<K>, b: &IntIndex<K>)
    requires
        a.column() == b.column(),
    ensures
        forall|k: K| #[trigger] a.lookup(k) == b.lookup(k),
{
}

/// Every ordinal of the column lies in the postings list of exactly one key:
/// the value at that ordinal.
pub proof fn lemma_int_complete<K: IntKey>(ix: &IntIndex<K>, i: int)
    requires
        ix.wf(),
        0 <= i < ix.column().len(),
    ensures
        ix.lookup(ix.column()[i]) is Some,
        ix.lookup(ix.column()[i])->0.contains(i as u64),
        forall|k: K|
            #[trigger] ix.lookup(k) is Some && ix.lookup(k)->0.contains(i as u64) ==> k == ix.column()[i],
{
    lemma_postings_complete(ix.column(), i);
    assert(ix.column().contains(ix.column()[i]));
}

/// The postings list of every key present is strictly increasing and holds
/// exactly the ordinals of the rows equal to the key.
pub proof fn lemma_int_ordered<K: IntKey>(ix: &IntIndex<K>, k: K)
    requires
        ix.wf(),
        ix.lookup(k) is Some,
    ensures
        forall|a: int, b: int|
            0 <= a < b < ix.lookup(k)->0.len() ==> ix.lookup(k)->0[a] < ix.lookup(k)->0[b],
        forall|j: int|
            0 <= j < ix.lookup(k)->0.len() ==> {
                &&& ix.lookup(k)->0[j] < ix.column().len()
                &&& ix.column()[ix.lookup(k)->0[j] as int] == k
            },
        forall|i: int|
            0 <= i < ix.column().len() && ix.column()[i] == k ==> ix.lookup(k)->0.contains(i as u64),
{
    lemma_postings_increasing(ix.column(), k);
    lemma_postings_exact(ix.column(), k);
}

pub type ArrowUInt8Index = IntIndex<u8>;

pub type ArrowUInt16Index = IntIndex<u16>;

pub type ArrowUInt32Index = IntIndex<u32>;

pub type ArrowUInt64Index = IntIndex<u64>;

pub type ArrowInt8Index = IntIndex<i8>;

pub type ArrowInt16Index = IntIndex<i16>;

pub type ArrowInt32Index = IntIndex<i32>;

pub type ArrowInt64Index = IntIndex<i64>;

} // verus!
