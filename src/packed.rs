use vstd::prelude::*;
use vstd::slice::slice_subrange;

verus! {

/// Postings lists packed back to back in one buffer: list `s` occupies
/// `ordinals[bounds[s]..bounds[s + 1]]`.
pub struct PackedLists {
    ordinals: Vec<u64>,
    bounds: Vec<usize>,
}

impl PackedLists {
    /// How many lists are packed.
    pub closed spec fn count(&self) -> int {
        self.bounds@.len() - 1
    }

    /// The list in slot `s`.
    pub closed spec fn list(&self, s: int) -> Seq<u64> {
        self.ordinals@.subrange(self.bounds@[s] as int, self.bounds@[s + 1] as int)
    }

    /// Well-formedness: the bounds rise and stay within the buffer.
    pub closed spec fn wf(&self) -> bool {
        &&& self.bounds@.len() >= 1
        &&& forall|s: int|
            0 <= s < self.count() ==> self.bounds@[s] <= #[trigger] self.bounds@[s + 1]
                <= self.ordinals@.len()
    }

    /// Packs `lists`, each keeping its slot.
    pub fn pack(lists: Vec<Vec<u64>>) -> (r: Self)
        ensures
            r.wf(),
            r.count() == lists@.len(),
            forall|s: int| 0 <= s < lists@.len() ==> #[trigger] r.list(s) == lists@[s]@,
    {
        let mut lists = lists;
        let ghost orig = lists@;
        let mut ordinals: Vec<u64> = Vec::new();
        let mut bounds: Vec<usize> = Vec::new();
        bounds.push(0);
        let mut s: usize = 0;
        while s < lists.len()
            invariant
                lists@.len() == orig.len(),
                s <= orig.len(),
                forall|t: int| s <= t < orig.len() ==> lists@[t] == orig[t],
                bounds@.len() == s + 1,
                bounds@[s as int] == ordinals@.len(),
                forall|t: int|
                    0 <= t < s ==> {
                        &&& bounds@[t] <= #[trigger] bounds@[t + 1] <= ordinals@.len()
                        &&& ordinals@.subrange(bounds@[t] as int, bounds@[t + 1] as int) == orig[t]@
                    },
            decreases orig.len() - s,
        {
            let ghost before = ordinals@;
            let ghost old_bounds = bounds@;
            ordinals.append(&mut lists[s]);
            bounds.push(ordinals.len());
            proof {
                assert forall|t: int| 0 <= t < s + 1 implies {
                    &&& bounds@[t] <= #[trigger] bounds@[t + 1] <= ordinals@.len()
                    &&& ordinals@.subrange(bounds@[t] as int, bounds@[t + 1] as int) == orig[t]@
                } by {
                    assert(bounds@[t] == old_bounds[t]);
                    if t < s {
                        assert(bounds@[t + 1] == old_bounds[t + 1]);
                        assert(ordinals@.subrange(bounds@[t] as int, bounds@[t + 1] as int)
                            =~= before.subrange(bounds@[t] as int, bounds@[t + 1] as int));
                    } else {
                        assert(ordinals@.subrange(bounds@[t] as int, bounds@[t + 1] as int)
                            =~= orig[t]@);
                    }
                }
            }
            s += 1;
        }
        PackedLists { ordinals, bounds }
    }

    /// The list in slot `s`.
    pub fn slot(&self, s: usize) -> (r: &[u64])
        requires
            self.wf(),
            s < self.count(),
        ensures
            r@ == self.list(s as int),
    {
        let n = self.bounds.len();
        assert(s + 1 < n);
        slice_subrange(self.ordinals.as_slice(), self.bounds[s], self.bounds[s + 1])
    }
}

} // verus!
