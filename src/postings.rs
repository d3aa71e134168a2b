use vstd::prelude::*;

verus! {

/// The postings list of `k` in `col`: the ordinals `i` with `col[i] == k`,
/// in the order a left-to-right scan of the column meets them.
pub open spec fn postings<T>(col: Seq<T>, k: T) -> Seq<u64>
    decreases col.len(),
{
    if col.len() == 0 {
        Seq::empty()
    } else {
        let rest = postings(col.drop_last(), k);
        if col.last() == k {
            rest.push((col.len() - 1) as u64)
        } else {
            rest
        }
    }
}

/// Appending a row extends the postings list of its value by the row's
/// ordinal and leaves every other postings list as it was.
pub proof fn lemma_postings_push<T>(col: Seq<T>, x: T)
    ensures
        forall|k: T|
            #[trigger] postings(col.push(x), k) == if k == x {
                postings(col, k).push(col.len() as u64)
            } else {
                postings(col, k)
            },
{
    assert(col.push(x).drop_last() =~= col);
}

/// A column whose every ordinal fits in a `u64`.
pub open spec fn ordinals_fit<T>(col: Seq<T>) -> bool {
    col.len() <= u64::MAX as int + 1
}

/// The postings list of `k` holds exactly the ordinals of the rows equal to `k`,
/// and it is empty exactly when `k` does not occur in the column.
pub proof fn lemma_postings_exact<T>(col: Seq<T>, k: T)
    requires
        ordinals_fit(col),
    ensures
        forall|j: int|
            0 <= j < postings(col, k).len() ==> {
                &&& postings(col, k)[j] < col.len()
                &&& col[postings(col, k)[j] as int] == k
            },
        forall|i: int| 0 <= i < col.len() && col[i] == k ==> postings(col, k).contains(i as u64),
        postings(col, k).len() > 0 <==> col.contains(k),
    decreases col.len(),
{
    let p = postings(col, k);
    if col.len() > 0 {
        let pre = col.drop_last();
        let q = postings(pre, k);
        lemma_postings_exact(pre, k);
        assert forall|i: int| 0 <= i < col.len() && col[i] == k implies p.contains(i as u64) by {
            if i < col.len() - 1 {
                assert(pre[i] == col[i]);
                let j = choose|j: int| 0 <= j < q.len() && q[j] == i as u64;
                assert(p[j] == i as u64);
            } else {
                assert(p[p.len() - 1] == i as u64);
            }
        }
        assert forall|j: int| 0 <= j < p.len() implies p[j] < col.len() && col[p[j] as int] == k by {
            if j < q.len() {
                assert(p[j] == q[j]);
                assert(pre[q[j] as int] == col[q[j] as int]);
            }
        }
    }
    if col.contains(k) {
        let i = choose|i: int| 0 <= i < col.len() && col[i] == k;
        assert(p.contains(i as u64));
    }
    if p.len() > 0 {
        assert(col[p[0] as int] == k);
    }
}

/// Every postings list is strictly increasing.
pub proof fn lemma_postings_increasing<T>(col: Seq<T>, k: T)
    requires
        ordinals_fit(col),
    ensures
        forall|a: int, b: int|
            0 <= a < b < postings(col, k).len() ==> postings(col, k)[a] < postings(col, k)[b],
    decreases col.len(),
{
    if col.len() > 0 {
        let pre = col.drop_last();
        lemma_postings_increasing(pre, k);
        lemma_postings_exact(pre, k);
    }
}

/// Every ordinal of a column lies in exactly one postings list: the one of
/// the value at that ordinal.
pub proof fn lemma_postings_complete<T>(col: Seq<T>, i: int)
    requires
        ordinals_fit(col),
        0 <= i < col.len(),
    ensures
        postings(col, col[i]).contains(i as u64),
        forall|k: T| #[trigger] postings(col, k).contains(i as u64) ==> k == col[i],
{
    lemma_postings_exact(col, col[i]);
    assert forall|k: T| #[trigger] postings(col, k).contains(i as u64) implies k == col[i] by {
        lemma_postings_exact(col, k);
        let p = postings(col, k);
        let j = choose|j: int| 0 <= j < p.len() && p[j] == i as u64;
        assert(col[p[j] as int] == k);
    }
}

} // verus!
