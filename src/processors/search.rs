use vstd::prelude::*;

verus! {

/// `i` is the smallest index below `n` at which `p` holds.
pub open spec fn is_first(n: int, p: spec_fn(int) -> bool, i: int) -> bool {
    &&& 0 <= i < n
    &&& p(i)
    &&& forall|j: int| 0 <= j < i ==> !#[trigger] p(j)
}

/// `i` is the largest index below `n` at which `p` holds.
pub open spec fn is_last(n: int, p: spec_fn(int) -> bool, i: int) -> bool {
    &&& 0 <= i < n
    &&& p(i)
    &&& forall|j: int| i < j < n ==> !#[trigger] p(j)
}

pub open spec fn first_where(n: int, p: spec_fn(int) -> bool) -> Option<int> {
    if exists|i: int| is_first(n, p, i) {
        Some(choose|i: int| is_first(n, p, i))
    } else {
        None
    }
}

pub open spec fn last_where(n: int, p: spec_fn(int) -> bool) -> Option<int> {
    if exists|i: int| is_last(n, p, i) {
        Some(choose|i: int| is_last(n, p, i))
    } else {
        None
    }
}

pub proof fn lemma_first_is(n: int, p: spec_fn(int) -> bool, i: int)
    requires
        is_first(n, p, i),
    ensures
        first_where(n, p) == Some(i),
{
    let k = choose|k: int| is_first(n, p, k);
    assert(is_first(n, p, k));
    if k < i {
        assert(!p(k));
    } else if k > i {
        assert(!p(i));
    }
}

pub proof fn lemma_first_none(n: int, p: spec_fn(int) -> bool)
    requires
        forall|j: int| 0 <= j < n ==> !#[trigger] p(j),
    ensures
        first_where(n, p) is None,
{
}

proof fn lemma_first_exists(n: int, p: spec_fn(int) -> bool, j: int)
    requires
        0 <= j < n,
        p(j),
    ensures
        exists|i: int| is_first(n, p, i),
    decreases j,
{
    if exists|m: int| 0 <= m < j && #[trigger] p(m) {
        let m = choose|m: int| 0 <= m < j && #[trigger] p(m);
        lemma_first_exists(n, p, m);
    } else {
        assert(is_first(n, p, j));
    }
}

pub proof fn lemma_first_some(n: int, p: spec_fn(int) -> bool)
    ensures
        first_where(n, p) matches Some(i) ==> is_first(n, p, i),
        first_where(n, p) is None ==> forall|j: int| 0 <= j < n ==> !#[trigger] p(j),
{
    if first_where(n, p) is None {
        assert forall|j: int| 0 <= j < n implies !#[trigger] p(j) by {
            if p(j) {
                lemma_first_exists(n, p, j);
            }
        }
    }
}

pub proof fn lemma_last_is(n: int, p: spec_fn(int) -> bool, i: int)
    requires
        is_last(n, p, i),
    ensures
        last_where(n, p) == Some(i),
{
    let k = choose|k: int| is_last(n, p, k);
    assert(is_last(n, p, k));
    if k < i {
        assert(!p(i));
    } else if k > i {
        assert(!p(k));
    }
}

pub proof fn lemma_last_none(n: int, p: spec_fn(int) -> bool)
    requires
        forall|j: int| 0 <= j < n ==> !#[trigger] p(j),
    ensures
        last_where(n, p) is None,
{
}

proof fn lemma_last_exists(n: int, p: spec_fn(int) -> bool, j: int)
    requires
        0 <= j < n,
        p(j),
    ensures
        exists|i: int| is_last(n, p, i),
    decreases n - j,
{
    if exists|m: int| j < m < n && #[trigger] p(m) {
        let m = choose|m: int| j < m < n && #[trigger] p(m);
        lemma_last_exists(n, p, m);
    } else {
        assert(is_last(n, p, j));
    }
}

pub proof fn lemma_last_some(n: int, p: spec_fn(int) -> bool)
    ensures
        last_where(n, p) matches Some(i) ==> is_last(n, p, i),
        last_where(n, p) is None ==> forall|j: int| 0 <= j < n ==> !#[trigger] p(j),
{
    if last_where(n, p) is None {
        assert forall|j: int| 0 <= j < n implies !#[trigger] p(j) by {
            if p(j) {
                lemma_last_exists(n, p, j);
            }
        }
    }
}

} // verus!
