//! Bounded first-in-first-out windows: appending drops the oldest entry once
//! the window is full.
use vstd::prelude::*;

verus! {

/// `s` with `x` appended, dropping the oldest entry first when `s` already
/// holds `cap` entries or more.
pub open spec fn bounded_push<T>(s: Seq<T>, x: T, cap: nat) -> Seq<T> {
    if s.len() >= cap && s.len() > 0 {
        s.drop_first().push(x)
    } else {
        s.push(x)
    }
}

/// The last `n` entries of `s` (all of them when there are fewer).
pub open spec fn last_n<T>(s: Seq<T>, n: nat) -> Seq<T> {
    if s.len() <= n {
        s
    } else {
        s.subrange(s.len() - n, s.len() as int)
    }
}

/// Appending `xs` one by one to a window of capacity `cap`, starting from
/// `s`.
pub open spec fn push_all<T>(s: Seq<T>, xs: Seq<T>, cap: nat) -> Seq<T>
    decreases xs.len(),
{
    if xs.len() == 0 {
        s
    } else {
        bounded_push(push_all(s, xs.drop_last(), cap), xs.last(), cap)
    }
}

/// A window of positive capacity that holds at most `cap` entries keeps, on
/// each append, exactly the last `cap` entries of what it held plus the new
/// one.
pub proof fn lemma_bounded_push_window<T>(s: Seq<T>, x: T, cap: nat)
    requires
        cap > 0,
        s.len() <= cap,
    ensures
        bounded_push(s, x, cap) == last_n(s.push(x), cap),
        bounded_push(s, x, cap).len() <= cap,
{
    if s.len() >= cap && s.len() > 0 {
        assert(bounded_push(s, x, cap) =~= last_n(s.push(x), cap));
    } else {
        assert(bounded_push(s, x, cap) =~= last_n(s.push(x), cap));
    }
}

/// Appending a whole sequence to an empty window of positive capacity
/// leaves exactly its last `cap` entries, in order.
pub proof fn lemma_push_all_keeps_last<T>(xs: Seq<T>, cap: nat)
    requires
        cap > 0,
    ensures
        push_all(Seq::empty(), xs, cap) == last_n(xs, cap),
    decreases xs.len(),
{
    if xs.len() > 0 {
        lemma_push_all_keeps_last(xs.drop_last(), cap);
        let prev = last_n(xs.drop_last(), cap);
        lemma_bounded_push_window(prev, xs.last(), cap);
        assert(last_n(prev.push(xs.last()), cap) =~= last_n(xs, cap));
    } else {
        assert(push_all(Seq::<T>::empty(), xs, cap) =~= last_n(xs, cap));
    }
}

} // verus!
