use vstd::prelude::*;

verus! {

/// Round-trip identity: an update whose transformation hands its state
/// back unchanged leaves the cell's contents unchanged. `v` is the
/// contents before the call and `v_after` the contents after it, as the
/// update entry point's postcondition relates them.
pub proof fn lemma_round_trip_identity<T, F: FnOnce(T, ()) -> (T, ())>(f: F, v: T, v_after: T)
    requires
        forall|s: T, r: (T, ())| call_ensures(f, (s, ()), r) ==> r.0 == s,
        call_ensures(f, (v, ()), (v_after, ())),
    ensures
        v_after == v,
{
}

/// State threading: an update whose transformation adds its input to the
/// state leaves the cell holding the old state plus the input. `s0` is
/// the contents before the call with input `k`, and `s1` the contents
/// after it.
pub proof fn lemma_state_threading<F: FnOnce(u32, u32) -> (u32, ())>(
    f: F,
    s0: u32,
    k: u32,
    s1: u32,
)
    requires
        forall|s: u32, i: u32, r: (u32, ())| call_ensures(f, (s, i), r) ==> r.0 == s + i,
        call_ensures(f, (s0, k), (s1, ())),
    ensures
        s1 == s0 + k,
{
}

/// Output distinctness from state: the caller receives exactly the
/// transformation's computed output while the cell stores exactly its new
/// state, even though the two differ. The transformation here advances
/// the state by two and reports the pre-increment value.
pub proof fn lemma_output_distinct_from_state<F: FnOnce(u32, ()) -> (u32, u32)>(
    f: F,
    s0: u32,
    s1: u32,
    out: u32,
)
    requires
        forall|s: u32, r: (u32, u32)| call_ensures(f, (s, ()), r) ==> r.0 == s + 2 && r.1 == s,
        call_ensures(f, (s0, ()), (s1, out)),
    ensures
        s1 == s0 + 2,
        out == s0,
        out != s1,
{
}

/// Sequential updates compose: two updates in sequence, the first adding
/// `a` and the second adding `b`, reach the same state as one update
/// adding the sum `c == a + b`, from any starting state `s0`.
pub proof fn lemma_sequential_updates_compose<F, G, H>(
    f: F,
    g: G,
    h: H,
    s0: u32,
    a: u32,
    b: u32,
    c: u32,
    s1: u32,
    s2: u32,
    s_single: u32,
) where
    F: FnOnce(u32, u32) -> (u32, ()),
    G: FnOnce(u32, u32) -> (u32, ()),
    H: FnOnce(u32, u32) -> (u32, ()),

    requires
        forall|s: u32, i: u32, r: (u32, ())| call_ensures(f, (s, i), r) ==> r.0 == s + i,
        forall|s: u32, i: u32, r: (u32, ())| call_ensures(g, (s, i), r) ==> r.0 == s + i,
        forall|s: u32, i: u32, r: (u32, ())| call_ensures(h, (s, i), r) ==> r.0 == s + i,
        c == a + b,
        call_ensures(f, (s0, a), (s1, ())),
        call_ensures(g, (s1, b), (s2, ())),
        call_ensures(h, (s0, c), (s_single, ())),
    ensures
        s2 == s_single,
{
}

} // verus!
