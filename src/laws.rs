//! Laws that relate the chaining methods to plain function application.
use vstd::prelude::*;

verus! {

/// Chaining is nested application. Let `f`, `g` and `h` compute `sf`, `sg` and `sh`. Each step
/// of `x.pipe(f).pipe(g).pipe(h)` returns a value that the operation may return on the
/// step before (the `ensures` of `pipe`). So whatever the chain returns is `sh(sg(sf(x)))`,
/// the value of `h(g(f(x)))`.
pub proof fn lemma_chain_is_nested_application<
    A,
    B,
    C,
    D,
    F: FnOnce(A) -> B,
    G: FnOnce(B) -> C,
    H: FnOnce(C) -> D,
>(x: A, f: F, g: G, h: H, sf: spec_fn(A) -> B, sg: spec_fn(B) -> C, sh: spec_fn(C) -> D)
    requires
        forall|a: A, b: B| #[trigger] f.ensures((a,), b) ==> b == sf(a),
        forall|b: B, c: C| #[trigger] g.ensures((b,), c) ==> c == sg(b),
        forall|c: C, d: D| #[trigger] h.ensures((c,), d) ==> d == sh(c),
    ensures
        forall|b: B, c: C, d: D|
            #![trigger f.ensures((x,), b), g.ensures((b,), c), h.ensures((c,), d)]
            f.ensures((x,), b) && g.ensures((b,), c) && h.ensures((c,), d) ==> d == sh(sg(sf(x))),
{
}

} // verus!
