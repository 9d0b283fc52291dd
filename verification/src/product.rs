//! The Cartesian product of four sequences in the order of nested iteration,
//! and the arithmetic of positions in it.

use vstd::arithmetic::div_mod::{
    lemma_div_pos_is_pos,
    lemma_fundamental_div_mod,
    lemma_fundamental_div_mod_converse,
    lemma_mod_bound,
};
use vstd::arithmetic::mul::lemma_mul_strictly_positive;
use vstd::prelude::*;

verus! {

/// The position that four nested loops have reached, the first index being
/// the outermost: `i` full rounds of the second loop, `j` of the third, `k` of
/// the fourth, and `l` steps more.
#[verifier::opaque]
pub open spec fn nested_position(i: int, j: int, k: int, l: int, nj: int, nk: int, nl: int) -> int {
    ((i * nj + j) * nk + k) * nl + l
}

/// The Cartesian product of four sequences, each combination turned into one
/// value by `f`. The order is that of nested iteration: `a` is walked by the
/// outermost loop and `d` by the innermost one.
pub open spec fn product4<A, B, C, D, T>(
    a: Seq<A>,
    b: Seq<B>,
    c: Seq<C>,
    d: Seq<D>,
    f: spec_fn(A, B, C, D) -> T,
) -> Seq<T> {
    let (nb, nc, nd) = (b.len() as int, c.len() as int, d.len() as int);
    Seq::new(
        a.len() * b.len() * c.len() * d.len(),
        |x: int| f(a[x / (nb * nc * nd)], b[(x / (nc * nd)) % nb], c[(x / nd) % nc], d[x % nd]),
    )
}

/// A position within the bounds of the four loops lies within the product of
/// their lengths, and the four indices can be read back from it.
pub proof fn lemma_nested_position(i: int, j: int, k: int, l: int, ni: int, nj: int, nk: int, nl: int)
    requires
        0 <= i < ni,
        0 <= j < nj,
        0 <= k < nk,
        0 <= l < nl,
    ensures
        0 <= nested_position(i, j, k, l, nj, nk, nl) < ni * nj * nk * nl,
        nested_position(i, j, k, l, nj, nk, nl) / (nj * nk * nl) == i,
        (nested_position(i, j, k, l, nj, nk, nl) / (nk * nl)) % nj == j,
        (nested_position(i, j, k, l, nj, nk, nl) / nl) % nk == k,
        nested_position(i, j, k, l, nj, nk, nl) % nl == l,
{
    reveal(nested_position);
    let x = nested_position(i, j, k, l, nj, nk, nl);
    let low = k * nl + l;
    let mid = j * (nk * nl) + low;
    assert(0 <= low < nk * nl) by (nonlinear_arith)
        requires
            0 <= k < nk,
            0 <= l < nl,
            low == k * nl + l,
    ;
    assert(0 <= mid < nj * (nk * nl)) by (nonlinear_arith)
        requires
            0 <= j < nj,
            0 <= low < nk * nl,
            mid == j * (nk * nl) + low,
    ;
    assert(x == ((i * nj + j) * nk + k) * nl + l);
    assert(x == (i * nj + j) * (nk * nl) + low) by (nonlinear_arith)
        requires
            x == ((i * nj + j) * nk + k) * nl + l,
            low == k * nl + l,
    ;
    assert(x == i * (nj * nk * nl) + mid) by (nonlinear_arith)
        requires
            x == (i * nj + j) * (nk * nl) + low,
            mid == j * (nk * nl) + low,
    ;
    assert(nj * nk * nl == nj * (nk * nl)) by (nonlinear_arith);
    assert(0 <= x < ni * nj * nk * nl) by (nonlinear_arith)
        requires
            0 <= i < ni,
            0 <= mid < nj * (nk * nl),
            x == i * (nj * nk * nl) + mid,
            nj * nk * nl == nj * (nk * nl),
    ;
    lemma_fundamental_div_mod_converse(x, nl, (i * nj + j) * nk + k, l);
    lemma_fundamental_div_mod_converse((i * nj + j) * nk + k, nk, i * nj + j, k);
    lemma_fundamental_div_mod_converse(x, nk * nl, i * nj + j, low);
    lemma_fundamental_div_mod_converse(i * nj + j, nj, i, j);
    lemma_fundamental_div_mod_converse(x, nj * nk * nl, i, mid);
}

/// Every position below the product of the four lengths is the position of
/// exactly the indices that division and remainder read from it.
pub proof fn lemma_nested_position_indices(x: int, ni: int, nj: int, nk: int, nl: int)
    requires
        0 <= x < ni * nj * nk * nl,
        0 < nj,
        0 < nk,
        0 < nl,
    ensures
        0 <= x / (nj * nk * nl) < ni,
        0 <= (x / (nk * nl)) % nj < nj,
        0 <= (x / nl) % nk < nk,
        0 <= x % nl < nl,
        x == nested_position(
            x / (nj * nk * nl),
            (x / (nk * nl)) % nj,
            (x / nl) % nk,
            x % nl,
            nj,
            nk,
            nl,
        ),
{
    lemma_mul_strictly_positive(nk, nl);
    lemma_mul_strictly_positive(nj, nk * nl);
    assert(nj * nk * nl == nj * (nk * nl)) by (nonlinear_arith);
    let q1 = x / nl;
    let q2 = q1 / nk;
    let q3 = q2 / nj;
    lemma_fundamental_div_mod(x, nl);
    lemma_fundamental_div_mod(q1, nk);
    lemma_fundamental_div_mod(q2, nj);
    lemma_mod_bound(x, nl);
    lemma_div_pos_is_pos(x, nl);
    lemma_mod_bound(q1, nk);
    lemma_div_pos_is_pos(q1, nk);
    lemma_mod_bound(q2, nj);
    lemma_div_pos_is_pos(q2, nj);
    let l = x % nl;
    let k = q1 % nk;
    let j = q2 % nj;
    reveal(nested_position);
    assert(x == ((q3 * nj + j) * nk + k) * nl + l) by (nonlinear_arith)
        requires
            x == nl * q1 + l,
            q1 == nk * q2 + k,
            q2 == nj * q3 + j,
    ;
    assert(q3 < ni) by (nonlinear_arith)
        requires
            x == ((q3 * nj + j) * nk + k) * nl + l,
            x < ni * nj * nk * nl,
            0 <= j,
            0 <= k,
            0 <= l,
            0 < nj,
            0 < nk,
            0 < nl,
            0 <= q3,
    ;
    lemma_nested_position(q3, j, k, l, ni, nj, nk, nl);
}

/// One step of the innermost loop is one position. When an inner loop has run
/// to its end, the position is that of the next round of the loop around it;
/// when all four have, it is the product of the lengths.
pub proof fn lemma_nested_position_carry(i: int, j: int, k: int, l: int, ni: int, nj: int, nk: int, nl: int)
    ensures
        nested_position(i, j, k, l + 1, nj, nk, nl) == nested_position(i, j, k, l, nj, nk, nl) + 1,
        nested_position(i, j, k, nl, nj, nk, nl) == nested_position(i, j, k + 1, 0, nj, nk, nl),
        nested_position(i, j, nk, 0, nj, nk, nl) == nested_position(i, j + 1, 0, 0, nj, nk, nl),
        nested_position(i, nj, 0, 0, nj, nk, nl) == nested_position(i + 1, 0, 0, 0, nj, nk, nl),
        nested_position(ni, 0, 0, 0, nj, nk, nl) == ni * nj * nk * nl,
        nested_position(0, 0, 0, 0, nj, nk, nl) == 0,
{
    reveal(nested_position);
    assert(((i * nj + j) * nk + k) * nl + nl == ((i * nj + j) * nk + (k + 1)) * nl + 0)
        by (nonlinear_arith);
    assert(((i * nj + j) * nk + nk) * nl + 0 == ((i * nj + (j + 1)) * nk + 0) * nl + 0)
        by (nonlinear_arith);
    assert(((i * nj + nj) * nk + 0) * nl + 0 == (((i + 1) * nj + 0) * nk + 0) * nl + 0)
        by (nonlinear_arith);
    assert(((ni * nj + 0) * nk + 0) * nl + 0 == ni * nj * nk * nl) by (nonlinear_arith);
    assert(((0 * nj + 0) * nk + 0) * nl + 0 == 0) by (nonlinear_arith);
}

/// The product holds, at the position of four indices, the combination of
/// the four items at those indices.
pub proof fn lemma_product4_index<A, B, C, D, T>(
    a: Seq<A>,
    b: Seq<B>,
    c: Seq<C>,
    d: Seq<D>,
    f: spec_fn(A, B, C, D) -> T,
    i: int,
    j: int,
    k: int,
    l: int,
)
    requires
        0 <= i < a.len(),
        0 <= j < b.len(),
        0 <= k < c.len(),
        0 <= l < d.len(),
    ensures
        0 <= nested_position(i, j, k, l, b.len() as int, c.len() as int, d.len() as int)
            < product4(a, b, c, d, f).len(),
        product4(a, b, c, d, f)[nested_position(
            i,
            j,
            k,
            l,
            b.len() as int,
            c.len() as int,
            d.len() as int,
        )] == f(a[i], b[j], c[k], d[l]),
{
    lemma_nested_position(
        i,
        j,
        k,
        l,
        a.len() as int,
        b.len() as int,
        c.len() as int,
        d.len() as int,
    );
}

/// The product holds exactly the combinations of one item from each of the
/// four sequences.
pub proof fn lemma_product4_contains<A, B, C, D, T>(
    a: Seq<A>,
    b: Seq<B>,
    c: Seq<C>,
    d: Seq<D>,
    f: spec_fn(A, B, C, D) -> T,
    t: T,
)
    ensures
        product4(a, b, c, d, f).contains(t) <==> exists|w: A, x: B, y: C, z: D|
            a.contains(w) && b.contains(x) && c.contains(y) && d.contains(z) && t == #[trigger] f(
                w,
                x,
                y,
                z,
            ),
{
    let all = product4(a, b, c, d, f);
    if all.contains(t) {
        let p = choose|p: int| 0 <= p < all.len() && all[p] == t;
        let (ni, nj, nk, nl) = (a.len() as int, b.len() as int, c.len() as int, d.len() as int);
        assert(0 < nj && 0 < nk && 0 < nl) by (nonlinear_arith)
            requires
                0 <= p < ni * nj * nk * nl,
                0 <= ni,
                0 <= nj,
                0 <= nk,
                0 <= nl,
        ;
        lemma_nested_position_indices(p, ni, nj, nk, nl);
        let w = a[p / (nj * nk * nl)];
        let x = b[(p / (nk * nl)) % nj];
        let y = c[(p / nl) % nk];
        let z = d[p % nl];
        assert(a.contains(w) && b.contains(x) && c.contains(y) && d.contains(z));
        assert(t == f(w, x, y, z));
    }
    if exists|w: A, x: B, y: C, z: D|
        a.contains(w) && b.contains(x) && c.contains(y) && d.contains(z) && t == #[trigger] f(
            w,
            x,
            y,
            z,
        ) {
        let (w, x, y, z) = choose|w: A, x: B, y: C, z: D|
            a.contains(w) && b.contains(x) && c.contains(y) && d.contains(z) && t == #[trigger] f(
                w,
                x,
                y,
                z,
            );
        let i = choose|i: int| 0 <= i < a.len() && a[i] == w;
        let j = choose|j: int| 0 <= j < b.len() && b[j] == x;
        let k = choose|k: int| 0 <= k < c.len() && c[k] == y;
        let l = choose|l: int| 0 <= l < d.len() && d[l] == z;
        lemma_product4_index(a, b, c, d, f, i, j, k, l);
    }
}

/// The product of four sequences without repetitions has no repetitions
/// either, if `f` gives different values for different combinations.
pub proof fn lemma_product4_no_duplicates<A, B, C, D, T>(
    a: Seq<A>,
    b: Seq<B>,
    c: Seq<C>,
    d: Seq<D>,
    f: spec_fn(A, B, C, D) -> T,
)
    requires
        a.no_duplicates(),
        b.no_duplicates(),
        c.no_duplicates(),
        d.no_duplicates(),
        forall|w1: A, x1: B, y1: C, z1: D, w2: A, x2: B, y2: C, z2: D|
            #[trigger] f(w1, x1, y1, z1) == #[trigger] f(w2, x2, y2, z2) ==> w1 == w2 && x1 == x2
                && y1 == y2 && z1 == z2,
    ensures
        product4(a, b, c, d, f).no_duplicates(),
{
    let all = product4(a, b, c, d, f);
    let (ni, nj, nk, nl) = (a.len() as int, b.len() as int, c.len() as int, d.len() as int);
    assert forall|p: int, q: int| 0 <= p < all.len() && 0 <= q < all.len() && p != q implies all[p]
        != all[q] by {
        assert(0 < nj && 0 < nk && 0 < nl) by (nonlinear_arith)
            requires
                0 <= p < ni * nj * nk * nl,
                0 <= ni,
                0 <= nj,
                0 <= nk,
                0 <= nl,
        ;
        lemma_nested_position_indices(p, ni, nj, nk, nl);
        lemma_nested_position_indices(q, ni, nj, nk, nl);
    }
}

} // verus!
