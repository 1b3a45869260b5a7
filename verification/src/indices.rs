//! Exact statistics of the positions 0, 1, ..., n - 1 used as regressor.

use vstd::prelude::*;

verus! {

/// Sum of the positions below `k`: 0 + 1 + ... + (k - 1).
pub open spec fn soma_indices(k: int) -> int
    decreases k,
{
    if k <= 0 {
        0
    } else {
        soma_indices(k - 1) + (k - 1)
    }
}

/// Sum over the positions `i` below `k` of `(n i - s)^2`, where `s` is the
/// sum of all `n` positions. As the mean of the positions is `s / n`, each
/// term is the squared deviation of `i` from that mean, times `n^2`.
pub open spec fn desvio_parcial(n: int, k: int) -> int
    decreases k,
{
    if k <= 0 {
        0
    } else {
        desvio_parcial(n, k - 1) + (n * (k - 1) - soma_indices(n)) * (n * (k - 1) - soma_indices(
            n,
        ))
    }
}

/// Sum of the squared deviations of the positions 0 .. n - 1 from their
/// mean, times `n^2`, which keeps it an integer.
pub open spec fn desvio_indices(n: int) -> int {
    desvio_parcial(n, n)
}

/// The positions below `k` add up to k (k - 1) / 2, so the mean of the
/// positions of a series of length n >= 1 is (n - 1) / 2.
pub proof fn lema_soma_indices(k: int)
    requires
        0 <= k,
    ensures
        2 * soma_indices(k) == k * (k - 1),
    decreases k,
{
    if k > 0 {
        let j = k - 1;
        let s = soma_indices(j);
        lema_soma_indices(j);
        assert(2 * (s + j) == k * (k - 1)) by (nonlinear_arith)
            requires
                2 * s == j * (j - 1),
                j == k - 1,
        ;
    } else {
        assert(k * (k - 1) == 0) by (nonlinear_arith)
            requires
                k == 0,
        ;
    }
}

/// Closed form of the scaled squared deviations of the first `k` positions,
/// with `s` the sum of all `n` positions:
/// six times the partial sum is n^2 k (k - 1) (2 k - 1) - 6 n s k (k - 1) + 6 k s^2.
pub proof fn lema_desvio_parcial(n: int, k: int)
    requires
        0 <= k,
    ensures
        6 * desvio_parcial(n, k) == (n * n) * (k * (k - 1) * (2 * k - 1)) - 6 * ((n * soma_indices(
            n,
        )) * (k * (k - 1))) + 6 * (k * (soma_indices(n) * soma_indices(n))),
    decreases k,
{
    let s = soma_indices(n);
    let nn = n * n;
    let ns = n * s;
    let ss = s * s;
    let ak = k * (k - 1) * (2 * k - 1);
    let bk = k * (k - 1);
    if k > 0 {
        let j = k - 1;
        let d = desvio_parcial(n, j);
        let aj = j * (j - 1) * (2 * j - 1);
        let bj = j * (j - 1);
        let jj = j * j;
        let q = (n * j - s) * (n * j - s);
        lema_desvio_parcial(n, j);
        assert(ak == aj + 6 * jj && bk == bj + 2 * j) by (nonlinear_arith)
            requires
                j == k - 1,
                ak == k * (k - 1) * (2 * k - 1),
                aj == j * (j - 1) * (2 * j - 1),
                bk == k * (k - 1),
                bj == j * (j - 1),
                jj == j * j,
        ;
        assert(q == nn * jj - 2 * (ns * j) + ss) by (nonlinear_arith)
            requires
                q == (n * j - s) * (n * j - s),
                nn == n * n,
                ns == n * s,
                ss == s * s,
                jj == j * j,
        ;
        assert(nn * ak == nn * aj + 6 * (nn * jj)) by (nonlinear_arith)
            requires
                ak == aj + 6 * jj,
        ;
        assert(ns * bk == ns * bj + 2 * (ns * j)) by (nonlinear_arith)
            requires
                bk == bj + 2 * j,
        ;
        assert(k * ss == j * ss + ss) by (nonlinear_arith)
            requires
                k == j + 1,
        ;
    } else {
        assert(ak == 0 && bk == 0) by (nonlinear_arith)
            requires
                k == 0,
                ak == k * (k - 1) * (2 * k - 1),
                bk == k * (k - 1),
        ;
        assert(nn * ak == 0 && ns * bk == 0 && k * ss == 0) by (nonlinear_arith)
            requires
                ak == 0,
                bk == 0,
                k == 0,
        ;
    }
}

/// The squared deviations of the positions of a series of length n add up to
/// n (n^2 - 1) / 12. Scaled by `n^2` and cleared of the fraction:
/// twelve times the scaled sum is n^3 (n - 1) (n + 1).
pub proof fn lema_desvio_indices(n: int)
    requires
        0 <= n,
    ensures
        12 * desvio_indices(n) == n * n * n * (n - 1) * (n + 1),
{
    let s = soma_indices(n);
    let d = desvio_indices(n);
    let t = n * (n - 1);
    lema_soma_indices(n);
    lema_desvio_parcial(n, n);
    // With 2 s = t the closed form becomes a polynomial in n and t alone.
    assert(4 * ((n * s) * t) == 2 * (n * (t * t)) && 4 * (n * (s * s)) == n * (t * t))
        by (nonlinear_arith)
        requires
            2 * s == t,
    ;
    assert(2 * ((n * n) * (n * (n - 1) * (2 * n - 1))) - 3 * (n * (t * t)) == n * n * n * (n - 1)
        * (n + 1)) by (nonlinear_arith)
        requires
            t == n * (n - 1),
    ;
}

/// The positions have zero variance exactly when the series has at most one
/// observation; from two observations on the variance is positive.
pub proof fn lema_desvio_nulo(n: int)
    requires
        0 <= n,
    ensures
        desvio_indices(n) == 0 <==> n <= 1,
        n >= 2 ==> desvio_indices(n) > 0,
{
    lema_desvio_indices(n);
    if n >= 2 {
        assert(n * n * n * (n - 1) * (n + 1) > 0) by (nonlinear_arith)
            requires
                n >= 2,
        ;
    } else {
        assert(n * n * n * (n - 1) * (n + 1) == 0) by (nonlinear_arith)
            requires
                n == 0 || n == 1,
        ;
    }
}

/// Whether the positions of a series of length `n` have zero variance.
pub fn indices_sem_variancia(n: usize) -> (r: bool)
    ensures
        r == (desvio_indices(n as int) == 0),
        r == (n <= 1),
{
    proof {
        lema_desvio_nulo(n as int);
    }
    n <= 1
}

} // verus!
