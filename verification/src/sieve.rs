//! The computation of a worker: all primes up to a limit, by the sieve of
//! Eratosthenes.

use vstd::arithmetic::div_mod::{
    lemma_fundamental_div_mod, lemma_mod_bound, lemma_mod_multiples_basic, lemma_mod_self_0,
};
use vstd::prelude::*;

verus! {

/// `d` is positive and `n` is a multiple of it.
pub open spec fn divides(d: int, n: int) -> bool {
    d > 0 && n % d == 0
}

/// `n` is at least two and no number from two up to `n - 1` divides it.
pub open spec fn is_prime(n: int) -> bool {
    n >= 2 && forall|d: int| 2 <= d < n ==> !#[trigger] divides(d, n)
}

/// `s` holds the primes up to `limit`, each once, in rising order.
pub open spec fn primes_up_to(s: Seq<usize>, limit: int) -> bool {
    &&& forall|i: int| 0 <= i < s.len() ==> is_prime(#[trigger] s[i] as int) && s[i] <= limit
    &&& forall|i: int, j: int| 0 <= i < j < s.len() ==> s[i] < s[j]
    &&& forall|p: int| #[trigger] is_prime(p) && p <= limit ==> s.contains(p as usize)
}

/// The least number from `c` up to `n` that divides `n`.
pub open spec fn least_factor_from(n: int, c: int) -> int
    decreases n - c,
{
    if c >= n {
        n
    } else if divides(c, n) {
        c
    } else {
        least_factor_from(n, c + 1)
    }
}

proof fn lemma_multiple_divides(d: int, q: int)
    requires
        d > 0,
    ensures
        divides(d, d * q),
{
    lemma_mod_multiples_basic(q, d);
    assert(d * q == q * d) by (nonlinear_arith);
}

proof fn lemma_quotient(d: int, n: int)
    requires
        divides(d, n),
    ensures
        n == d * (n / d),
{
    lemma_fundamental_div_mod(n, d);
}

proof fn lemma_divides_is_transitive(e: int, r: int, n: int)
    requires
        divides(e, r),
        divides(r, n),
    ensures
        divides(e, n),
{
    lemma_quotient(e, r);
    lemma_quotient(r, n);
    let a = r / e;
    let b = n / r;
    assert(n == e * (a * b)) by (nonlinear_arith)
        requires
            r == e * a,
            n == r * b,
    ;
    lemma_multiple_divides(e, a * b);
}

proof fn lemma_least_factor(n: int, c: int)
    requires
        2 <= c <= n,
    ensures
        c <= least_factor_from(n, c) <= n,
        divides(least_factor_from(n, c), n),
        forall|d: int| c <= d < least_factor_from(n, c) ==> !#[trigger] divides(d, n),
    decreases n - c,
{
    if c >= n {
        lemma_mod_self_0(n);
    } else if divides(c, n) {
    } else {
        lemma_least_factor(n, c + 1);
    }
}

/// A number from two up that is not prime has a prime factor whose square
/// does not exceed it.
pub proof fn lemma_small_prime_factor(n: int) -> (p: int)
    requires
        n >= 2,
        !is_prime(n),
    ensures
        is_prime(p),
        divides(p, n),
        p * p <= n,
{
    let r = least_factor_from(n, 2);
    lemma_least_factor(n, 2);
    let d = choose|d: int| 2 <= d < n && divides(d, n);
    assert(r <= d);
    assert forall|e: int| 2 <= e < r implies !#[trigger] divides(e, r) by {
        if divides(e, r) {
            lemma_divides_is_transitive(e, r, n);
        }
    }
    lemma_quotient(r, n);
    let m = n / r;
    assert(m >= 2 && m < n) by (nonlinear_arith)
        requires
            n == r * m,
            2 <= r < n,
    ;
    lemma_multiple_divides(m, r);
    assert(m * r == r * m) by (nonlinear_arith);
    assert(divides(m, n));
    assert(m >= r);
    assert(r * r <= n) by (nonlinear_arith)
        requires
            n == r * m,
            m >= r,
            r >= 2,
    ;
    r
}

/// Between one multiple of `d` and the next there is none.
proof fn lemma_no_multiple_between(d: int, q: int, k: int)
    requires
        d > 0,
        d * q < k < d * q + d,
    ensures
        !divides(d, k),
{
    if divides(d, k) {
        lemma_quotient(d, k);
        let t = k / d;
        assert(false) by (nonlinear_arith)
            requires
                d > 0,
                k == d * t,
                d * q < k < d * q + d,
        ;
    }
}

/// Where `i` exceeds `limit / i`, the square of `i` exceeds `limit`; where it
/// does not, neither does the square.
proof fn lemma_square_bound(i: int, limit: int)
    requires
        i >= 1,
        limit >= 0,
    ensures
        i <= limit / i <==> i * i <= limit,
{
    lemma_fundamental_div_mod(limit, i);
    lemma_mod_bound(limit, i);
    let q = limit / i;
    let r = limit % i;
    if i <= q {
        assert(i * i <= limit) by (nonlinear_arith)
            requires
                limit == i * q + r,
                r >= 0,
                i <= q,
                i >= 1,
        ;
    } else {
        assert(i * i > limit) by (nonlinear_arith)
            requires
                limit == i * q + r,
                r < i,
                q < i,
                i >= 1,
        ;
    }
}

/// What the flags say while the sieve runs: no prime is struck out, and
/// every number that has a prime factor below `bound` whose square does not
/// exceed it is struck out.
spec fn sieved(flags: Seq<bool>, limit: int, bound: int) -> bool {
    &&& flags.len() == limit + 1
    &&& forall|k: int| 0 <= k <= limit && #[trigger] is_prime(k) ==> flags[k]
    &&& forall|d: int, k: int|
        2 <= d < bound && is_prime(d) && d * d <= k <= limit && #[trigger] divides(d, k)
            ==> !flags[k]
}

/// Every multiple of `i` from its square up to `limit`, and below `upto`,
/// is struck out.
spec fn struck(flags: Seq<bool>, limit: int, i: int, upto: int) -> bool {
    forall|k: int| i * i <= k <= limit && k < upto && #[trigger] divides(i, k) ==> !flags[k]
}

fn strike_multiples(flags: &mut Vec<bool>, limit: usize, i: usize)
    requires
        2 <= i,
        i * i <= limit,
        sieved(old(flags)@, limit as int, i as int),
    ensures
        sieved(final(flags)@, limit as int, i as int),
        struck(final(flags)@, limit as int, i as int, limit + 1),
        final(flags)@[i as int] == old(flags)@[i as int],
{
    assert(i * i <= usize::MAX);
    let mut multiple: usize = i * i;
    let ghost mut q: int = i as int;
    let mut more = true;
    assert(i < i * i) by (nonlinear_arith)
        requires
            i >= 2,
    ;
    while more
        invariant
            2 <= i,
            i * i <= limit,
            q >= i,
            multiple == i * q,
            multiple <= limit,
            sieved(flags@, limit as int, i as int),
            flags@[i as int] == old(flags)@[i as int],
            more ==> struck(flags@, limit as int, i as int, multiple as int),
            !more ==> struck(flags@, limit as int, i as int, limit + 1),
        decreases limit - multiple + if more { 1int } else { 0int },
    {
        let ghost before = flags@;
        flags.set(multiple, false);
        proof {
            lemma_multiple_divides(i as int, q);
            assert(i < multiple) by (nonlinear_arith)
                requires
                    multiple == i * q,
                    q >= i,
                    i >= 2,
            ;
            assert(!is_prime(multiple as int));
            assert(sieved(flags@, limit as int, i as int));
        }
        if limit - multiple >= i {
            proof {
                assert forall|k: int|
                    i * i <= k <= limit && k < multiple + i && #[trigger] divides(
                        i as int,
                        k,
                    ) implies !flags@[k] by {
                    if k > multiple {
                        lemma_no_multiple_between(i as int, q, k);
                    }
                }
                assert(i * (q + 1) == i * q + i) by (nonlinear_arith);
                q = q + 1;
            }
            multiple = multiple + i;
        } else {
            proof {
                assert forall|k: int|
                    i * i <= k <= limit && #[trigger] divides(i as int, k) implies !flags@[k] by {
                    if k > multiple {
                        lemma_no_multiple_between(i as int, q, k);
                    }
                }
            }
            more = false;
        }
    }
}

/// All primes up to `limit`, in rising order.
pub fn basic_sieve(limit: usize) -> (primes: Vec<usize>)
    requires
        1 <= limit < usize::MAX,
    ensures
        primes_up_to(primes@, limit as int),
{
    let mut flags: Vec<bool> = Vec::new();
    let mut n: usize = 0;
    while n <= limit
        invariant
            n <= limit + 1,
            limit < usize::MAX,
            flags@.len() == n,
            forall|k: int| 0 <= k < n ==> flags@[k] == (k >= 2),
        decreases limit + 1 - n,
    {
        flags.push(n >= 2);
        n += 1;
    }
    let mut i: usize = 2;
    while i <= limit / i
        invariant
            2 <= i,
            limit < usize::MAX,
            (i - 1) * (i - 1) <= limit,
            sieved(flags@, limit as int, i as int),
        decreases limit - i,
    {
        proof {
            lemma_square_bound(i as int, limit as int);
        }
        if flags[i] {
            strike_multiples(&mut flags, limit, i);
        } else {
            proof {
                assert(!is_prime(i as int));
            }
        }
        proof {
            assert(sieved(flags@, limit as int, i + 1)) by {
                assert forall|d: int, k: int|
                    2 <= d < i + 1 && is_prime(d) && d * d <= k <= limit && #[trigger] divides(
                        d,
                        k,
                    ) implies !flags@[k] by {
                    if d == i {
                        assert(flags@[i as int]);
                    }
                }
            }
            assert(i < limit) by (nonlinear_arith)
                requires
                    i * i <= limit,
                    i >= 2,
            ;
        }
        i += 1;
    }
    proof {
        lemma_square_bound(i as int, limit as int);
        assert forall|k: int| 2 <= k <= limit && flags@[k] implies is_prime(k) by {
            if !is_prime(k) {
                let p = lemma_small_prime_factor(k);
                assert(p < i) by (nonlinear_arith)
                    requires
                        p * p <= k,
                        k <= limit,
                        i * i > limit,
                        p >= 2,
                        i >= 2,
                ;
                assert(divides(p, k));
            }
        }
    }
    let mut primes: Vec<usize> = Vec::new();
    let mut p: usize = 2;
    while p <= limit
        invariant
            2 <= p <= limit + 1,
            limit < usize::MAX,
            flags@.len() == limit + 1,
            forall|k: int| 0 <= k <= limit && #[trigger] is_prime(k) ==> flags@[k],
            forall|k: int| 2 <= k <= limit && flags@[k] ==> is_prime(k),
            forall|j: int|
                0 <= j < primes@.len() ==> is_prime(#[trigger] primes@[j] as int) && primes@[j] < p,
            forall|j: int, k: int| 0 <= j < k < primes@.len() ==> primes@[j] < primes@[k],
            forall|x: int| #[trigger] is_prime(x) && x < p ==> primes@.contains(x as usize),
        decreases limit + 1 - p,
    {
        if flags[p] {
            let ghost before = primes@;
            primes.push(p);
            proof {
                assert(primes@[before.len() as int] == p);
                assert forall|x: int| #[trigger] is_prime(x) && x < p + 1 implies primes@.contains(
                    x as usize,
                ) by {
                    if x < p {
                        let j = choose|j: int| 0 <= j < before.len() && before[j] == x as usize;
                        assert(primes@[j] == x as usize);
                    }
                }
            }
        }
        p += 1;
    }
    primes
}

} // verus!
