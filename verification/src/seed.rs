//! Small constructors for the fixed-size vectors of the model objects.

use vstd::prelude::*;

verus! {

/// A vector of `n` copies of `false`.
pub fn filled_bools(n: usize) -> (r: Vec<bool>)
    ensures
        r@ =~= Seq::new(n as nat, |i: int| false),
{
    let mut v: Vec<bool> = Vec::new();
    let mut i: usize = 0;
    while i < n
        invariant
            i <= n,
            v@ =~= Seq::new(i as nat, |j: int| false),
        decreases n - i,
    {
        v.push(false);
        i = i + 1;
    }
    v
}

/// A vector of `n` zeroes.
pub fn filled_i64(n: usize) -> (r: Vec<i64>)
    ensures
        r@ =~= Seq::new(n as nat, |i: int| 0i64),
{
    let mut v: Vec<i64> = Vec::new();
    let mut i: usize = 0;
    while i < n
        invariant
            i <= n,
            v@ =~= Seq::new(i as nat, |j: int| 0i64),
        decreases n - i,
    {
        v.push(0);
        i = i + 1;
    }
    v
}

/// A vector of `n` copies of the given symbol.
pub fn filled_strings(n: usize, d: &str) -> (r: Vec<String>)
    ensures
        r@.len() == n,
        forall|i: int| 0 <= i < n ==> #[trigger] r@[i]@ == d@,
{
    let mut v: Vec<String> = Vec::new();
    let mut i: usize = 0;
    while i < n
        invariant
            i <= n,
            v@.len() == i,
            forall|j: int| 0 <= j < i ==> #[trigger] v@[j]@ == d@,
        decreases n - i,
    {
        v.push(d.to_owned());
        i = i + 1;
    }
    v
}

} // verus!
