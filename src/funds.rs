use vstd::prelude::*;
use crate::asset::AssetKind;

verus! {

/// How many units of the asset that `a` denotes the items of `b` hold together.
pub open spec fn total(b: Seq<AssetKind>, a: AssetKind) -> int
    decreases b.len(),
{
    if b.len() == 0 {
        0
    } else {
        total(b.drop_last(), a) + if b.last().same_asset(a) {
            b.last().units()
        } else {
            0
        }
    }
}

/// `attached` holds exactly what `required` asks for: the same number of
/// units of every asset, neither more nor less.
pub open spec fn funds_match(attached: Seq<AssetKind>, required: Seq<AssetKind>) -> bool {
    forall|a: AssetKind| #[trigger] total(attached, a) == total(required, a)
}

/// One more than the largest `u128`.
pub open spec fn word() -> int {
    u128::MAX as int + 1
}

pub proof fn lemma_total_nonneg(b: Seq<AssetKind>, a: AssetKind)
    ensures
        total(b, a) >= 0,
    decreases b.len(),
{
    if b.len() > 0 {
        lemma_total_nonneg(b.drop_last(), a);
    }
}

/// Items that denote the same asset have the same total.
pub proof fn lemma_total_same_asset(b: Seq<AssetKind>, a: AssetKind, c: AssetKind)
    requires
        a.same_asset(c),
    ensures
        total(b, a) == total(b, c),
    decreases b.len(),
{
    if b.len() > 0 {
        lemma_total_same_asset(b.drop_last(), a, c);
    }
}

/// An asset that no item denotes has total zero.
pub proof fn lemma_total_absent(b: Seq<AssetKind>, a: AssetKind)
    requires
        forall|i: int| 0 <= i < b.len() ==> !(#[trigger] b[i]).same_asset(a),
    ensures
        total(b, a) == 0,
    decreases b.len(),
{
    if b.len() > 0 {
        lemma_total_absent(b.drop_last(), a);
    }
}

/// Totals add up over a concatenation.
pub proof fn lemma_total_concat(x: Seq<AssetKind>, y: Seq<AssetKind>, a: AssetKind)
    ensures
        total(x + y, a) == total(x, a) + total(y, a),
    decreases y.len(),
{
    if y.len() == 0 {
        assert(x + y =~= x);
    } else {
        assert((x + y).drop_last() =~= x + y.drop_last());
        lemma_total_concat(x, y.drop_last(), a);
    }
}

/// The total of `a` in `b`, as a carry count and a low word:
/// `total == hi * 2^128 + lo`.
pub fn total_of(b: &Vec<AssetKind>, a: &AssetKind) -> (r: (usize, u128))
    ensures
        r.0 as int * word() + r.1 as int == total(b@, *a),
{
    let n = b.len();
    let mut hi: usize = 0;
    let mut lo: u128 = 0;
    let mut i: usize = 0;
    while i < n
        invariant
            n == b@.len(),
            i <= n,
            hi <= i,
            hi as int * word() + lo as int == total(b@.take(i as int), *a),
        decreases n - i,
    {
        assert(b@.take(i + 1).drop_last() =~= b@.take(i as int));
        assert(b@.take(i + 1).last() == b@[i as int]);
        let ghost prev = hi as int * word() + lo as int;
        if b[i].is_same_asset(a) {
            let u = b[i].units_of();
            match lo.checked_add(u) {
                Some(s) => {
                    lo = s;
                },
                None => {
                    lo = u - (u128::MAX - lo) - 1;
                    hi = hi + 1;
                    assert(hi as int * word() == (hi - 1) as int * word() + word()) by (nonlinear_arith);
                },
            }
            assert(hi as int * word() + lo as int == prev + u);
        }
        i += 1;
    }
    assert(b@.take(n as int) =~= b@);
    (hi, lo)
}

/// Whether `attached` holds exactly what `required` asks for.
pub fn check_funds(attached: &Vec<AssetKind>, required: &Vec<AssetKind>) -> (r: bool)
    ensures
        r == funds_match(attached@, required@),
{
    let mut i: usize = 0;
    while i < required.len()
        invariant
            i <= required@.len(),
            forall|k: int| 0 <= k < i ==> total(attached@, #[trigger] required@[k]) == total(required@, required@[k]),
        decreases required@.len() - i,
    {
        let x = total_of(attached, &required[i]);
        let y = total_of(required, &required[i]);
        if x.0 != y.0 || x.1 != y.1 {
            proof { distinct_words(x, y); }
            assert(total(attached@, required@[i as int]) != total(required@, required@[i as int]));
            return false;
        }
        i += 1;
    }
    let mut j: usize = 0;
    while j < attached.len()
        invariant
            j <= attached@.len(),
            forall|k: int| 0 <= k < required@.len() ==> total(attached@, #[trigger] required@[k]) == total(required@, required@[k]),
            forall|k: int| 0 <= k < j ==> total(attached@, #[trigger] attached@[k]) == total(required@, attached@[k]),
        decreases attached@.len() - j,
    {
        let x = total_of(attached, &attached[j]);
        let y = total_of(required, &attached[j]);
        if x.0 != y.0 || x.1 != y.1 {
            proof { distinct_words(x, y); }
            assert(total(attached@, attached@[j as int]) != total(required@, attached@[j as int]));
            return false;
        }
        j += 1;
    }
    assert forall|a: AssetKind| #[trigger] total(attached@, a) == total(required@, a) by {
        if exists|k: int| 0 <= k < required@.len() && (#[trigger] required@[k]).same_asset(a) {
            let k = choose|k: int| 0 <= k < required@.len() && (#[trigger] required@[k]).same_asset(a);
            lemma_total_same_asset(attached@, required@[k], a);
            lemma_total_same_asset(required@, required@[k], a);
        } else if exists|k: int| 0 <= k < attached@.len() && (#[trigger] attached@[k]).same_asset(a) {
            let k = choose|k: int| 0 <= k < attached@.len() && (#[trigger] attached@[k]).same_asset(a);
            lemma_total_same_asset(attached@, attached@[k], a);
            lemma_total_same_asset(required@, attached@[k], a);
        } else {
            lemma_total_absent(attached@, a);
            lemma_total_absent(required@, a);
        }
    }
    true
}

proof fn distinct_words(x: (usize, u128), y: (usize, u128))
    requires
        x.0 != y.0 || x.1 != y.1,
    ensures
        x.0 as int * word() + x.1 as int != y.0 as int * word() + y.1 as int,
{
    if x.0 < y.0 {
        assert(x.0 as int * word() + word() <= y.0 as int * word()) by (nonlinear_arith)
            requires x.0 < y.0;
    } else if x.0 > y.0 {
        assert(y.0 as int * word() + word() <= x.0 as int * word()) by (nonlinear_arith)
            requires x.0 > y.0;
    }
}

} // verus!
