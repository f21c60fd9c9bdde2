//! The share of announced nodes that support onion messages, in tenths of a
//! percent, computed in integers so that an empty graph is well defined.

use vstd::arithmetic::div_mod::lemma_fundamental_div_mod;
use vstd::arithmetic::div_mod::lemma_mod_bound;
use vstd::prelude::*;

verus! {

/// The share `support / total` as tenths of a percent, rounded to the nearest
/// tenth with halves rounded up. An empty total gives `0`.
pub open spec fn share_tenths_spec(support: nat, total: nat) -> nat {
    if total == 0 {
        0
    } else {
        (2000 * support + total) / (2 * total)
    }
}

/// Computes the share of `support` in `total` in tenths of a percent.
///
/// With `total == 0` the result is `0`: there is nothing to divide by, and the
/// page then shows `0.0%`.
pub fn share_tenths(support: usize, total: usize) -> (tenths: u128)
    ensures
        tenths == share_tenths_spec(support as nat, total as nat),
        total == 0 ==> tenths == 0,
        total > 0 ==> 2 * (total * tenths) <= 2000 * support + total < 2 * (total * tenths) + 2
            * total,
{
    if total == 0 {
        return 0;
    }
    let s: u128 = support as u128;
    let t: u128 = total as u128;
    proof {
        lemma_share_is_nearest_tenth(support as nat, total as nat);
        let r = share_tenths_spec(support as nat, total as nat);
        assert(r * total == total * r) by (nonlinear_arith);
    }
    (2000 * s + t) / (2 * t)
}

/// For a total that is not empty the share is the tenth of a percent nearest
/// to `1000 * support / total`: twice the distance between the two is at most
/// the total, and a share exactly between two tenths goes to the upper one.
pub proof fn lemma_share_is_nearest_tenth(support: nat, total: nat)
    requires
        total > 0,
    ensures
        -(total as int) <= 2 * (1000 * support - share_tenths_spec(support, total) * total) < total,
{
    let x: int = (2000 * support + total) as int;
    let d: int = (2 * total) as int;
    lemma_fundamental_div_mod(x, d);
    lemma_mod_bound(x, d);
    let r: int = x / d;
    assert(r == share_tenths_spec(support, total));
    assert(d * r == 2 * (r * total)) by (nonlinear_arith)
        requires
            d == 2 * total,
    ;
}

/// While the supporting nodes are no more than the total, the share is at
/// most a hundred percent.
pub proof fn lemma_share_at_most_hundred(support: nat, total: nat)
    requires
        support <= total,
    ensures
        share_tenths_spec(support, total) <= 1000,
{
    if total > 0 {
        lemma_share_is_nearest_tenth(support, total);
        let r = share_tenths_spec(support, total);
        if r >= 1001 {
            assert(r * total >= 1001 * total) by (nonlinear_arith)
                requires
                    r >= 1001,
                    total > 0,
            ;
        }
    }
}

/// Without any announced node the share is zero, whatever the other count.
pub proof fn lemma_share_of_empty_total(support: nat)
    ensures
        share_tenths_spec(support, 0) == 0,
{
}

} // verus!
