use vstd::prelude::*;
use vstd::arithmetic::div_mod::lemma_fundamental_div_mod_converse;

verus! {

/// `pct` percent of `amount`, rounded down.
pub open spec fn percent_floor(amount: nat, pct: nat) -> nat {
    (amount * pct) / 100
}

/// A share of at most a hundred percent never exceeds the whole, and what is
/// left after taking it is not negative.
pub proof fn lemma_percent_bounded(amount: nat, pct: nat)
    requires
        pct <= 100,
    ensures
        0 <= percent_floor(amount, pct) <= amount,
        amount - percent_floor(amount, pct) >= 0,
{
    assert(amount * pct <= amount * 100) by (nonlinear_arith)
        requires
            pct <= 100,
    ;
    assert((amount * pct) / 100 <= (amount * 100) / 100) by (nonlinear_arith)
        requires
            amount * pct <= amount * 100,
    ;
    assert((amount * 100) / 100 == amount) by (nonlinear_arith);
}

/// Computes `pct` percent of `amount`, rounded down, without leaving the
/// range of the type on the way.
pub fn percent_of(amount: u128, pct: u8) -> (r: u128)
    requires
        pct <= 100,
    ensures
        r == percent_floor(amount as nat, pct as nat),
        r <= amount,
{
    let whole: u128 = amount / 100;
    let rest: u128 = amount % 100;
    let p: u128 = pct as u128;
    assert(whole * p <= amount) by (nonlinear_arith)
        requires
            whole == amount / 100,
            p <= 100,
    ;
    assert(rest * p <= 9900) by (nonlinear_arith)
        requires
            rest < 100,
            p <= 100,
    ;
    let low: u128 = (rest * p) / 100;
    proof {
        let x = amount as int * p as int;
        let q = whole as int * p as int + low as int;
        let r = (rest as int * p as int) % 100;
        assert(amount as int == 100 * whole as int + rest as int);
        assert(x == q * 100 + r) by (nonlinear_arith)
            requires
                x == amount as int * p as int,
                amount as int == 100 * whole as int + rest as int,
                q == whole as int * p as int + low as int,
                low as int == (rest as int * p as int) / 100,
                r == (rest as int * p as int) % 100,
        ;
        lemma_fundamental_div_mod_converse(x, 100, q, r);
        lemma_percent_bounded(amount as nat, pct as nat);
    }
    whole * p + low
}

} // verus!
