//! Properties that relate several operations of the engine.
use vstd::prelude::*;
use vstd::arithmetic::div_mod::{lemma_div_is_ordered, lemma_div_by_multiple, lemma_fundamental_div_mod, lemma_fundamental_div_mod_converse, lemma_div_pos_is_pos, lemma_mod_pos_bound};
use crate::error::LendingError;
use crate::fx::{lemma_pow10_positive, pow10, fx_mul, fx_of, fx_div, fx_floor_u64, fx_floor, bps_raw, ceil_raw, div_raw, fits, floor_raw, fx_one, int_part, lemma_mul_raw_grows, lemma_pow_at_least_one, mul_raw, scale, trunc_div, Fx, Price};
use crate::reserve::{market_value_spec, accrue_spec, borrow_amount_spec, borrow_liquidity_spec, min_u64, borrow_rate_spec, compound_spec, deposit_spec, redeem_spec, refresh_spec, repay_liquidity_spec, utilization_spec, Reserve, ReserveLiquidity, SLOTS_PER_YEAR};

verus! {

proof fn lemma_mul_raw_nonneg(a: int, b: int)
    requires
        a >= 0,
        b >= 0,
    ensures
        mul_raw(a, b) >= 0,
{
    assert(a * b >= 0) by (nonlinear_arith)
        requires a >= 0, b >= 0;
    lemma_div_pos_is_pos(a * b, scale());
}

proof fn lemma_div_raw_nonneg(a: int, b: int)
    requires
        a >= 0,
        b > 0,
    ensures
        div_raw(a, b) >= 0,
{
    assert(a * scale() >= 0) by (nonlinear_arith)
        requires a >= 0, scale() == 281474976710656;
    lemma_div_pos_is_pos(a * scale(), b);
}

proof fn lemma_bps_nonneg(b: int)
    requires
        b >= 0,
    ensures
        bps_raw(b) >= 0,
{
    assert(b * scale() >= 0) by (nonlinear_arith)
        requires b >= 0, scale() == 281474976710656;
    assert(10000 * scale() > 0);
    lemma_div_raw_nonneg(b * scale(), 10000 * scale());
    assert(bps_raw(b) == trunc_div(b * scale() * scale(), 10000 * scale()));
}

/// The borrow rate is never negative.
pub proof fn lemma_borrow_rate_nonneg(r: Reserve)
    ensures
        borrow_rate_spec(r) matches Ok(rate) ==> rate.raw() >= 0,
{
    let l = r.liquidity;
    let c = r.config;
    if l.available_amount > 0 {
        assert(l.borrowed_amount * scale() >= 0) by (nonlinear_arith)
            requires l.borrowed_amount >= 0, scale() == 281474976710656;
        assert(l.available_amount * scale() > 0) by (nonlinear_arith)
            requires l.available_amount > 0, scale() == 281474976710656;
        lemma_div_raw_nonneg(l.borrowed_amount * scale(), l.available_amount * scale());
    }
    lemma_bps_nonneg(c.optimal_utilization_rate_bps as int);
    lemma_bps_nonneg(c.min_borrow_rate_bps as int);
    lemma_bps_nonneg(c.optimal_borrow_rate_bps as int);
    if c.optimal_borrow_rate_bps >= c.min_borrow_rate_bps {
        lemma_bps_nonneg(c.optimal_borrow_rate_bps - c.min_borrow_rate_bps);
    }
    if c.max_borrow_rate_bps >= c.optimal_borrow_rate_bps {
        lemma_bps_nonneg(c.max_borrow_rate_bps - c.optimal_borrow_rate_bps);
    }
    if 10000 >= c.optimal_utilization_rate_bps {
        lemma_bps_nonneg(10000 - c.optimal_utilization_rate_bps);
    }
    if let Ok(u) = utilization_spec(l) {
        let opt = bps_raw(c.optimal_utilization_rate_bps as int);
        if u.raw() >= 0 && opt > 0 {
            lemma_div_raw_nonneg(u.raw(), opt);
            let n = div_raw(u.raw(), opt);
            if c.optimal_borrow_rate_bps >= c.min_borrow_rate_bps {
                lemma_mul_raw_nonneg(n, bps_raw(c.optimal_borrow_rate_bps - c.min_borrow_rate_bps));
            }
        }
        if u.raw() >= opt && 10000 > c.optimal_utilization_rate_bps {
            let rest = bps_raw(10000 - c.optimal_utilization_rate_bps);
            if rest > 0 {
                lemma_div_raw_nonneg(u.raw() - opt, rest);
                let n = div_raw(u.raw() - opt, rest);
                if c.max_borrow_rate_bps >= c.optimal_borrow_rate_bps {
                    lemma_mul_raw_nonneg(n, bps_raw(c.max_borrow_rate_bps - c.optimal_borrow_rate_bps));
                }
            }
        }
    }
}

/// Compounding interest never shrinks the cumulative borrow index: a successful accrual
/// leaves it at least where it was.
pub proof fn law_borrow_index_non_decreasing(r: Reserve, slot: u64)
    requires
        r.liquidity.cumulative_borrow_index.raw() >= 0,
    ensures
        accrue_spec(r, slot) matches Ok(n) ==> n.liquidity.cumulative_borrow_index.raw() >= r.liquidity.cumulative_borrow_index.raw(),
{
    if slot > r.last_update.slot {
        lemma_borrow_rate_nonneg(r);
        if let Ok(rate) = borrow_rate_spec(r) {
            let year = crate::fx::fx_of(SLOTS_PER_YEAR as int);
            assert(year.raw() == SLOTS_PER_YEAR * scale());
            lemma_div_raw_nonneg(rate.raw(), year.raw());
            if let Ok(per_slot) = crate::fx::fx_div(rate, year) {
                if let Ok(base) = crate::fx::fx_add(fx_one(), per_slot) {
                    lemma_pow_at_least_one(base.raw(), (slot - r.last_update.slot) as nat);
                    if let Ok(factor) = compound_spec(rate, (slot - r.last_update.slot) as u64) {
                        let idx = r.liquidity.cumulative_borrow_index.raw();
                        lemma_mul_raw_grows(idx, factor.raw());
                        assert(factor.raw() * idx == idx * factor.raw()) by (nonlinear_arith);
                    }
                }
            }
        }
    }
}

/// A refresh never shrinks the cumulative borrow index either.
pub proof fn law_refresh_index_non_decreasing(r: Reserve, price: Price, slot: u64)
    requires
        r.liquidity.cumulative_borrow_index.raw() >= 0,
    ensures
        refresh_spec(r, price, slot) matches Ok(n) ==> n.liquidity.cumulative_borrow_index.raw() >= r.liquidity.cumulative_borrow_index.raw(),
{
    if let Ok(p) = crate::fx::price_to_fx_spec(price) {
        let priced = Reserve { liquidity: ReserveLiquidity { market_price: p, ..r.liquidity }, ..r };
        law_borrow_index_non_decreasing(priced, slot);
    }
}

/// Refreshing twice in one slot with the same price changes nothing the second time.
pub proof fn law_refresh_idempotent(r: Reserve, price: Price, slot: u64)
    ensures
        refresh_spec(r, price, slot) matches Ok(n) ==> refresh_spec(n, price, slot) == Ok::<Reserve, LendingError>(n),
{
    if let Ok(n) = refresh_spec(r, price, slot) {
        if let Ok(p) = crate::fx::price_to_fx_spec(price) {
            let priced = Reserve { liquidity: ReserveLiquidity { market_price: p, ..n.liquidity }, ..n };
            assert(priced.liquidity =~= n.liquidity);
            assert(priced =~= n);
            assert(accrue_spec(priced, slot) == Ok::<Reserve, LendingError>(priced));
            assert((Reserve { last_update: crate::last_update::LastUpdate { is_stale: false, slot }, ..priced }) =~= n);
        }
    }
}

/// Borrowing and then repaying the same amount restores the pool exactly.
pub proof fn law_borrow_repay_round_trip(l: ReserveLiquidity, amount: u64)
    ensures
        borrow_liquidity_spec(l, amount) matches Ok(after) ==> repay_liquidity_spec(after, amount) == Ok::<ReserveLiquidity, LendingError>(l),
{
    if let Ok(after) = borrow_liquidity_spec(l, amount) {
        assert(repay_liquidity_spec(after, amount) matches Ok(back) && back =~= l);
    }
}

proof fn lemma_whole(x: int)
    requires
        0 <= x <= u64::MAX,
    ensures
        fits(x * scale()),
        mul_raw(x * scale(), scale()) == x * scale(),
        div_raw(x * scale(), scale()) == x * scale(),
        ceil_raw(x * scale()) == x * scale(),
        floor_raw(x * scale()) == x * scale(),
        int_part(x * scale()) == x,
{
    let s = scale();
    assert(0 <= x * s <= u64::MAX * s) by (nonlinear_arith)
        requires 0 <= x <= u64::MAX, s == 281474976710656;
    assert((x * s) * s == (x * s) * s);
    lemma_div_by_multiple(x * s, s);
    lemma_div_by_multiple(x, s);
    assert(x * s + s - 1 == x * s + (s - 1));
    lemma_fundamental_div_mod_converse(x * s + s - 1, s, x, s - 1);
}

/// Into an empty pool, depositing `amount` and redeeming every receipt it minted pays
/// `amount` back and leaves the pool as it was.
pub proof fn law_deposit_redeem_round_trip(l: ReserveLiquidity, amount: u64)
    requires
        l.available_amount == 0,
        l.borrowed_amount == 0,
    ensures
        deposit_spec(l, amount, 0) matches Ok((minted, after)) && minted == amount
            && redeem_spec(after, minted, minted) == Ok::<(u64, ReserveLiquidity), LendingError>((amount, l)),
{
    let s = scale();
    let x = amount as int;
    lemma_whole(x);
    let after = ReserveLiquidity { available_amount: amount, ..l };
    assert(deposit_spec(l, amount, 0) == Ok::<(u64, ReserveLiquidity), LendingError>((amount, after)));
    if amount > 0 {
        assert(x * s > 0) by (nonlinear_arith)
            requires x > 0, s == 281474976710656;
        assert((x * s) * s == s * (x * s)) by (nonlinear_arith);
        lemma_div_by_multiple(s, x * s);
        assert(div_raw(x * s, x * s) == s);
    }
    assert(redeem_spec(after, amount, amount) matches Ok((out, back)) && out == amount && back =~= l);
}

proof fn lemma_units_within(rest: int, p: int, n: int)
    requires
        rest >= 0,
        p > 0,
        0 <= n <= ((rest * scale()) / p) / scale(),
    ensures
        n * p <= rest,
        n * scale() * p == (n * p) * scale(),
{
    let s = scale();
    let q = (rest * s) / p;
    assert(rest * s >= 0) by (nonlinear_arith)
        requires rest >= 0, s == 281474976710656;
    lemma_div_pos_is_pos(rest * s, p);
    lemma_fundamental_div_mod(rest * s, p);
    lemma_mod_pos_bound(rest * s, p);
    lemma_fundamental_div_mod(q, s);
    lemma_mod_pos_bound(q, s);
    assert(n * s <= q) by (nonlinear_arith)
        requires n <= q / s, q == s * (q / s) + q % s, q % s >= 0, s > 0;
    assert(q * p <= rest * s) by (nonlinear_arith)
        requires rest * s == p * q + (rest * s) % p, (rest * s) % p >= 0;
    assert(n * s * p <= rest * s) by (nonlinear_arith)
        requires n * s <= q, q * p <= rest * s, p > 0;
    assert(n * p <= rest) by (nonlinear_arith)
        requires n * s * p <= rest * s, s > 0;
    assert(n * scale() * p == (n * p) * scale()) by (nonlinear_arith);
}

/// A borrow of everything the remaining value buys stays within that value.
pub proof fn law_max_borrow_within_value(r: Reserve, max_value: Fx)
    requires
        max_value.raw() >= 0,
    ensures
        borrow_amount_spec(r, u64::MAX, max_value) matches Ok(n) ==> n == 0
            || (market_value_spec(n, r.liquidity.market_price, r.liquidity_mint_decimals) matches Ok(v) && v.raw() <= max_value.raw()),
{
    let p = r.liquidity.market_price.raw();
    let s = scale();
    let d = pow10(r.liquidity_mint_decimals as nat);
    let m = max_value.raw();
    if d <= u64::MAX {
        lemma_pow10_positive(r.liquidity_mint_decimals as nat);
        lemma_whole(d);
        let unit = fx_of(d);
        assert(unit.raw() == d * s);
        assert(m * (d * s) == (m * d) * s) by (nonlinear_arith);
        lemma_div_by_multiple(m * d, s);
        assert(mul_raw(m, d * s) == m * d);
        if let Ok(scaled) = fx_mul(max_value, unit) {
            assert(scaled.raw() == m * d);
            assert(m * d >= 0) by (nonlinear_arith)
                requires m >= 0, d >= 1;
            if let Ok(q) = fx_div(scaled, r.liquidity.market_price) {
                if let Ok(k) = fx_floor_u64(q) {
                    let n = min_u64(k, r.liquidity.available_amount);
                    assert(m * d * s >= 0) by (nonlinear_arith)
                        requires m * d >= 0, s == 281474976710656;
                    assert(fx_floor(q).raw() == (q.raw() / s) * s);
                    lemma_div_by_multiple(q.raw() / s, s);
                    if n > 0 && p > 0 {
                        assert(q.raw() == (m * d * s) / p);
                        assert(k == q.raw() / s);
                        lemma_units_within(m * d, p, n as int);
                        lemma_whole(n as int);
                        lemma_div_by_multiple(n * p, s);
                        assert(mul_raw(n * s, p) == n * p);
                        assert(0 <= n * p) by (nonlinear_arith)
                            requires n >= 0, p > 0;
                        assert(n * p * s <= m * d * s) by (nonlinear_arith)
                            requires n * p <= m * d, s > 0;
                        assert(d * s > 0) by (nonlinear_arith)
                            requires d >= 1, s > 0;
                        assert((n * p) * s >= 0) by (nonlinear_arith)
                            requires n * p >= 0, s > 0;
                        lemma_div_is_ordered((n * p) * s, (m * d) * s, d * s);
                        assert((m * d) * s == m * (d * s)) by (nonlinear_arith);
                        lemma_div_by_multiple(m, d * s);
                        lemma_div_pos_is_pos((n * p) * s, d * s);
                        assert(div_raw(n * p, d * s) == ((n * p) * s) / (d * s));
                    }
                    if n > 0 && p < 0 {
                        lemma_div_pos_is_pos(m * d * s, -p);
                        assert(q.raw() <= 0);
                    }
                }
            }
        }
    }
}

} // verus!
