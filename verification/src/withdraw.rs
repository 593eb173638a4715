//! The withdrawal-rate reconciler and withdrawal settlement. Before any
//! claim is paid, the balance drift observed since the last reconciliation
//! is distributed across the unreleased batches up to a cutoff time,
//! proportionally to each batch's expected value, with rounding biased
//! toward vault solvency; each batch's withdraw rate is then final.

use vstd::prelude::*;
use crate::bond::saturating_sub;
use crate::effect::Effect;
use crate::error::LunaVaultError;
use crate::rate::{lemma_mul_rate_nonneg, lemma_u64_mul_fits, mul_rate, mul_rate_floor, Rate};
use crate::state::{histories_wf, Parameters, UnbondHistory, UnbondWaitEntry, VaultState};
use crate::waitlist::{finished_amount, get_finished_amount, get_unbond_batches,
    lemma_finished_purged_zero, lemma_purged_wait_amounts, purged, remove_unbond_wait_list,
    wait_amount};

verus! {

/// The first batch index at or after `lo` that no longer qualifies for
/// reconciliation: everything from `lo` up to it closed at or before the
/// cutoff time.
pub open spec fn qualifying_end(h: Seq<UnbondHistory>, lo: int, cutoff: u64) -> int
    decreases h.len() - lo,
{
    if lo < 0 || lo >= h.len() {
        lo
    } else if h[lo].time > cutoff {
        lo
    } else {
        qualifying_end(h, lo + 1, cutoff)
    }
}

/// The cutoff index stays within the table and everything before it closed
/// in time.
pub proof fn lemma_qualifying_end_bounds(h: Seq<UnbondHistory>, lo: int, cutoff: u64)
    requires
        0 <= lo <= h.len(),
    ensures
        lo <= qualifying_end(h, lo, cutoff) <= h.len(),
        forall|i: int|
            lo <= i < qualifying_end(h, lo, cutoff) ==> (#[trigger] h[i]).time <= cutoff,
        qualifying_end(h, lo, cutoff) < h.len() ==> h[qualifying_end(h, lo, cutoff)].time > cutoff,
    decreases h.len() - lo,
{
    if lo < h.len() && h[lo].time <= cutoff {
        lemma_qualifying_end_bounds(h, lo + 1, cutoff);
    }
}

/// A qualifying prefix does not move the cutoff index.
pub proof fn lemma_qualifying_end_step(h: Seq<UnbondHistory>, lo: int, cutoff: u64)
    requires
        0 <= lo < h.len(),
        h[lo].time <= cutoff,
    ensures
        qualifying_end(h, lo, cutoff) == qualifying_end(h, lo + 1, cutoff),
{
}

/// The base asset one batch is expected to redeem at its provisional rate.
pub open spec fn batch_expected(h: Seq<UnbondHistory>, k: int) -> int {
    mul_rate(h[k].amount as int, h[k].withdraw_rate)
}

/// Total expected redemption over the batch range `[lo, hi)`.
pub open spec fn expected_unbonded(h: Seq<UnbondHistory>, lo: int, hi: int) -> int
    decreases hi - lo,
{
    if hi <= lo {
        0
    } else {
        expected_unbonded(h, lo, hi - 1) + batch_expected(h, hi - 1)
    }
}

/// Partial sums of expected redemptions grow monotonically and every term
/// is bounded by the total.
pub proof fn lemma_expected_unbonded_mono(h: Seq<UnbondHistory>, lo: int, m: int, hi: int)
    requires
        lo <= m <= hi,
        forall|i: int| lo <= i < hi ==> (#[trigger] h[i]).withdraw_rate.wf(),
        0 <= lo,
        hi <= h.len(),
    ensures
        0 <= expected_unbonded(h, lo, m) <= expected_unbonded(h, lo, hi),
        forall|k: int|
            lo <= k < hi ==> #[trigger] batch_expected(h, k) <= expected_unbonded(h, lo, hi),
    decreases hi - lo,
{
    assert forall|i: int| lo <= i < hi implies 0 <= #[trigger] batch_expected(h, i) by {
        lemma_mul_rate_nonneg(h[i].amount as int, h[i].withdraw_rate);
    }
    lemma_expected_nonneg_parts(h, lo, m);
    lemma_expected_nonneg_parts(h, lo, hi);
    assert forall|k: int|
        lo <= k < hi implies #[trigger] batch_expected(h, k) <= expected_unbonded(h, lo, hi) by {
        lemma_expected_split(h, lo, k + 1, hi);
        lemma_expected_nonneg_parts(h, lo, k);
        lemma_expected_nonneg_parts(h, k + 1, hi);
    }
    lemma_expected_split(h, lo, m, hi);
    lemma_expected_nonneg_parts(h, m, hi);
}

/// A sum over a range whose terms are non-negative is non-negative.
proof fn lemma_expected_nonneg_parts(h: Seq<UnbondHistory>, lo: int, hi: int)
    requires
        forall|i: int| lo <= i < hi ==> (#[trigger] h[i]).withdraw_rate.wf(),
    ensures
        0 <= expected_unbonded(h, lo, hi),
    decreases hi - lo,
{
    if hi > lo {
        lemma_expected_nonneg_parts(h, lo, hi - 1);
        lemma_mul_rate_nonneg(h[hi - 1].amount as int, h[hi - 1].withdraw_rate);
    }
}

/// Splitting a sum at an interior point.
pub proof fn lemma_expected_split(h: Seq<UnbondHistory>, lo: int, m: int, hi: int)
    requires
        lo <= m <= hi,
    ensures
        expected_unbonded(h, lo, hi) == expected_unbonded(h, lo, m) + expected_unbonded(h, m, hi),
    decreases hi - m,
{
    if m < hi {
        lemma_expected_split(h, lo, m, hi - 1);
    }
}

/// The proportional share of the slash assigned to one batch before
/// rounding: `floor(u * |s| / t)`.
pub open spec fn slash_share(u: int, t: int, s_mag: int) -> int {
    (u * s_mag) / t
}

/// The base asset finally assigned to a batch whose expected redemption is
/// `u`, out of a range totalling `t`, under an overall signed slash `s`
/// (negative means the vault gained). A gain is rounded down by one unit and
/// added; a loss is rounded up by one unit and subtracted, saturating.
pub open spec fn reconciled_amount(u: int, t: int, s: int) -> int {
    if s < 0 {
        u + (slash_share(u, t, -s) - 1)
    } else if s == 0 {
        u
    } else {
        saturating_sub(u, slash_share(u, t, s) + 1)
    }
}

/// A reconciliation of the range `[lo, hi)` fails only when the overall
/// slash is a gain and some batch's share of it rounds to nothing.
pub open spec fn reconcile_defined(h: Seq<UnbondHistory>, lo: int, hi: int, t: int, s: int) -> bool {
    s < 0 ==> forall|k: int| lo <= k < hi ==> slash_share(#[trigger] batch_expected(h, k), t, -s) >= 1
}

/// When the slash exceeds the whole expected total, every share rounds up
/// past its batch's expected value and the assignment saturates to zero.
pub proof fn lemma_share_saturates(u: int, t: int, s: int)
    requires
        1 <= t,
        0 <= u,
        t < s,
    ensures
        reconciled_amount(u, t, s) == 0,
{
    assert(u * t <= u * s) by (nonlinear_arith)
        requires
            0 <= u,
            t <= s,
    ;
    assert((u * t) / t == u) by (nonlinear_arith)
        requires
            1 <= t,
    ;
    vstd::arithmetic::div_mod::lemma_div_is_ordered(u * t, u * s, t);
}

/// The history table after reconciling `[lo, hi)`: each batch in the range
/// carries its final withdraw rate and is released; everything else is kept.
pub open spec fn reconciled_histories(
    h: Seq<UnbondHistory>,
    lo: int,
    hi: int,
    t: int,
    s: int,
) -> Seq<UnbondHistory> {
    Seq::new(
        h.len(),
        |i: int|
            if lo <= i < hi {
                UnbondHistory {
                    withdraw_rate: Rate {
                        num: reconciled_amount(batch_expected(h, i), t, s) as u64,
                        den: h[i].amount,
                    },
                    released: true,
                    ..h[i]
                }
            } else {
                h[i]
            },
    )
}

/// Every batch's final assignment stays between zero and the funds the
/// vault actually holds for the range: `t * reconciled <= u * max(t - s, 0)`.
pub proof fn lemma_reconciled_bound(u: int, t: int, s: int)
    requires
        1 <= t,
        0 <= u <= t,
        s < 0 ==> slash_share(u, t, -s) >= 1,
    ensures
        0 <= reconciled_amount(u, t, s),
        t * reconciled_amount(u, t, s) <= u * (if t - s >= 0 {
            t - s
        } else {
            0
        }),
        reconciled_amount(u, t, s) <= (if t - s >= 0 {
            t - s
        } else {
            0
        }),
{
    let a = if t - s >= 0 {
        t - s
    } else {
        0
    };
    if s < 0 {
        let m = -s;
        let sh = slash_share(u, t, m);
        assert(t * sh <= u * m && 0 <= sh) by (nonlinear_arith)
            requires
                1 <= t,
                0 <= u,
                0 <= m,
                sh == (u * m) / t,
        ;
        assert(t * (u + sh - 1) <= u * (t + m)) by (nonlinear_arith)
            requires
                1 <= t,
                t * sh <= u * m,
        ;
        assert(reconciled_amount(u, t, s) == u + sh - 1);
        assert(a == t + m);
    } else if s == 0 {
        assert(t * u <= u * t) by (nonlinear_arith);
    } else {
        let sh = slash_share(u, t, s);
        assert(u * s - t < t * sh && t * sh <= u * s && 0 <= sh) by (nonlinear_arith)
            requires
                1 <= t,
                0 <= u,
                0 <= s,
                sh == (u * s) / t,
        ;
        let rec = reconciled_amount(u, t, s);
        if u >= sh + 1 {
            assert(rec == u - sh - 1);
            assert(t * (u - sh - 1) <= u * (t - s)) by (nonlinear_arith)
                requires
                    1 <= t,
                    u * s - t < t * sh,
            ;
            assert(u * (t - s) <= u * a) by (nonlinear_arith)
                requires
                    0 <= u,
                    t - s <= a,
            ;
        } else {
            assert(rec == 0);
            assert(u * a >= 0) by (nonlinear_arith)
                requires
                    0 <= u,
                    0 <= a,
            ;
        }
    }
    // The per-batch cap follows from the proportional bound and `u <= t`.
    let rec = reconciled_amount(u, t, s);
    assert(u * a <= t * a) by (nonlinear_arith)
        requires
            0 <= a,
            u <= t,
    ;
    assert(rec <= a) by (nonlinear_arith)
        requires
            1 <= t,
            t * rec <= t * a,
    ;
}

/// The base asset finally assigned to the whole reconciled range.
pub open spec fn reconciled_sum(h: Seq<UnbondHistory>, lo: int, hi: int, t: int, s: int) -> int
    decreases hi - lo,
{
    if hi <= lo {
        0
    } else {
        reconciled_sum(h, lo, hi - 1, t, s) + reconciled_amount(batch_expected(h, hi - 1), t, s)
    }
}

/// Partial sums of the assignments stay proportionally covered:
/// `t * sum <= expected * max(t - s, 0)`.
proof fn lemma_reconciled_sum_bound(
    h: Seq<UnbondHistory>,
    lo: int,
    m: int,
    hi: int,
    t: int,
    s: int,
)
    requires
        0 <= lo <= m <= hi <= h.len(),
        forall|i: int| lo <= i < hi ==> (#[trigger] h[i]).withdraw_rate.wf(),
        t == expected_unbonded(h, lo, hi),
        1 <= t,
        reconcile_defined(h, lo, hi, t, s),
    ensures
        t * reconciled_sum(h, lo, m, t, s) <= expected_unbonded(h, lo, m) * (if t - s >= 0 {
            t - s
        } else {
            0
        }),
    decreases m - lo,
{
    let a = if t - s >= 0 {
        t - s
    } else {
        0
    };
    if m == lo {
        assert(t * 0 == 0) by (nonlinear_arith);
    } else {
        lemma_reconciled_sum_bound(h, lo, m - 1, hi, t, s);
        let u = batch_expected(h, m - 1);
        lemma_expected_unbonded_mono(h, lo, m, hi);
        lemma_reconciled_bound(u, t, s);
        let prior = reconciled_sum(h, lo, m - 1, t, s);
        let rec = reconciled_amount(u, t, s);
        assert(t * (prior + rec) == t * prior + t * rec) by (nonlinear_arith);
        assert(expected_unbonded(h, lo, m - 1) * a + u * a == (expected_unbonded(h, lo, m - 1) + u)
            * a) by (nonlinear_arith);
    }
}

/// Reconciliation never assigns the batches more, in total, than the base
/// asset the vault actually gained for them: whatever the sign of the
/// slash, the sum of the final per-batch amounts is covered by the
/// available funds.
pub proof fn lemma_reconciliation_solvent(
    h: Seq<UnbondHistory>,
    lo: int,
    hi: int,
    t: int,
    s: int,
)
    requires
        0 <= lo <= hi <= h.len(),
        forall|i: int| lo <= i < hi ==> (#[trigger] h[i]).withdraw_rate.wf(),
        t == expected_unbonded(h, lo, hi),
        1 <= t,
        reconcile_defined(h, lo, hi, t, s),
    ensures
        reconciled_sum(h, lo, hi, t, s) <= (if t - s >= 0 {
            t - s
        } else {
            0
        }),
{
    let a = if t - s >= 0 {
        t - s
    } else {
        0
    };
    lemma_reconciled_sum_bound(h, lo, hi, hi, t, s);
    assert(reconciled_sum(h, lo, hi, t, s) <= a) by (nonlinear_arith)
        requires
            1 <= t,
            t * reconciled_sum(h, lo, hi, t, s) <= t * a,
    ;
}

/// The withdraw rates a reconciliation stores are exactly the per-batch
/// assignments over the batch totals: nothing is lost in the narrowing.
pub proof fn lemma_reconciled_rates_exact(h: Seq<UnbondHistory>, lo: int, hi: int, t: int, s: int)
    requires
        0 <= lo <= hi <= h.len(),
        forall|i: int| lo <= i < hi ==> (#[trigger] h[i]).withdraw_rate.wf(),
        t == expected_unbonded(h, lo, hi),
        1 <= t,
        t - s <= u64::MAX as int,
        reconcile_defined(h, lo, hi, t, s),
    ensures
        forall|k: int|
            lo <= k < hi ==> (#[trigger] reconciled_histories(h, lo, hi, t, s)[k]).withdraw_rate.num
                == reconciled_amount(batch_expected(h, k), t, s),
{
    lemma_expected_unbonded_mono(h, lo, hi, hi);
    assert forall|k: int|
        lo <= k < hi implies (#[trigger] reconciled_histories(h, lo, hi, t, s)[k]).withdraw_rate.num
        == reconciled_amount(batch_expected(h, k), t, s) by {
        lemma_mul_rate_nonneg(h[k].amount as int, h[k].withdraw_rate);
        lemma_reconciled_bound(batch_expected(h, k), t, s);
    }
}

/// The first batch the reconciler will look at.
pub open spec fn reconcile_lo(state: VaultState) -> int {
    state.last_processed_batch as int
}

/// One past the last batch the reconciler will process.
pub open spec fn reconcile_hi(state: VaultState, h: Seq<UnbondHistory>, cutoff: u64) -> int {
    qualifying_end(h, reconcile_lo(state), cutoff)
}

/// Expected redemption of the whole range about to be reconciled.
pub open spec fn reconcile_total(state: VaultState, h: Seq<UnbondHistory>, cutoff: u64) -> int {
    expected_unbonded(h, reconcile_lo(state), reconcile_hi(state, h, cutoff))
}

/// The base asset actually available for the range: the accumulated drift
/// plus the balance change observed since the last reconciliation.
pub open spec fn reconcile_available(state: VaultState, balance: u64) -> int {
    state.actual_unbonded_amount + balance - state.prev_vault_balance
}

/// The overall signed slash: expected minus available. Negative means the
/// vault gained.
pub open spec fn reconcile_slash(
    state: VaultState,
    h: Seq<UnbondHistory>,
    cutoff: u64,
    balance: u64,
) -> int {
    reconcile_total(state, h, cutoff) - reconcile_available(state, balance)
}

/// Batches before the processing pointer are exactly the released ones.
pub open spec fn released_prefix(h: Seq<UnbondHistory>, last_processed: u64) -> bool {
    forall|i: int| 0 <= i < h.len() ==> ((#[trigger] h[i]).released <==> i < last_processed)
}

/// Distributes the balance drift observed since the last reconciliation
/// over the unreleased batches closed at or before `historical_time`,
/// proportionally to each batch's expected redemption, rounding each share
/// toward vault solvency; every processed batch gets its final withdraw
/// rate and is released. The drift accumulator is then reset.
#[verifier::loop_isolation(false)]
pub fn _process_withdraw_rate(
    state: &mut VaultState,
    histories: &mut Vec<UnbondHistory>,
    historical_time: u64,
    vault_balance: u64,
) -> (r: Result<(), LunaVaultError>)
    requires
        old(state).wf(),
        histories_wf(old(histories)@),
        old(state).last_processed_batch <= old(histories)@.len(),
        released_prefix(old(histories)@, old(state).last_processed_batch),
        -(u64::MAX as int) <= reconcile_available(*old(state), vault_balance) <= u64::MAX as int,
        reconcile_total(*old(state), old(histories)@, historical_time) <= u64::MAX,
        reconcile_hi(*old(state), old(histories)@, historical_time) > reconcile_lo(*old(state))
            ==> reconcile_total(*old(state), old(histories)@, historical_time) >= 1,
        forall|k: int|
            reconcile_lo(*old(state)) <= k < reconcile_hi(
                *old(state),
                old(histories)@,
                historical_time,
            ) ==> (#[trigger] old(histories)@[k]).amount >= 1,
    ensures
        final(state).wf(),
        histories_wf(final(histories)@),
        final(histories)@.len() == old(histories)@.len(),
        released_prefix(final(histories)@, final(state).last_processed_batch),
        match r {
            Err(LunaVaultError::ArithmeticInvariantViolation) => {
                &&& reconcile_hi(*old(state), old(histories)@, historical_time) > reconcile_lo(
                    *old(state),
                )
                &&& reconcile_slash(*old(state), old(histories)@, historical_time, vault_balance)
                    < 0
                &&& !reconcile_defined(
                    old(histories)@,
                    reconcile_lo(*old(state)),
                    reconcile_hi(*old(state), old(histories)@, historical_time),
                    reconcile_total(*old(state), old(histories)@, historical_time),
                    reconcile_slash(*old(state), old(histories)@, historical_time, vault_balance),
                )
                &&& *final(state) == *old(state)
                &&& final(histories)@ == old(histories)@
            },
            Err(_) => false,
            Ok(()) => {
                &&& reconcile_defined(
                    old(histories)@,
                    reconcile_lo(*old(state)),
                    reconcile_hi(*old(state), old(histories)@, historical_time),
                    reconcile_total(*old(state), old(histories)@, historical_time),
                    reconcile_slash(*old(state), old(histories)@, historical_time, vault_balance),
                )
                &&& final(histories)@ == reconciled_histories(
                    old(histories)@,
                    reconcile_lo(*old(state)),
                    reconcile_hi(*old(state), old(histories)@, historical_time),
                    reconcile_total(*old(state), old(histories)@, historical_time),
                    reconcile_slash(*old(state), old(histories)@, historical_time, vault_balance),
                )
                &&& final(state).last_processed_batch == reconcile_hi(
                    *old(state),
                    old(histories)@,
                    historical_time,
                )
                &&& *final(state) == (VaultState {
                    last_processed_batch: final(state).last_processed_batch,
                    actual_unbonded_amount: 0,
                    ..*old(state)
                })
            },
        },
{
    let ghost h0 = old(histories)@;
    let ghost lo_g: int = old(state).last_processed_batch as int;
    let ghost hi_g: int = reconcile_hi(*old(state), h0, historical_time);
    let ghost t_g: int = reconcile_total(*old(state), h0, historical_time);
    let ghost a_g: int = reconcile_available(*old(state), vault_balance);
    let ghost s_g: int = t_g - a_g;

    proof {
        lemma_qualifying_end_bounds(h0, lo_g, historical_time);
    }

    let len: usize = histories.len();
    let lo: usize = state.last_processed_batch as usize;

    // First pass: walk the unreleased batches closed in time and total what
    // they were expected to redeem.
    let mut hi: usize = lo;
    let mut total: u64 = 0;
    while hi < len && histories[hi].time <= historical_time && !histories[hi].released
        invariant
            lo <= hi <= len,
            histories@ == h0,
            qualifying_end(h0, hi as int, historical_time) == hi_g,
            hi <= hi_g,
            total == expected_unbonded(h0, lo as int, hi as int),
        decreases len - hi,
    {
        proof {
            lemma_qualifying_end_step(h0, hi as int, historical_time);
            lemma_qualifying_end_bounds(h0, hi as int + 1, historical_time);
            lemma_expected_unbonded_mono(h0, lo as int, hi as int + 1, hi_g);
        }
        let u: u64 = mul_rate_floor(histories[hi].amount, histories[hi].withdraw_rate);
        total = total + u;
        hi = hi + 1;
    }
    proof {
        // The scan stopped either at the end of the table or at the first
        // batch that closed after the cutoff; released batches cannot be
        // reached because they form exactly the prefix already processed.
        assert(hi == hi_g);
        assert(total == t_g);
    }

    let available: i128 = state.actual_unbonded_amount + vault_balance as i128
        - state.prev_vault_balance as i128;
    proof {
        assert(available == a_g);
    }

    if hi > lo {
        let slash: i128 = total as i128 - available;
        proof {
            assert(slash == s_g);
            lemma_expected_unbonded_mono(h0, lo as int, hi as int, hi as int);
        }
        if slash < 0 {
            // A gain is distributed only if every batch's share of it
            // amounts to at least one unit; otherwise the whole
            // reconciliation fails before anything is written.
            let mag: u64 = (-slash) as u64;
            let mut k: usize = lo;
            while k < hi
                invariant
                    lo <= k <= hi,
                    histories@ == h0,
                    forall|j: int|
                        lo_g <= j < k ==> slash_share(#[trigger] batch_expected(h0, j), t_g, -s_g)
                            >= 1,
                decreases hi - k,
            {
                proof {
                    assert(batch_expected(h0, k as int) <= expected_unbonded(
                        h0,
                        lo as int,
                        hi as int,
                    ));
                }
                let u: u64 = mul_rate_floor(histories[k].amount, histories[k].withdraw_rate);
                proof {
                    lemma_u64_mul_fits(u, mag);
                }
                let share: u128 = (u as u128) * (mag as u128) / (total as u128);
                if share == 0 {
                    proof {
                        assert(slash_share(batch_expected(h0, k as int), t_g, -s_g) == 0);
                        assert(!reconcile_defined(h0, lo_g, hi_g, t_g, s_g));
                    }
                    return Err(LunaVaultError::ArithmeticInvariantViolation);
                }
                k = k + 1;
            }
        }
        proof {
            assert(reconcile_defined(h0, lo_g, hi_g, t_g, s_g));
        }

        // Second pass: assign each batch its share of the slash, fix its
        // final withdraw rate, and release it.
        let mut k: usize = lo;
        while k < hi
            invariant
                lo <= k <= hi,
                histories@.len() == h0.len(),
                forall|i: int|
                    0 <= i < h0.len() && !(lo_g <= i < k) ==> histories@[i] == h0[i],
                forall|i: int|
                    lo_g <= i < k ==> histories@[i] == reconciled_histories(
                        h0,
                        lo_g,
                        hi_g,
                        t_g,
                        s_g,
                    )[i],
            decreases hi - k,
        {
            let ghost u_g: int = batch_expected(h0, k as int);
            proof {
                assert(u_g <= expected_unbonded(h0, lo as int, hi as int));
                lemma_reconciled_bound(u_g, t_g, s_g);
            }
            let u: u64 = mul_rate_floor(histories[k].amount, histories[k].withdraw_rate);
            let actual_of_batch: u64;
            if slash < 0 {
                let mag: u64 = (-slash) as u64;
                proof {
                    lemma_u64_mul_fits(u, mag);
                    assert(slash_share(u_g, t_g, -s_g) >= 1);
                }
                let share: u128 = (u as u128) * (mag as u128) / (total as u128) - 1;
                proof {
                    assert(share == slash_share(u_g, t_g, -s_g) - 1);
                    assert(u + share == reconciled_amount(u_g, t_g, s_g));
                }
                actual_of_batch = u + (share as u64);
            } else if slash == 0 {
                actual_of_batch = u;
            } else if available < 0 {
                // The loss exceeds everything the range was expected to
                // redeem: every share rounds up past its batch's expected
                // value and the assignment saturates.
                proof {
                    lemma_share_saturates(u_g, t_g, s_g);
                }
                actual_of_batch = 0;
            } else {
                let s64: u64 = slash as u64;
                proof {
                    lemma_u64_mul_fits(u, s64);
                }
                let p: u128 = (u as u128) * (s64 as u128);
                proof {
                    assert(p / (total as u128) <= p) by (nonlinear_arith)
                        requires
                            1 <= total as u128,
                    ;
                }
                let share: u128 = p / (total as u128) + 1;
                proof {
                    assert(share == slash_share(u_g, t_g, s_g) + 1);
                }
                actual_of_batch = if (u as u128) >= share {
                    u - (share as u64)
                } else {
                    0
                };
            }
            let prior_batch_id: u64 = histories[k].batch_id;
            let prior_time: u64 = histories[k].time;
            let prior_amount: u64 = histories[k].amount;
            let prior_applied: Rate = histories[k].applied_exchange_rate;
            histories.set(
                k,
                UnbondHistory {
                    batch_id: prior_batch_id,
                    time: prior_time,
                    amount: prior_amount,
                    applied_exchange_rate: prior_applied,
                    withdraw_rate: Rate { num: actual_of_batch, den: prior_amount },
                    released: true,
                },
            );
            k = k + 1;
        }
        proof {
            assert(histories@ =~= reconciled_histories(h0, lo_g, hi_g, t_g, s_g));
        }
        state.last_processed_batch = hi as u64;
    } else {
        proof {
            assert(histories@ =~= reconciled_histories(h0, lo_g, hi_g, t_g, s_g));
        }
    }
    state.actual_unbonded_amount = 0;
    Ok(())
}

/// The reconciliation cutoff for a withdrawal at time `now`: batches closed
/// within the unbonding period are not yet payable.
pub open spec fn settle_cutoff(now: u64, params: Parameters) -> u64 {
    (now - params.unbonding_period) as u64
}

/// The history table as a withdrawal at time `now` will leave it.
pub open spec fn post_reconcile_histories(
    state: VaultState,
    h: Seq<UnbondHistory>,
    cutoff: u64,
    balance: u64,
) -> Seq<UnbondHistory> {
    reconciled_histories(
        h,
        reconcile_lo(state),
        reconcile_hi(state, h, cutoff),
        reconcile_total(state, h, cutoff),
        reconcile_slash(state, h, cutoff, balance),
    )
}

/// Settles a withdrawal: reconciles the batches released by now, sums the
/// caller's claims across them at the finalized rates, deletes the consumed
/// claims, records the balance the vault will keep, and schedules the
/// payout. Fails, leaving every record untouched, when nothing is
/// withdrawable or when the payout is not covered by the live balance.
#[verifier::loop_isolation(false)]
pub fn execute_withdraw_unbonded(
    state: &mut VaultState,
    histories: &mut Vec<UnbondHistory>,
    wait_list: &mut Vec<UnbondWaitEntry>,
    params: &Parameters,
    sender: &String,
    now: u64,
    vault_balance: u64,
) -> (r: Result<Vec<Effect>, LunaVaultError>)
    requires
        old(state).wf(),
        histories_wf(old(histories)@),
        old(state).last_processed_batch <= old(histories)@.len(),
        released_prefix(old(histories)@, old(state).last_processed_batch),
        params.unbonding_period <= now,
        -(u64::MAX as int) <= reconcile_available(*old(state), vault_balance) <= u64::MAX as int,
        reconcile_total(*old(state), old(histories)@, settle_cutoff(now, *params)) <= u64::MAX,
        reconcile_hi(*old(state), old(histories)@, settle_cutoff(now, *params)) > reconcile_lo(
            *old(state),
        ) ==> reconcile_total(*old(state), old(histories)@, settle_cutoff(now, *params)) >= 1,
        forall|k: int|
            reconcile_lo(*old(state)) <= k < reconcile_hi(
                *old(state),
                old(histories)@,
                settle_cutoff(now, *params),
            ) ==> (#[trigger] old(histories)@[k]).amount >= 1,
        finished_amount(
            old(wait_list)@,
            post_reconcile_histories(
                *old(state),
                old(histories)@,
                settle_cutoff(now, *params),
                vault_balance,
            ),
            sender@,
        ) <= u64::MAX,
    ensures
        final(state).wf(),
        histories_wf(final(histories)@),
        released_prefix(final(histories)@, final(state).last_processed_batch),
        ({
            let cutoff = settle_cutoff(now, *params);
            let post_h = post_reconcile_histories(
                *old(state),
                old(histories)@,
                cutoff,
                vault_balance,
            );
            let payout = finished_amount(old(wait_list)@, post_h, sender@);
            let defined = reconcile_defined(
                old(histories)@,
                reconcile_lo(*old(state)),
                reconcile_hi(*old(state), old(histories)@, cutoff),
                reconcile_total(*old(state), old(histories)@, cutoff),
                reconcile_slash(*old(state), old(histories)@, cutoff, vault_balance),
            );
            let unchanged = *final(state) == *old(state) && final(histories)@ == old(histories)@
                && final(wait_list)@ == old(wait_list)@;
            match r {
                Err(LunaVaultError::ArithmeticInvariantViolation) => unchanged && (!defined || (
                defined && payout > vault_balance)),
                Err(LunaVaultError::NoWithdrawableAssetsAvailable(d)) => unchanged && defined
                    && payout == 0 && d@ == params.underlying_coin_denom@,
                Err(_) => false,
                Ok(effects) => {
                    &&& defined
                    &&& 1 <= payout <= vault_balance
                    &&& final(histories)@ == post_h
                    &&& finished_amount(final(wait_list)@, final(histories)@, sender@) == 0
                    &&& forall|b: u64, u: Seq<char>|
                        u != sender@ ==> wait_amount(final(wait_list)@, b, u) == wait_amount(
                            old(wait_list)@,
                            b,
                            u,
                        )
                    &&& final(state).prev_vault_balance == vault_balance - payout
                    &&& final(state).last_processed_batch == reconcile_hi(
                        *old(state),
                        old(histories)@,
                        cutoff,
                    )
                    &&& *final(state) == (VaultState {
                        prev_vault_balance: final(state).prev_vault_balance,
                        last_processed_batch: final(state).last_processed_batch,
                        actual_unbonded_amount: 0,
                        ..*old(state)
                    })
                    &&& effects@.len() == 1
                    &&& effects@[0] matches Effect::Send { to, denom, amount } && to@ == sender@
                        && denom@ == params.underlying_coin_denom@ && amount == payout
                },
            }
        }),
{
    let ghost h0 = old(histories)@;
    let historical_time: u64 = now - params.unbonding_period;

    // Snapshot everything the reconciler may touch, so a failure after it
    // can leave the records exactly as they were: the whole settlement is
    // atomic.
    let saved_last_processed: u64 = state.last_processed_batch;
    let saved_actual: i128 = state.actual_unbonded_amount;
    let len: usize = histories.len();
    let lo: usize = state.last_processed_batch as usize;
    let mut saved: Vec<UnbondHistory> = Vec::new();
    let mut i: usize = lo;
    while i < len
        invariant
            lo <= i <= len,
            histories@ == h0,
            saved@.len() == i - lo,
            forall|j: int| lo <= j < i ==> saved@[j - lo] == h0[j],
        decreases len - i,
    {
        saved.push(histories[i]);
        i = i + 1;
    }

    match _process_withdraw_rate(state, histories, historical_time, vault_balance) {
        Ok(()) => (),
        Err(e) => {
            return Err(e);
        },
    }

    let withdraw_amount: u64 = get_finished_amount(wait_list, histories, sender);

    if withdraw_amount == 0 || withdraw_amount > vault_balance {
        // Undo the reconciliation: an aborted settlement commits nothing.
        let mut k: usize = lo;
        while k < len
            invariant
                lo <= k <= len,
                histories@.len() == len,
                saved@.len() == len - lo,
                forall|j: int| lo <= j < len ==> saved@[j - lo] == h0[j],
                forall|j: int| 0 <= j < lo ==> histories@[j] == h0[j],
                forall|j: int| lo <= j < k ==> histories@[j] == h0[j],
            decreases len - k,
        {
            histories.set(k, saved[k - lo]);
            k = k + 1;
        }
        proof {
            assert(histories@ =~= h0);
        }
        state.last_processed_batch = saved_last_processed;
        state.actual_unbonded_amount = saved_actual;
        if withdraw_amount == 0 {
            return Err(
                LunaVaultError::NoWithdrawableAssetsAvailable(
                    params.underlying_coin_denom.clone(),
                ),
            );
        }
        return Err(LunaVaultError::ArithmeticInvariantViolation);
    }

    // Consume the caller's claims on the batches just paid.
    let deprecated_batches: Vec<u64> = get_unbond_batches(wait_list, histories, sender);
    let ghost wait0 = wait_list@;
    remove_unbond_wait_list(wait_list, &deprecated_batches, sender);
    proof {
        lemma_finished_purged_zero(wait0, histories@, sender@, deprecated_batches@);
        assert forall|b: u64, u: Seq<char>| u != sender@ implies wait_amount(wait_list@, b, u)
            == wait_amount(wait0, b, u) by {
            lemma_purged_wait_amounts(wait0, sender@, deprecated_batches@, b, u);
        }
    }

    // The next reconciliation must see only drift, not this payout.
    state.prev_vault_balance = vault_balance - withdraw_amount;

    let mut effects: Vec<Effect> = Vec::new();
    effects.push(
        Effect::Send {
            to: sender.clone(),
            denom: params.underlying_coin_denom.clone(),
            amount: withdraw_amount,
        },
    );
    Ok(effects)
}

} // verus!
