//! The unbond wait list: one claim per user and batch, created on an unbond
//! request and deleted once the batch is released and the user withdraws.
//! Contracts speak of the list through two sums: a user's total within one
//! batch, and a batch's total over all users.

use vstd::prelude::*;
use crate::state::{histories_wf, UnbondHistory, UnbondWaitEntry};
use crate::rate::{lemma_mul_rate_nonneg, mul_rate, mul_rate_floor};

verus! {

/// A claim is payable once its batch exists in history and is released.
pub open spec fn entry_payable(e: UnbondWaitEntry, h: Seq<UnbondHistory>) -> bool {
    1 <= e.batch_id <= h.len() && h[e.batch_id - 1].released
}

/// What one claim pays out: its amount at its batch's final withdraw rate,
/// or nothing while the batch is unreleased.
pub open spec fn entry_payout(e: UnbondWaitEntry, h: Seq<UnbondHistory>) -> int {
    if entry_payable(e, h) {
        mul_rate(e.amount as int, h[e.batch_id - 1].withdraw_rate)
    } else {
        0
    }
}

/// Everything one user can withdraw right now, over all released batches.
pub open spec fn finished_amount(
    entries: Seq<UnbondWaitEntry>,
    h: Seq<UnbondHistory>,
    user: Seq<char>,
) -> int
    decreases entries.len(),
{
    if entries.len() == 0 {
        0
    } else {
        finished_amount(entries.drop_last(), h, user) + if entries.last().user@ == user {
            entry_payout(entries.last(), h)
        } else {
            0
        }
    }
}

/// The wait list after one user's claims on the given batches are consumed.
pub open spec fn purged(
    entries: Seq<UnbondWaitEntry>,
    user: Seq<char>,
    batches: Seq<u64>,
) -> Seq<UnbondWaitEntry>
    decreases entries.len(),
{
    if entries.len() == 0 {
        Seq::empty()
    } else {
        let rest = purged(entries.drop_last(), user, batches);
        if entries.last().user@ == user && batches.contains(entries.last().batch_id) {
            rest
        } else {
            rest.push(entries.last())
        }
    }
}

/// The entry belongs to the given batch and user.
pub open spec fn entry_matches(e: UnbondWaitEntry, batch_id: u64, user: Seq<char>) -> bool {
    e.batch_id == batch_id && e.user@ == user
}

/// Total claim of one user within one batch.
pub open spec fn wait_amount(entries: Seq<UnbondWaitEntry>, batch_id: u64, user: Seq<char>) -> int
    decreases entries.len(),
{
    if entries.len() == 0 {
        0
    } else {
        wait_amount(entries.drop_last(), batch_id, user) + if entry_matches(
            entries.last(),
            batch_id,
            user,
        ) {
            entries.last().amount as int
        } else {
            0
        }
    }
}

/// Total claims of all users within one batch.
pub open spec fn batch_sum(entries: Seq<UnbondWaitEntry>, batch_id: u64) -> int
    decreases entries.len(),
{
    if entries.len() == 0 {
        0
    } else {
        batch_sum(entries.drop_last(), batch_id) + if entries.last().batch_id == batch_id {
            entries.last().amount as int
        } else {
            0
        }
    }
}

/// A user's claim within a batch never exceeds the batch total, and neither
/// sum is negative.
pub proof fn lemma_wait_sums_nonneg(entries: Seq<UnbondWaitEntry>, batch_id: u64, user: Seq<char>)
    ensures
        0 <= wait_amount(entries, batch_id, user) <= batch_sum(entries, batch_id),
    decreases entries.len(),
{
    if entries.len() > 0 {
        lemma_wait_sums_nonneg(entries.drop_last(), batch_id, user);
    }
}

/// Appending an entry adds its amount to exactly the sums it matches.
pub proof fn lemma_wait_amount_push(
    entries: Seq<UnbondWaitEntry>,
    e: UnbondWaitEntry,
    batch_id: u64,
    user: Seq<char>,
)
    ensures
        wait_amount(entries.push(e), batch_id, user) == wait_amount(entries, batch_id, user) + if entry_matches(e, batch_id, user) {
            e.amount as int
        } else {
            0
        },
        batch_sum(entries.push(e), batch_id) == batch_sum(entries, batch_id) + if e.batch_id
            == batch_id {
            e.amount as int
        } else {
            0
        },
{
    assert(entries.push(e).drop_last() =~= entries);
}

/// Replacing one entry shifts the sums by the difference of contributions.
pub proof fn lemma_wait_amount_update(
    entries: Seq<UnbondWaitEntry>,
    i: int,
    e: UnbondWaitEntry,
    batch_id: u64,
    user: Seq<char>,
)
    requires
        0 <= i < entries.len(),
    ensures
        wait_amount(entries.update(i, e), batch_id, user) == wait_amount(entries, batch_id, user)
            + (if entry_matches(e, batch_id, user) {
            e.amount as int
        } else {
            0
        }) - (if entry_matches(entries[i], batch_id, user) {
            entries[i].amount as int
        } else {
            0
        }),
        batch_sum(entries.update(i, e), batch_id) == batch_sum(entries, batch_id) + (if e.batch_id
            == batch_id {
            e.amount as int
        } else {
            0
        }) - (if entries[i].batch_id == batch_id {
            entries[i].amount as int
        } else {
            0
        }),
    decreases entries.len(),
{
    if i == entries.len() - 1 {
        assert(entries.update(i, e).drop_last() =~= entries.drop_last());
    } else {
        lemma_wait_amount_update(entries.drop_last(), i, e, batch_id, user);
        assert(entries.update(i, e).drop_last() =~= entries.drop_last().update(i, e));
    }
}

/// A single matching entry's amount is bounded by the user's total.
pub proof fn lemma_wait_entry_le_amount(
    entries: Seq<UnbondWaitEntry>,
    i: int,
    batch_id: u64,
    user: Seq<char>,
)
    requires
        0 <= i < entries.len(),
        entry_matches(entries[i], batch_id, user),
    ensures
        entries[i].amount as int <= wait_amount(entries, batch_id, user),
    decreases entries.len(),
{
    lemma_wait_sums_nonneg(entries, batch_id, user);
    if i == entries.len() - 1 {
        lemma_wait_sums_nonneg(entries.drop_last(), batch_id, user);
    } else {
        lemma_wait_entry_le_amount(entries.drop_last(), i, batch_id, user);
    }
}

/// Records a user's unbond request under the given batch: an existing claim
/// grows by the amount, otherwise a fresh entry is appended.
pub fn store_unbond_wait_list(
    list: &mut Vec<UnbondWaitEntry>,
    batch_id: u64,
    sender: &String,
    amount: u64,
)
    requires
        wait_amount(old(list)@, batch_id, sender@) + amount <= u64::MAX,
    ensures
        wait_amount(final(list)@, batch_id, sender@) == wait_amount(old(list)@, batch_id, sender@)
            + amount,
        forall|b: u64, u: Seq<char>|
            !(b == batch_id && u =~= sender@) ==> wait_amount(final(list)@, b, u) == wait_amount(
                old(list)@,
                b,
                u,
            ),
        forall|b: u64|
            batch_sum(final(list)@, b) == batch_sum(old(list)@, b) + if b == batch_id {
                amount as int
            } else {
                0
            },
{
    let n: usize = list.len();
    let mut i: usize = 0;
    while i < n
        invariant
            n == list@.len(),
            i <= n,
            *list == *old(list),
            wait_amount(old(list)@, batch_id, sender@) + amount <= u64::MAX,
        decreases n - i,
    {
        if list[i].batch_id == batch_id && list[i].user == *sender {
            proof {
                lemma_wait_entry_le_amount(list@, i as int, batch_id, sender@);
            }
            let grown: u64 = list[i].amount + amount;
            let user_copy: String = list[i].user.clone();
            let ghost prev = list@;
            list.set(
                i,
                UnbondWaitEntry { batch_id, user: user_copy, amount: grown },
            );
            proof {
                assert forall|b: u64, u: Seq<char>| true implies wait_amount(list@, b, u)
                    == wait_amount(prev, b, u) + (if b == batch_id && u =~= sender@ {
                    amount as int
                } else {
                    0
                }) by {
                    lemma_wait_amount_update(
                        prev,
                        i as int,
                        UnbondWaitEntry { batch_id, user: prev[i as int].user, amount: grown },
                        b,
                        u,
                    );
                    assert(list@ =~= prev.update(
                        i as int,
                        UnbondWaitEntry { batch_id, user: list@[i as int].user, amount: grown },
                    ));
                }
                assert forall|b: u64| true implies batch_sum(list@, b) == batch_sum(prev, b) + (
                if b == batch_id {
                    amount as int
                } else {
                    0
                }) by {
                    lemma_wait_amount_update(
                        prev,
                        i as int,
                        UnbondWaitEntry { batch_id, user: prev[i as int].user, amount: grown },
                        b,
                        sender@,
                    );
                }
            }
            return ;
        }
        i = i + 1;
    }
    let ghost prev = list@;
    list.push(UnbondWaitEntry { batch_id, user: sender.clone(), amount });
    proof {
        assert forall|b: u64, u: Seq<char>| true implies wait_amount(list@, b, u) == wait_amount(
            prev,
            b,
            u,
        ) + (if b == batch_id && u =~= sender@ {
            amount as int
        } else {
            0
        }) by {
            lemma_wait_amount_push(
                prev,
                UnbondWaitEntry { batch_id, user: list@.last().user, amount },
                b,
                u,
            );
            assert(list@ =~= prev.push(
                UnbondWaitEntry { batch_id, user: list@.last().user, amount },
            ));
        }
        assert forall|b: u64| true implies batch_sum(list@, b) == batch_sum(prev, b) + (if b
            == batch_id {
            amount as int
        } else {
            0
        }) by {
            lemma_wait_amount_push(
                prev,
                UnbondWaitEntry { batch_id, user: list@.last().user, amount },
                b,
                sender@,
            );
        }
    }
}

/// Total payout of one batch's claims, over all users.
pub open spec fn batch_claims_payout(
    entries: Seq<UnbondWaitEntry>,
    h: Seq<UnbondHistory>,
    batch_id: u64,
) -> int
    decreases entries.len(),
{
    if entries.len() == 0 {
        0
    } else {
        batch_claims_payout(entries.drop_last(), h, batch_id) + if entries.last().batch_id
            == batch_id {
            entry_payout(entries.last(), h)
        } else {
            0
        }
    }
}

/// Splitting a batch among claims only loses to rounding: the payouts of
/// one batch never exceed the batch total scaled by its withdraw rate.
proof fn lemma_batch_claims_le_scaled(
    entries: Seq<UnbondWaitEntry>,
    h: Seq<UnbondHistory>,
    batch_id: u64,
)
    requires
        1 <= batch_id <= h.len(),
        h[batch_id - 1].released,
        h[batch_id - 1].withdraw_rate.wf(),
    ensures
        batch_claims_payout(entries, h, batch_id) <= mul_rate(
            batch_sum(entries, batch_id),
            h[batch_id - 1].withdraw_rate,
        ),
    decreases entries.len(),
{
    let r = h[batch_id - 1].withdraw_rate;
    if entries.len() == 0 {
        crate::rate::lemma_mul_rate_zero(r);
    } else {
        lemma_batch_claims_le_scaled(entries.drop_last(), h, batch_id);
        let e = entries.last();
        lemma_wait_sums_nonneg(entries.drop_last(), batch_id, e.user@);
        if e.batch_id == batch_id {
            crate::rate::lemma_mul_rate_subadditive(
                batch_sum(entries.drop_last(), batch_id),
                e.amount as int,
                r,
            );
        }
    }
}

/// The claims of one released batch never pay out more than the batch's
/// final per-batch assignment, as long as the claims sum to no more than
/// the batch total the rate was fixed against.
pub proof fn lemma_batch_claims_covered(
    entries: Seq<UnbondWaitEntry>,
    h: Seq<UnbondHistory>,
    batch_id: u64,
)
    requires
        1 <= batch_id <= h.len(),
        h[batch_id - 1].released,
        h[batch_id - 1].withdraw_rate.wf(),
        h[batch_id - 1].withdraw_rate.den == h[batch_id - 1].amount,
        batch_sum(entries, batch_id) <= h[batch_id - 1].amount,
    ensures
        batch_claims_payout(entries, h, batch_id) <= h[batch_id - 1].withdraw_rate.num,
{
    let r = h[batch_id - 1].withdraw_rate;
    lemma_batch_claims_le_scaled(entries, h, batch_id);
    lemma_wait_sums_nonneg(entries, batch_id, Seq::empty());
    crate::rate::lemma_mul_rate_le_num(batch_sum(entries, batch_id), r);
}

/// A user's withdrawable total is never negative.
pub proof fn lemma_finished_nonneg(
    entries: Seq<UnbondWaitEntry>,
    h: Seq<UnbondHistory>,
    user: Seq<char>,
)
    requires
        histories_wf(h),
    ensures
        0 <= finished_amount(entries, h, user),
    decreases entries.len(),
{
    if entries.len() > 0 {
        lemma_finished_nonneg(entries.drop_last(), h, user);
        let e = entries.last();
        if entry_payable(e, h) {
            lemma_mul_rate_nonneg(e.amount as int, h[e.batch_id - 1].withdraw_rate);
        }
    }
}

/// Extending a prefix by one entry adds exactly that entry's contribution.
pub proof fn lemma_finished_take_step(
    entries: Seq<UnbondWaitEntry>,
    h: Seq<UnbondHistory>,
    user: Seq<char>,
    i: int,
)
    requires
        0 <= i < entries.len(),
    ensures
        finished_amount(entries.take(i + 1), h, user) == finished_amount(
            entries.take(i),
            h,
            user,
        ) + if entries[i].user@ == user {
            entry_payout(entries[i], h)
        } else {
            0
        },
{
    assert(entries.take(i + 1).drop_last() =~= entries.take(i));
}

/// Appending one entry adds exactly that entry's contribution.
pub proof fn lemma_finished_push(
    entries: Seq<UnbondWaitEntry>,
    h: Seq<UnbondHistory>,
    user: Seq<char>,
    e: UnbondWaitEntry,
)
    ensures
        finished_amount(entries.push(e), h, user) == finished_amount(entries, h, user) + if e.user@
            == user {
            entry_payout(e, h)
        } else {
            0
        },
{
    assert(entries.push(e).drop_last() =~= entries);
}

/// Any prefix of the wait list pays out at most the whole list.
pub proof fn lemma_finished_take_mono(
    entries: Seq<UnbondWaitEntry>,
    h: Seq<UnbondHistory>,
    user: Seq<char>,
    i: int,
)
    requires
        histories_wf(h),
        0 <= i <= entries.len(),
    ensures
        finished_amount(entries.take(i), h, user) <= finished_amount(entries, h, user),
    decreases entries.len() - i,
{
    if i == entries.len() {
        assert(entries.take(i) =~= entries);
    } else {
        lemma_finished_take_step(entries, h, user, i);
        if entries[i].user@ == user && entry_payable(entries[i], h) {
            lemma_mul_rate_nonneg(entries[i].amount as int, h[entries[i].batch_id - 1].withdraw_rate);
        }
        lemma_finished_take_mono(entries, h, user, i + 1);
    }
}

/// Sums a user's claims across every released batch, at each batch's final
/// withdraw rate. Claims in unreleased batches pay nothing yet.
#[verifier::loop_isolation(false)]
pub fn get_finished_amount(
    list: &Vec<UnbondWaitEntry>,
    histories: &Vec<UnbondHistory>,
    sender: &String,
) -> (r: u64)
    requires
        histories_wf(histories@),
        finished_amount(list@, histories@, sender@) <= u64::MAX,
    ensures
        r == finished_amount(list@, histories@, sender@),
{
    let n: usize = list.len();
    let mut acc: u64 = 0;
    let mut i: usize = 0;
    while i < n
        invariant
            i <= n,
            acc == finished_amount(list@.take(i as int), histories@, sender@),
        decreases n - i,
    {
        proof {
            lemma_finished_take_step(list@, histories@, sender@, i as int);
            lemma_finished_take_mono(list@, histories@, sender@, i as int + 1);
            lemma_finished_nonneg(list@.take(i as int), histories@, sender@);
            if entry_payable(list@[i as int], histories@) {
                lemma_mul_rate_nonneg(
                    list@[i as int].amount as int,
                    histories@[list@[i as int].batch_id - 1].withdraw_rate,
                );
            }
        }
        if list[i].user == *sender {
            let bid: u64 = list[i].batch_id;
            if 1 <= bid && bid <= histories.len() as u64 {
                let record: &UnbondHistory = &histories[(bid - 1) as usize];
                if record.released {
                    let payout: u64 = mul_rate_floor(list[i].amount, record.withdraw_rate);
                    acc = acc + payout;
                }
            }
        }
        i = i + 1;
    }
    proof {
        assert(list@.take(n as int) =~= list@);
    }
    acc
}

/// Membership in a pushed sequence.
proof fn lemma_push_contains(s: Seq<u64>, x: u64, y: u64)
    ensures
        s.push(x).contains(y) <==> (s.contains(y) || y == x),
{
    if s.push(x).contains(y) {
        let i = choose|i: int| 0 <= i < s.push(x).len() && s.push(x)[i] == y;
        if i < s.len() {
            assert(s[i] == y);
        }
    }
    if s.contains(y) {
        let i = choose|i: int| 0 <= i < s.len() && s[i] == y;
        assert(s.push(x)[i] == y);
    }
    assert(s.push(x)[s.len() as int] == x);
}

/// Collects the batches from which the user can withdraw right now: every
/// released batch holding one of their claims is listed, and nothing else.
#[verifier::loop_isolation(false)]
pub fn get_unbond_batches(
    list: &Vec<UnbondWaitEntry>,
    histories: &Vec<UnbondHistory>,
    sender: &String,
) -> (r: Vec<u64>)
    ensures
        forall|j: int|
            0 <= j < list@.len() && (#[trigger] list@[j]).user@ == sender@ && entry_payable(
                list@[j],
                histories@,
            ) ==> r@.contains(list@[j].batch_id),
        forall|x: u64|
            #[trigger] r@.contains(x) ==> 1 <= x <= histories@.len() && histories@[x - 1].released,
{
    let n: usize = list.len();
    let mut out: Vec<u64> = Vec::new();
    let mut i: usize = 0;
    while i < n
        invariant
            i <= n,
            forall|j: int|
                0 <= j < i && (#[trigger] list@[j]).user@ == sender@ && entry_payable(
                    list@[j],
                    histories@,
                ) ==> out@.contains(list@[j].batch_id),
            forall|x: u64|
                #[trigger] out@.contains(x) ==> 1 <= x <= histories@.len() && histories@[x
                    - 1].released,
        decreases n - i,
    {
        if list[i].user == *sender {
            let bid: u64 = list[i].batch_id;
            if 1 <= bid && bid <= histories.len() as u64 {
                if histories[(bid - 1) as usize].released {
                    let ghost prev = out@;
                    out.push(bid);
                    proof {
                        assert forall|x: u64| #[trigger] out@.contains(x) implies prev.contains(x)
                            || x == bid by {
                            lemma_push_contains(prev, bid, x);
                        }
                        assert forall|j: int|
                            0 <= j < i + 1 && (#[trigger] list@[j]).user@ == sender@
                                && entry_payable(list@[j], histories@) implies out@.contains(
                            list@[j].batch_id,
                        ) by {
                            lemma_push_contains(prev, bid, list@[j].batch_id);
                        }
                    }
                }
            }
        }
        i = i + 1;
    }
    out
}

/// Whether a batch id is among the consumed ones.
fn batch_listed(batches: &Vec<u64>, b: u64) -> (r: bool)
    ensures
        r == batches@.contains(b),
{
    let n: usize = batches.len();
    let mut i: usize = 0;
    while i < n
        invariant
            i <= n,
            n == batches@.len(),
            forall|j: int| 0 <= j < i ==> batches@[j] != b,
        decreases n - i,
    {
        if batches[i] == b {
            return true;
        }
        i = i + 1;
    }
    false
}

/// Deletes the user's claims on the given batches; every other claim stays,
/// in order.
#[verifier::loop_isolation(false)]
pub fn remove_unbond_wait_list(
    list: &mut Vec<UnbondWaitEntry>,
    batches: &Vec<u64>,
    sender: &String,
)
    ensures
        final(list)@ == purged(old(list)@, sender@, batches@),
{
    let n: usize = list.len();
    let mut out: Vec<UnbondWaitEntry> = Vec::new();
    let mut i: usize = 0;
    while i < n
        invariant
            i <= n,
            list@ == old(list)@,
            out@ == purged(old(list)@.take(i as int), sender@, batches@),
        decreases n - i,
    {
        proof {
            assert(list@.take(i as int + 1).drop_last() =~= list@.take(i as int));
        }
        let keep: bool = if list[i].user == *sender {
            !batch_listed(batches, list[i].batch_id)
        } else {
            true
        };
        if keep {
            let amount: u64 = list[i].amount;
            let bid: u64 = list[i].batch_id;
            let user: String = list[i].user.clone();
            out.push(UnbondWaitEntry { batch_id: bid, user, amount });
            proof {
                assert(out@.last() == list@[i as int]);
                assert(out@.drop_last() =~= purged(
                    old(list)@.take(i as int),
                    sender@,
                    batches@,
                ));
            }
        }
        i = i + 1;
    }
    proof {
        assert(old(list)@.take(n as int) =~= old(list)@);
    }
    *list = out;
}

/// Purging one user's consumed claims leaves every other user's totals, and
/// the user's own totals in unlisted batches, exactly as they were.
pub proof fn lemma_purged_wait_amounts(
    entries: Seq<UnbondWaitEntry>,
    user: Seq<char>,
    batches: Seq<u64>,
    b: u64,
    u: Seq<char>,
)
    requires
        u != user || !batches.contains(b),
    ensures
        wait_amount(purged(entries, user, batches), b, u) == wait_amount(entries, b, u),
    decreases entries.len(),
{
    if entries.len() > 0 {
        lemma_purged_wait_amounts(entries.drop_last(), user, batches, b, u);
        let e = entries.last();
        let rest = purged(entries.drop_last(), user, batches);
        if !(e.user@ == user && batches.contains(e.batch_id)) {
            assert(rest.push(e).drop_last() =~= rest);
        }
    }
}

/// After the purge, the user has nothing left to withdraw: every payable
/// claim of theirs was on a listed batch and is gone.
pub proof fn lemma_finished_purged_zero(
    entries: Seq<UnbondWaitEntry>,
    h: Seq<UnbondHistory>,
    user: Seq<char>,
    batches: Seq<u64>,
)
    requires
        forall|i: int|
            0 <= i < entries.len() && (#[trigger] entries[i]).user@ == user && entry_payable(
                entries[i],
                h,
            ) ==> batches.contains(entries[i].batch_id),
    ensures
        finished_amount(purged(entries, user, batches), h, user) == 0,
    decreases entries.len(),
{
    if entries.len() > 0 {
        assert forall|i: int|
            0 <= i < entries.drop_last().len() && (#[trigger] entries.drop_last()[i]).user@ == user
                && entry_payable(entries.drop_last()[i], h) implies batches.contains(
            entries.drop_last()[i].batch_id,
        ) by {
            assert(entries.drop_last()[i] == entries[i]);
        }
        lemma_finished_purged_zero(entries.drop_last(), h, user, batches);
        let e = entries.last();
        let rest = purged(entries.drop_last(), user, batches);
        if !(e.user@ == user && batches.contains(e.batch_id)) {
            lemma_finished_push(rest, h, user, e);
            if e.user@ == user {
                assert(!entry_payable(e, h));
            }
        }
    }
}

} // verus!
