//! The rules of the ledger that do not depend on where it is stored: how
//! many calls a mentee has left, which mentees a listing shows and in what
//! order, and the totals over the mentees.

use vstd::prelude::*;
use vstd::seq_lib::*;
use crate::format::{calc_net_per_call, net_per_call};
use crate::models::{Call, CountOptions, Mentee, MenteeWithCounts};
use crate::status::Status;

verus! {

/// The calls that a mentee may still take: the monthly quota for each
/// payment made, less the calls that counted against it.
pub open spec fn calls_left(quota: nat, payments: nat, billable_calls: nat) -> int {
    quota * payments - billable_calls
}

/// The calls that a mentee may still take, or `None` where the number does
/// not fit in 64 bits.
pub fn remaining_calls(quota: u32, payments: u64, billable_calls: u64) -> (r: Option<i64>)
    ensures
        r is Some <==> i64::MIN <= calls_left(quota as nat, payments as nat, billable_calls as nat)
            <= i64::MAX,
        r is Some ==> r->Some_0 == calls_left(
            quota as nat,
            payments as nat,
            billable_calls as nat,
        ),
{
    assert(0 <= (quota as int) * (payments as int) <= 0xFFFF_FFFF * 0xFFFF_FFFF_FFFF_FFFF)
        by (nonlinear_arith)
        requires
            0 <= quota <= 0xFFFF_FFFF,
            0 <= payments <= 0xFFFF_FFFF_FFFF_FFFF,
    ;
    let granted: i128 = (quota as i128) * (payments as i128);
    let left: i128 = granted - (billable_calls as i128);
    if left < -0x8000_0000_0000_0000 || left > 0x7FFF_FFFF_FFFF_FFFF {
        None
    } else {
        Some(left as i64)
    }
}

/// The calls that count against the quota: all but the free ones, in their
/// order.
pub open spec fn billable(calls: Seq<Call>) -> Seq<Call> {
    calls.filter(|c: Call| !c.free_call)
}

/// The number of calls that count against the quota.
pub fn billable_calls(calls: &Vec<Call>) -> (r: usize)
    ensures
        r == billable(calls@).len(),
{
    let mut n: usize = 0;
    let mut i: usize = 0;
    assert(calls@.take(0) =~= Seq::<Call>::empty());
    while i < calls.len()
        invariant
            i <= calls@.len(),
            n == billable(calls@.take(i as int)).len(),
            n <= i,
        decreases calls@.len() - i,
    {
        proof {
            let head = calls@.take(i as int);
            assert(calls@.take(i + 1) =~= head.push(calls@[i as int]));
            Seq::lemma_filter_push(head, calls@[i as int], |c: Call| !c.free_call);
        }
        if !calls[i].free_call {
            n += 1;
        }
        i += 1;
    }
    assert(calls@.take(calls@.len() as int) =~= calls@);
    n
}

/// The calls left to a mentee with the given calls, of which `payments`
/// payments were counted.
pub open spec fn calls_left_of(m: Mentee, calls: Seq<Call>, payments: nat) -> int {
    calls_left(m.calls as nat, payments, billable(calls).len())
}

/// Whether the totals of a mentee can be written down in 64 bits.
pub open spec fn countable(m: Mentee, calls: Seq<Call>, payments: nat, videos: nat) -> bool {
    &&& calls.len() <= i64::MAX
    &&& payments <= i64::MAX
    &&& videos <= i64::MAX
    &&& i64::MIN <= calls_left_of(m, calls, payments) <= i64::MAX
}

/// A mentee with its totals: the calls held, the payments and videos
/// counted, and the calls left. The totals are written into the mentee's
/// record as well; nothing else of it changes. `None` where a total does
/// not fit in 64 bits.
pub fn with_counts(mentee: Mentee, calls: &Vec<Call>, payments: usize, videos: usize) -> (r:
    Option<MenteeWithCounts>)
    ensures
        r is Some <==> countable(mentee, calls@, payments as nat, videos as nat),
        r is Some ==> {
            let w = r->Some_0;
            &&& w.call_count == calls@.len()
            &&& w.payment_count == payments
            &&& w.video_count == videos
            &&& w.remaining_calls == calls_left_of(mentee, calls@, payments as nat)
            &&& w.mentee == (Mentee {
                call_count: Some(w.call_count),
                payment_count: Some(w.payment_count),
                video_count: Some(w.video_count),
                remaining_calls: Some(w.remaining_calls),
                ..mentee
            })
        },
{
    let held: u64 = calls.len() as u64;
    let paid: u64 = payments as u64;
    let seen: u64 = videos as u64;
    if held > 0x7FFF_FFFF_FFFF_FFFF || paid > 0x7FFF_FFFF_FFFF_FFFF || seen
        > 0x7FFF_FFFF_FFFF_FFFF {
        return None;
    }
    match remaining_calls(mentee.calls, paid, billable_calls(calls) as u64) {
        None => None,
        Some(left) => {
            let call_count: i64 = held as i64;
            let payment_count: i64 = paid as i64;
            let video_count: i64 = seen as i64;
            let mut counted = mentee;
            counted.call_count = Some(call_count);
            counted.payment_count = Some(payment_count);
            counted.video_count = Some(video_count);
            counted.remaining_calls = Some(left);
            Some(
                MenteeWithCounts {
                    mentee: counted,
                    call_count,
                    payment_count,
                    video_count,
                    remaining_calls: left,
                },
            )
        },
    }
}

/// Each further payment grants the monthly quota once more, and each further
/// call that counts takes one call away.
pub proof fn payments_grant_and_calls_use(quota: nat, payments: nat, billable_calls: nat)
    ensures
        calls_left(quota, payments + 1, billable_calls) == calls_left(
            quota,
            payments,
            billable_calls,
        ) + quota,
        calls_left(quota, payments, billable_calls + 1) == calls_left(
            quota,
            payments,
            billable_calls,
        ) - 1,
        calls_left(quota, 0, 0) == 0,
{
    assert(quota * (payments + 1) == quota * payments + quota) by (nonlinear_arith);
    assert(quota * 0 == 0) by (nonlinear_arith);
}

/// The mentees of `all` with the given status, in their order in `all`.
pub open spec fn with_status(all: Seq<Mentee>, status: Status) -> Seq<Mentee> {
    all.filter(|m: Mentee| m.status == status)
}

/// The mentees that a listing shows: hot ones first, then warm, then cold,
/// and last the archived ones, which are shown only on request. Mentees of
/// one status keep their order.
pub open spec fn listing(all: Seq<Mentee>, show_all: bool) -> Seq<Mentee> {
    with_status(all, Status::Hot) + with_status(all, Status::Warm) + with_status(
        all,
        Status::Cold,
    ) + (if show_all {
        with_status(all, Status::Archived)
    } else {
        Seq::empty()
    })
}

fn append_with_status(out: &mut Vec<Mentee>, all: &Vec<Mentee>, status: Status)
    ensures
        final(out)@ == old(out)@ + with_status(all@, status),
{
    let ghost before = out@;
    let mut i: usize = 0;
    assert(all@.take(0) =~= Seq::<Mentee>::empty());
    assert(out@ =~= before + with_status(all@.take(0), status));
    while i < all.len()
        invariant
            i <= all@.len(),
            out@ == before + with_status(all@.take(i as int), status),
        decreases all@.len() - i,
    {
        proof {
            let pred = |m: Mentee| m.status == status;
            let head = all@.take(i as int);
            assert(all@.take(i + 1) =~= head.push(all@[i as int]));
            assert(head.push(all@[i as int]).drop_last() =~= head);
            reveal(Seq::filter);
            assert(with_status(all@.take(i + 1), status) == if pred(all@[i as int]) {
                with_status(head, status).push(all@[i as int])
            } else {
                with_status(head, status)
            });
        }
        if all[i].status == status {
            out.push(all[i].duplicate());
        }
        i += 1;
    }
    assert(all@.take(all@.len() as int) =~= all@);
}

/// The mentees to show, in the order of the listing.
pub fn list_mentees(all: &Vec<Mentee>, show_all: bool) -> (r: Vec<Mentee>)
    ensures
        r@ == listing(all@, show_all),
{
    let mut out: Vec<Mentee> = Vec::new();
    append_with_status(&mut out, all, Status::Hot);
    append_with_status(&mut out, all, Status::Warm);
    append_with_status(&mut out, all, Status::Cold);
    if show_all {
        append_with_status(&mut out, all, Status::Archived);
    }
    assert(out@ =~= listing(all@, show_all));
    out
}

/// The mentees that are not archived, in their order.
pub open spec fn active(all: Seq<Mentee>) -> Seq<Mentee> {
    all.filter(|m: Mentee| m.status != Status::Archived)
}

/// A listing that was not asked for everything shows no archived mentee, and
/// shows each of the others as often as the ledger holds it.
pub proof fn default_listing_hides_archived(all: Seq<Mentee>)
    ensures
        forall|i: int|
            0 <= i < listing(all, false).len() ==> (#[trigger] listing(all, false)[i]).status
                != Status::Archived,
        listing(all, false).to_multiset() == active(all).to_multiset(),
    decreases all.len(),
{
    broadcast use {Seq::lemma_filter_pred, lemma_multiset_commutative, to_multiset_build};

    let hot = with_status(all, Status::Hot);
    let warm = with_status(all, Status::Warm);
    let cold = with_status(all, Status::Cold);
    assert(listing(all, false) =~= hot + warm + cold);
    assert forall|i: int| 0 <= i < listing(all, false).len() implies (#[trigger] listing(
        all,
        false,
    )[i]).status != Status::Archived by {
        let l = listing(all, false);
        if i < hot.len() {
            assert(l[i] == hot[i]);
        } else if i < hot.len() + warm.len() {
            assert(l[i] == warm[i - hot.len()]);
        } else {
            assert(l[i] == cold[i - hot.len() - warm.len()]);
        }
    }
    if all.len() == 0 {
        assert(listing(all, false) =~= active(all));
    } else {
        let init = all.drop_last();
        let x = all.last();
        default_listing_hides_archived(init);
        assert(all =~= init.push(x));
        Seq::lemma_filter_push(init, x, |m: Mentee| m.status == Status::Hot);
        Seq::lemma_filter_push(init, x, |m: Mentee| m.status == Status::Warm);
        Seq::lemma_filter_push(init, x, |m: Mentee| m.status == Status::Cold);
        Seq::lemma_filter_push(init, x, |m: Mentee| m.status != Status::Archived);
        let h0 = with_status(init, Status::Hot);
        let w0 = with_status(init, Status::Warm);
        let c0 = with_status(init, Status::Cold);
        assert(listing(init, false) =~= h0 + w0 + c0);
        assert((h0 + w0 + c0).to_multiset() =~= h0.to_multiset().add(w0.to_multiset()).add(
            c0.to_multiset(),
        ));
        assert((hot + warm + cold).to_multiset() =~= hot.to_multiset().add(
            warm.to_multiset(),
        ).add(cold.to_multiset()));
        assert(listing(all, false).to_multiset() =~= active(all).to_multiset());
    }
}

/// A listing of everything shows each mentee as often as the ledger holds it.
pub proof fn full_listing_keeps_everyone(all: Seq<Mentee>)
    ensures
        listing(all, true).to_multiset() == all.to_multiset(),
    decreases all.len(),
{
    broadcast use {lemma_multiset_commutative, to_multiset_build};

    let hot = with_status(all, Status::Hot);
    let warm = with_status(all, Status::Warm);
    let cold = with_status(all, Status::Cold);
    let gone = with_status(all, Status::Archived);
    if all.len() == 0 {
        assert(listing(all, true) =~= all);
    } else {
        let init = all.drop_last();
        let x = all.last();
        full_listing_keeps_everyone(init);
        assert(all =~= init.push(x));
        Seq::lemma_filter_push(init, x, |m: Mentee| m.status == Status::Hot);
        Seq::lemma_filter_push(init, x, |m: Mentee| m.status == Status::Warm);
        Seq::lemma_filter_push(init, x, |m: Mentee| m.status == Status::Cold);
        Seq::lemma_filter_push(init, x, |m: Mentee| m.status == Status::Archived);
        let h0 = with_status(init, Status::Hot);
        let w0 = with_status(init, Status::Warm);
        let c0 = with_status(init, Status::Cold);
        let g0 = with_status(init, Status::Archived);
        assert((h0 + w0 + c0 + g0).to_multiset() =~= h0.to_multiset().add(w0.to_multiset()).add(
            c0.to_multiset(),
        ).add(g0.to_multiset()));
        assert((hot + warm + cold + gone).to_multiset() =~= hot.to_multiset().add(
            warm.to_multiset(),
        ).add(cold.to_multiset()).add(gone.to_multiset()));
        assert(listing(all, true).to_multiset() =~= all.to_multiset());
    }
}

/// In a listing no mentee stands before one of a hotter status.
pub proof fn listing_is_ordered(all: Seq<Mentee>, show_all: bool, i: int, j: int)
    requires
        0 <= i <= j < listing(all, show_all).len(),
    ensures
        listing(all, show_all)[i].status.rank() <= listing(all, show_all)[j].status.rank(),
{
    broadcast use Seq::lemma_filter_pred;

    let hot = with_status(all, Status::Hot);
    let warm = with_status(all, Status::Warm);
    let cold = with_status(all, Status::Cold);
    let l = listing(all, show_all);
    let a = hot.len();
    let b = a + warm.len();
    let c = b + cold.len();
    assert forall|k: int| 0 <= k < l.len() implies (#[trigger] l[k]).status == (if k < a {
        Status::Hot
    } else if k < b {
        Status::Warm
    } else if k < c {
        Status::Cold
    } else {
        Status::Archived
    }) by {
        if k < a {
            assert(l[k] == hot[k]);
        } else if k < b {
            assert(l[k] == warm[k - a]);
        } else if k < c {
            assert(l[k] == cold[k - b]);
        } else {
            assert(show_all);
            assert(l[k] == with_status(all, Status::Archived)[k - c]);
        }
    }
}

/// What one mentee adds to a total.
pub open spec fn counted(m: Mentee, what: CountOptions) -> nat {
    match what {
        CountOptions::Mentees => 1,
        CountOptions::Calls => m.calls as nat,
        CountOptions::Gross => m.gross as nat,
        CountOptions::Net => m.net as nat,
        CountOptions::NetPerCall => net_per_call(m.net as nat, m.calls as nat),
    }
}

/// The total over the mentees that are not archived.
pub open spec fn tally(all: Seq<Mentee>, what: CountOptions) -> nat
    decreases all.len(),
{
    if all.len() == 0 {
        0
    } else {
        tally(all.drop_last(), what) + if all.last().status != Status::Archived {
            counted(all.last(), what)
        } else {
            0
        }
    }
}

/// The count of mentees is the number of those that are not archived.
pub proof fn tally_counts_active(all: Seq<Mentee>)
    ensures
        tally(all, CountOptions::Mentees) == active(all).len(),
    decreases all.len(),
{
    if all.len() > 0 {
        let init = all.drop_last();
        tally_counts_active(init);
        assert(all =~= init.push(all.last()));
        Seq::lemma_filter_push(init, all.last(), |m: Mentee| m.status != Status::Archived);
    }
}

/// The figure that the count command reports over the mentees that are not
/// archived: their number where nothing else is asked for; the sum of their
/// monthly calls, gross or net amounts; or the average of their net amounts
/// per call, rounded down, which does not exist where there is no such mentee.
pub open spec fn count_result(all: Seq<Mentee>, what: Option<CountOptions>) -> Option<nat> {
    match what {
        None => Some(tally(all, CountOptions::Mentees)),
        Some(CountOptions::NetPerCall) => if tally(all, CountOptions::Mentees) == 0 {
            None
        } else {
            Some(tally(all, CountOptions::NetPerCall) / tally(all, CountOptions::Mentees))
        },
        Some(w) => Some(tally(all, w)),
    }
}

fn counted_of(m: &Mentee, what: CountOptions) -> (r: u32)
    ensures
        r == counted(*m, what),
{
    match what {
        CountOptions::Mentees => 1,
        CountOptions::Calls => m.calls,
        CountOptions::Gross => m.gross,
        CountOptions::Net => m.net,
        CountOptions::NetPerCall => calc_net_per_call(&m.net, &m.calls),
    }
}

/// The total of `what` over the mentees that are not archived.
pub fn tally_of(all: &Vec<Mentee>, what: CountOptions) -> (r: u128)
    ensures
        r == tally(all@, what),
{
    let mut acc: u128 = 0;
    let mut i: usize = 0;
    assert(all@.take(0) =~= Seq::<Mentee>::empty());
    while i < all.len()
        invariant
            i <= all@.len(),
            acc == tally(all@.take(i as int), what),
            acc <= i * 0xFFFF_FFFF,
        decreases all@.len() - i,
    {
        assert(all@.take(i + 1).drop_last() =~= all@.take(i as int));
        assert(all@.take(i + 1).last() == all@[i as int]);
        if all[i].status != Status::Archived {
            acc = acc + (counted_of(&all[i], what) as u128);
        }
        i += 1;
    }
    assert(all@.take(all@.len() as int) =~= all@);
    acc
}

/// The figure that the count command reports.
pub fn count_value(all: &Vec<Mentee>, what: Option<CountOptions>) -> (r: Option<u128>)
    ensures
        r is Some <==> count_result(all@, what) is Some,
        r is Some ==> r->Some_0 == count_result(all@, what)->Some_0,
{
    match what {
        None => Some(tally_of(all, CountOptions::Mentees)),
        Some(CountOptions::NetPerCall) => {
            let n: u128 = tally_of(all, CountOptions::Mentees);
            if n == 0 {
                None
            } else {
                Some(tally_of(all, CountOptions::NetPerCall) / n)
            }
        },
        Some(w) => Some(tally_of(all, w)),
    }
}

} // verus!
