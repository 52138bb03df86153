//! The leaderboard engine: maintains the three top-voter slots embedded in
//! a campaign, ranked by cumulative total descending with empty slots last.
//!
//! An update first overwrites the voter's existing entry in place, or else
//! inserts the voter at the first slot that is empty or holds a strictly
//! smaller total (shifting the rest down and discarding the last slot), and
//! finally re-sorts the three slots. The operation is pure and total: it
//! never fails.

use vstd::prelude::*;
use crate::records::{Campaign, Principal, TopVoter};

verus! {

/// `a` may stand above `b`: an empty slot may follow anything, a populated
/// slot must hold at least the total of the populated slot below it.
pub open spec fn slot_ge(a: Option<TopVoter>, b: Option<TopVoter>) -> bool {
    match b {
        Option::None => true,
        Option::Some(bv) => match a {
            Option::None => false,
            Option::Some(av) => av.total_voted >= bv.total_voted,
        },
    }
}

/// The three slots are ranked descending by total, empty slots last.
pub open spec fn lb_sorted(s: Seq<Option<TopVoter>>) -> bool {
    slot_ge(s[0], s[1]) && slot_ge(s[1], s[2])
}

/// Two populated slots never rank the same principal.
pub open spec fn voters_differ(a: Option<TopVoter>, b: Option<TopVoter>) -> bool {
    a is Some && b is Some ==> a.unwrap().voter != b.unwrap().voter
}

/// No principal occupies more than one slot.
pub open spec fn lb_distinct(s: Seq<Option<TopVoter>>) -> bool {
    voters_differ(s[0], s[1]) && voters_differ(s[0], s[2]) && voters_differ(s[1], s[2])
}

/// Well-formedness of a leaderboard: exactly three slots, ranked, and with
/// pairwise distinct principals.
pub open spec fn lb_wf(s: Seq<Option<TopVoter>>) -> bool {
    s.len() == 3 && lb_sorted(s) && lb_distinct(s)
}

/// All three slots are empty, as a fresh campaign starts out.
pub open spec fn lb_empty(s: Seq<Option<TopVoter>>) -> bool {
    s.len() == 3 && s[0] is None && s[1] is None && s[2] is None
}

/// The slot is populated and ranks this principal.
pub open spec fn slot_holds(slot: Option<TopVoter>, v: Principal) -> bool {
    slot is Some && slot.unwrap().voter == v
}

/// Some slot ranks this principal.
pub open spec fn lb_has_voter(s: Seq<Option<TopVoter>>, v: Principal) -> bool {
    slot_holds(s[0], v) || slot_holds(s[1], v) || slot_holds(s[2], v)
}

/// A new entry with this total pushes the slot down: the slot is empty or
/// holds a strictly smaller total.
pub open spec fn displaces(slot: Option<TopVoter>, total: u64) -> bool {
    slot is None || total > slot.unwrap().total_voted
}

/// The placement step: overwrite the voter's existing slot, or insert at
/// the first empty-or-smaller slot shifting the rest down, or leave the
/// slots unchanged when all three hold at least this total.
pub open spec fn lb_place(s: Seq<Option<TopVoter>>, v: Principal, t: u64) -> Seq<
    Option<TopVoter>,
>
    recommends
        s.len() == 3,
{
    let e = Option::Some(TopVoter { voter: v, total_voted: t });
    if slot_holds(s[0], v) {
        s.update(0, e)
    } else if slot_holds(s[1], v) {
        s.update(1, e)
    } else if slot_holds(s[2], v) {
        s.update(2, e)
    } else if displaces(s[0], t) {
        seq![e, s[0], s[1]]
    } else if displaces(s[1], t) {
        seq![s[0], e, s[1]]
    } else if displaces(s[2], t) {
        seq![s[0], s[1], e]
    } else {
        s
    }
}

/// Compare-and-keep of two adjacent slots: swap them unless the upper may
/// stand above the lower. Equal totals keep their order.
pub open spec fn sort2(a: Option<TopVoter>, b: Option<TopVoter>) -> (
    Option<TopVoter>,
    Option<TopVoter>,
) {
    if slot_ge(a, b) {
        (a, b)
    } else {
        (b, a)
    }
}

/// The stable three-element sort of the slots, descending by total with
/// empty slots last.
pub open spec fn lb_sort(s: Seq<Option<TopVoter>>) -> Seq<Option<TopVoter>>
    recommends
        s.len() == 3,
{
    let (a1, b1) = sort2(s[0], s[1]);
    let (b2, c2) = sort2(b1, s[2]);
    let (a3, b3) = sort2(a1, b2);
    seq![a3, b3, c2]
}

/// One full leaderboard update: placement followed by the re-sort.
pub open spec fn lb_update(s: Seq<Option<TopVoter>>, v: Principal, t: u64) -> Seq<
    Option<TopVoter>,
> {
    lb_sort(lb_place(s, v, t))
}

/// A leaderboard with all slots empty is well-formed.
pub proof fn lemma_lb_empty_wf(s: Seq<Option<TopVoter>>)
    requires
        lb_empty(s),
    ensures
        lb_wf(s),
{
}

/// Sorting leaves an already ranked leaderboard unchanged.
pub proof fn lemma_lb_sort_id_on_sorted(s: Seq<Option<TopVoter>>)
    requires
        s.len() == 3,
        lb_sorted(s),
    ensures
        lb_sort(s) == s,
{
    assert(lb_sort(s) =~= s);
}

/// Leaderboard invariant: updating a well-formed leaderboard yields a
/// well-formed one — three slots, ranked descending with empty slots last,
/// and no principal in more than one slot.
pub proof fn lemma_lb_update_wf(s: Seq<Option<TopVoter>>, v: Principal, t: u64)
    requires
        lb_wf(s),
    ensures
        lb_wf(lb_update(s, v, t)),
{
    let p = lb_place(s, v, t);
    assert(p.len() == 3);
    assert(lb_distinct(p));
    assert(lb_wf(lb_sort(p)));
}

/// Leaderboard idempotence: a second update with the same voter and total
/// changes nothing.
pub proof fn lemma_lb_update_idempotent(s: Seq<Option<TopVoter>>, v: Principal, t: u64)
    requires
        lb_wf(s),
    ensures
        lb_update(lb_update(s, v, t), v, t) == lb_update(s, v, t),
{
    lemma_lb_update_wf(s, v, t);
    let r = lb_update(s, v, t);
    if lb_has_voter(r, v) {
        assert(lb_place(r, v, t) =~= r);
    } else {
        assert(!lb_has_voter(s, v));
        lemma_lb_sort_id_on_sorted(s);
        assert(lb_place(r, v, t) =~= r);
    }
    lemma_lb_sort_id_on_sorted(r);
}

/// The slot is populated and ranks this principal.
fn holds(slot: Option<TopVoter>, v: Principal) -> (r: bool)
    ensures
        r == slot_holds(slot, v),
{
    match slot {
        Option::Some(tv) => tv.voter == v,
        Option::None => false,
    }
}

/// A new entry with this total pushes the slot down.
fn displaced(slot: Option<TopVoter>, total: u64) -> (r: bool)
    ensures
        r == displaces(slot, total),
{
    match slot {
        Option::None => true,
        Option::Some(tv) => total > tv.total_voted,
    }
}

/// The upper slot may stand above the lower one.
fn keeps(a: Option<TopVoter>, b: Option<TopVoter>) -> (r: bool)
    ensures
        r == slot_ge(a, b),
{
    match b {
        Option::None => true,
        Option::Some(bv) => match a {
            Option::None => false,
            Option::Some(av) => av.total_voted >= bv.total_voted,
        },
    }
}

/// Records that `voter_key` now stands at cumulative total `total_voted`
/// in the campaign's leaderboard; every other campaign field is untouched.
/// This operation never fails.
pub fn update_top_voters(campaign: &mut Campaign, voter_key: Principal, total_voted: u64)
    ensures
        final(campaign).top_voters@ == lb_update(old(campaign).top_voters@, voter_key, total_voted),
        final(campaign).title == old(campaign).title,
        final(campaign).start_time == old(campaign).start_time,
        final(campaign).end_time == old(campaign).end_time,
        final(campaign).total_votes == old(campaign).total_votes,
        final(campaign).is_active == old(campaign).is_active,
        final(campaign).creator == old(campaign).creator,
        final(campaign).banner_url == old(campaign).banner_url,
        final(campaign).contestant_count == old(campaign).contestant_count,
        final(campaign).platform_fee_percentage == old(campaign).platform_fee_percentage,
{
    let s0 = campaign.top_voters[0];
    let s1 = campaign.top_voters[1];
    let s2 = campaign.top_voters[2];
    let e = Some(TopVoter { voter: voter_key, total_voted });
    let (p0, p1, p2) = if holds(s0, voter_key) {
        (e, s1, s2)
    } else if holds(s1, voter_key) {
        (s0, e, s2)
    } else if holds(s2, voter_key) {
        (s0, s1, e)
    } else if displaced(s0, total_voted) {
        (e, s0, s1)
    } else if displaced(s1, total_voted) {
        (s0, e, s1)
    } else if displaced(s2, total_voted) {
        (s0, s1, e)
    } else {
        (s0, s1, s2)
    };
    proof {
        assert(seq![p0, p1, p2] =~= lb_place(old(campaign).top_voters@, voter_key, total_voted));
    }
    let (a1, b1) = if keeps(p0, p1) {
        (p0, p1)
    } else {
        (p1, p0)
    };
    let (b2, c2) = if keeps(b1, p2) {
        (b1, p2)
    } else {
        (p2, b1)
    };
    let (a3, b3) = if keeps(a1, b2) {
        (a1, b2)
    } else {
        (b2, a1)
    };
    campaign.top_voters = [a3, b3, c2];
    proof {
        assert(campaign.top_voters@ =~= lb_update(
            old(campaign).top_voters@,
            voter_key,
            total_voted,
        ));
    }
}

} // verus!
