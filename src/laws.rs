use vstd::prelude::*;
use crate::dispatch::{gone_pairs, DeliveryEntry, DeliveryOutcome};
use crate::membership::{is_delete_of, is_put_of, after_join, after_leave, after_switch};
use crate::registry::{applied, members_of, Pair, StoreRequest};

verus! {

/// After `x` joins `c`, `x` is among the members of `c`, and joining again
/// changes nothing.
pub proof fn join_makes_member(s: Set<Pair>, c: Seq<char>, x: Seq<char>)
    ensures
        members_of(after_join(s, c, x), c).contains(x),
        after_join(after_join(s, c, x), c, x) == after_join(s, c, x),
{
    assert(after_join(after_join(s, c, x), c, x) =~= after_join(s, c, x));
}

/// Leaving a channel twice is the same as leaving it once, and afterwards `x`
/// is not a member of it.
pub proof fn leave_is_idempotent(s: Set<Pair>, c: Seq<char>, x: Seq<char>)
    ensures
        after_leave(after_leave(s, c, x), c, x) == after_leave(s, c, x),
        !members_of(after_leave(s, c, x), c).contains(x),
{
    assert(after_leave(after_leave(s, c, x), c, x) =~= after_leave(s, c, x));
}

/// After a switch from `a` to a different channel `b`, `x` is a member of `b`
/// and not of `a`, so never of both.
pub proof fn switch_moves_member(s: Set<Pair>, a: Seq<char>, b: Seq<char>, x: Seq<char>)
    requires
        a != b,
    ensures
        !members_of(after_switch(s, a, b, x), a).contains(x),
        members_of(after_switch(s, a, b, x), b).contains(x),
{
}

/// Carrying out the delete and then the insert that a channel switch hands
/// out is exactly the switch of memberships.
pub proof fn switch_requests_move_member(
    s: Set<Pair>,
    a: Seq<char>,
    b: Seq<char>,
    x: Seq<char>,
    del: StoreRequest,
    put: StoreRequest,
)
    requires
        is_delete_of(Some(del), (a, x)),
        is_put_of(Some(put), (b, x)),
    ensures
        applied(applied(s, del), put) == after_switch(s, a, b, x),
{
}

/// A target reported gone is no longer a member of the channel once the
/// broadcast has finished, and targets reported otherwise keep their membership.
pub proof fn gone_targets_leave_channel(
    s: Set<Pair>,
    c: Seq<char>,
    report: Seq<DeliveryEntry>,
    i: int,
)
    requires
        0 <= i < report.len(),
    ensures
        report[i].outcome == DeliveryOutcome::TargetGone ==> !members_of(
            s.difference(gone_pairs(c, report)),
            c,
        ).contains(report[i].connection_id@),
        (forall|j: int|
            0 <= j < report.len() && report[j].connection_id@ == report[i].connection_id@
                ==> report[j].outcome != DeliveryOutcome::TargetGone) ==> (members_of(
            s.difference(gone_pairs(c, report)),
            c,
        ).contains(report[i].connection_id@) == members_of(s, c).contains(
            report[i].connection_id@,
        )),
{
    if report[i].outcome == DeliveryOutcome::TargetGone {
        assert(gone_pairs(c, report).contains((c, report[i].connection_id@)));
    }
}

} // verus!
