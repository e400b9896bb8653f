use vstd::prelude::*;
use crate::registry::{ids_of, distinct_ids, members_of, Pair, Registry};

verus! {

/// One send to the push gateway: `payload` for the connection `connection_id`.
pub struct PushRequest {
    pub connection_id: String,
    pub payload: String,
}

/// How the push gateway answered one send.
#[derive(Clone, Copy, Debug, PartialEq, Eq, Structural)]
pub enum DeliveryOutcome {
    Delivered,
    /// The endpoint no longer exists; its membership is to be removed.
    TargetGone,
    /// A transient failure of this one send.
    DeliveryError,
}

/// The outcome of the send to one target.
pub struct DeliveryEntry {
    pub connection_id: String,
    pub outcome: DeliveryOutcome,
}

/// The targets of a list of sends.
pub open spec fn targets(reqs: Seq<PushRequest>) -> Set<Seq<char>> {
    Set::new(|id: Seq<char>| exists|i: int| 0 <= i < reqs.len() && reqs[i].connection_id@ == id)
}

/// `r` sends `payload` to each of `members`, in their order.
pub open spec fn sends_to(r: Seq<PushRequest>, members: Seq<String>, payload: Seq<char>) -> bool {
    &&& r.len() == members.len()
    &&& forall|i: int|
        0 <= i < r.len() ==> (#[trigger] r[i]).connection_id@ == members[i]@ && r[i].payload@
            == payload
}

/// `report` pairs each send of `reqs` with the outcome at the same position.
pub open spec fn reports(report: Seq<DeliveryEntry>, reqs: Seq<PushRequest>, outcomes: Seq<DeliveryOutcome>) -> bool {
    &&& report.len() == reqs.len()
    &&& forall|i: int|
        0 <= i < report.len() ==> (#[trigger] report[i]).connection_id@ == reqs[i].connection_id@
            && report[i].outcome == outcomes[i]
}

/// The targets reported gone, in report order.
pub open spec fn gone_ids(report: Seq<DeliveryEntry>) -> Seq<Seq<char>>
    decreases report.len(),
{
    if report.len() == 0 {
        Seq::empty()
    } else {
        let rest = gone_ids(report.drop_last());
        if report.last().outcome == DeliveryOutcome::TargetGone {
            rest.push(report.last().connection_id@)
        } else {
            rest
        }
    }
}

/// The memberships in `channel` of the targets reported gone.
pub open spec fn gone_pairs(channel: Seq<char>, report: Seq<DeliveryEntry>) -> Set<Pair> {
    Set::new(
        |p: Pair|
            p.0 == channel && exists|i: int|
                0 <= i < report.len() && report[i].outcome == DeliveryOutcome::TargetGone
                    && report[i].connection_id@ == p.1,
    )
}

/// One send of `payload` to each member, in the members' order.
pub fn plan_pushes(members: &Vec<String>, payload: &String) -> (r: Vec<PushRequest>)
    ensures
        sends_to(r@, members@, payload@),
{
    let mut out: Vec<PushRequest> = Vec::new();
    let mut i: usize = 0;
    while i < members.len()
        invariant
            i <= members@.len(),
            out@.len() == i,
            forall|k: int|
                0 <= k < i ==> (#[trigger] out@[k]).connection_id@ == members@[k]@
                    && out@[k].payload@ == payload@,
        decreases members@.len() - i,
    {
        out.push(PushRequest { connection_id: members[i].clone(), payload: payload.clone() });
        i = i + 1;
    }
    out
}

/// Resolves `channel` to its members and plans one send of `payload` to each:
/// every member gets the payload unchanged, once, and nobody else gets it. An
/// empty channel gives no sends at all.
pub fn begin_broadcast(registry: &Registry, channel: &String, payload: &String) -> (r: Vec<
    PushRequest,
>)
    requires
        registry.wf(),
    ensures
        forall|i: int| 0 <= i < r@.len() ==> (#[trigger] r@[i]).payload@ == payload@,
        targets(r@) == members_of(registry@, channel@),
        forall|a: int, b: int|
            0 <= a < b < r@.len() ==> r@[a].connection_id@ != r@[b].connection_id@,
{
    let members = registry.query(channel);
    let r = plan_pushes(&members, payload);
    assert forall|id: Seq<char>| targets(r@).contains(id) == ids_of(members@).contains(id) by {
        if targets(r@).contains(id) {
            let i = choose|i: int| 0 <= i < r@.len() && r@[i].connection_id@ == id;
            assert(members@[i]@ == id);
        }
        if ids_of(members@).contains(id) {
            let i = choose|i: int| 0 <= i < members@.len() && members@[i]@ == id;
            assert(r@[i].connection_id@ == id);
        }
    }
    assert(targets(r@) =~= members_of(registry@, channel@));
    assert forall|a: int, b: int|
        0 <= a < b < r@.len() implies r@[a].connection_id@ != r@[b].connection_id@ by {
        assert(r@[a].connection_id@ == members@[a]@);
        assert(r@[b].connection_id@ == members@[b]@);
    }
    r
}

/// Pairs each send with the gateway's answer to it.
pub fn delivery_report(requests: &Vec<PushRequest>, outcomes: &Vec<DeliveryOutcome>) -> (r: Vec<
    DeliveryEntry,
>)
    requires
        requests@.len() == outcomes@.len(),
    ensures
        reports(r@, requests@, outcomes@),
{
    let mut out: Vec<DeliveryEntry> = Vec::new();
    let mut i: usize = 0;
    while i < requests.len()
        invariant
            requests@.len() == outcomes@.len(),
            i <= requests@.len(),
            out@.len() == i,
            forall|k: int|
                0 <= k < i ==> (#[trigger] out@[k]).connection_id@ == requests@[k].connection_id@
                    && out@[k].outcome == outcomes@[k],
        decreases requests@.len() - i,
    {
        out.push(
            DeliveryEntry { connection_id: requests[i].connection_id.clone(), outcome: outcomes[i] },
        );
        i = i + 1;
    }
    out
}

/// The targets that the report marks gone, in report order.
pub fn gone_targets(report: &Vec<DeliveryEntry>) -> (r: Vec<String>)
    ensures
        r@.map_values(|s: String| s@) == gone_ids(report@),
{
    let mut out: Vec<String> = Vec::new();
    let mut i: usize = 0;
    while i < report.len()
        invariant
            i <= report@.len(),
            out@.map_values(|s: String| s@) == gone_ids(report@.subrange(0, i as int)),
        decreases report@.len() - i,
    {
        assert(report@.subrange(0, i + 1).drop_last() =~= report@.subrange(0, i as int));
        if report[i].outcome == DeliveryOutcome::TargetGone {
            out.push(report[i].connection_id.clone());
        }
        assert(out@.map_values(|s: String| s@) =~= gone_ids(report@.subrange(0, i + 1)));
        i = i + 1;
    }
    assert(report@.subrange(0, report@.len() as int) =~= report@);
    out
}

/// Ends a broadcast: builds the per-target report from the gateway's answers
/// and removes from `channel` every target reported gone. No outcome of a
/// single target makes the dispatch fail.
pub fn finish_broadcast(
    registry: &mut Registry,
    channel: &String,
    requests: &Vec<PushRequest>,
    outcomes: &Vec<DeliveryOutcome>,
) -> (r: Vec<DeliveryEntry>)
    requires
        old(registry).wf(),
        requests@.len() == outcomes@.len(),
    ensures
        final(registry).wf(),
        reports(r@, requests@, outcomes@),
        final(registry)@ == old(registry)@.difference(gone_pairs(channel@, r@)),
{
    let report = delivery_report(requests, outcomes);
    let mut i: usize = 0;
    while i < report.len()
        invariant
            registry.wf(),
            i <= report@.len(),
            registry@ == old(registry)@.difference(
                gone_pairs(channel@, report@.subrange(0, i as int)),
            ),
        decreases report@.len() - i,
    {
        let ghost before = registry@;
        let ghost prev = report@.subrange(0, i as int);
        let ghost next = report@.subrange(0, i + 1);
        if report[i].outcome == DeliveryOutcome::TargetGone {
            registry.deregister(channel, &report[i].connection_id);
        }
        assert forall|p: Pair| #[trigger] gone_pairs(channel@, next).contains(p) == (
        gone_pairs(channel@, prev).contains(p) || (report@[i as int].outcome
            == DeliveryOutcome::TargetGone && p == (channel@, report@[i as int].connection_id@)))
            by {
            if gone_pairs(channel@, next).contains(p) {
                let k = choose|k: int|
                    0 <= k < next.len() && next[k].outcome == DeliveryOutcome::TargetGone
                        && next[k].connection_id@ == p.1;
                if k < i {
                    assert(prev[k] == next[k]);
                }
            }
            if gone_pairs(channel@, prev).contains(p) {
                let k = choose|k: int|
                    0 <= k < prev.len() && prev[k].outcome == DeliveryOutcome::TargetGone
                        && prev[k].connection_id@ == p.1;
                assert(prev[k] == next[k]);
            }
            if report@[i as int].outcome == DeliveryOutcome::TargetGone && p == (
            channel@,
            report@[i as int].connection_id@,
            ) {
                assert(next[i as int] == report@[i as int]);
            }
        }
        assert(registry@ =~= old(registry)@.difference(gone_pairs(channel@, next)));
        i = i + 1;
    }
    assert(report@.subrange(0, report@.len() as int) =~= report@);
    report
}

} // verus!
