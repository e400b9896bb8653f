use vstd::prelude::*;
use crate::registry::{ConnectionRecord, Pair, Registry, StoreRequest};

verus! {

/// Failures that reach the caller of a membership or dispatch operation.
#[derive(Clone, Copy, Debug, PartialEq, Eq, Structural)]
pub enum FeedError {
    /// An inbound payload could not be used.
    MalformedInput,
    /// A store round trip failed; the caller's host decides on retries.
    StoreUnavailable,
    /// The old membership was deleted but the new one was not written.
    PartialSwitchFailure,
}

/// How one store round trip ended.
#[derive(Clone, Copy, Debug, PartialEq, Eq, Structural)]
pub enum StoreReply {
    Done,
    Unavailable,
}

/// Progress of a channel switch: delete the old record, then insert the new one.
#[derive(Clone, Copy, Debug, PartialEq, Eq, Structural)]
pub enum SwitchState {
    Idle,
    Deleting,
    Inserting,
    Succeeded,
    Failed(FeedError),
}

/// The state that follows `s` when a store round trip ends with `reply`.
pub open spec fn next_switch_state(s: SwitchState, reply: StoreReply) -> SwitchState {
    match (s, reply) {
        (SwitchState::Deleting, StoreReply::Done) => SwitchState::Inserting,
        (SwitchState::Deleting, StoreReply::Unavailable) => SwitchState::Failed(
            FeedError::StoreUnavailable,
        ),
        (SwitchState::Inserting, StoreReply::Done) => SwitchState::Succeeded,
        (SwitchState::Inserting, StoreReply::Unavailable) => SwitchState::Failed(
            FeedError::PartialSwitchFailure,
        ),
        _ => s,
    }
}

/// `r` asks the store to delete the membership `key`.
pub open spec fn is_delete_of(r: Option<StoreRequest>, key: Pair) -> bool {
    match r {
        Some(StoreRequest::Delete(rec)) => rec.key() == key,
        _ => false,
    }
}

/// `r` asks the store to write the membership `key`.
pub open spec fn is_put_of(r: Option<StoreRequest>, key: Pair) -> bool {
    match r {
        Some(StoreRequest::Put(rec)) => rec.key() == key,
        _ => false,
    }
}

/// The store requests and outcome of moving one connection between channels.
/// The caller performs each request it is handed and reports how it ended.
pub struct ChannelSwitch {
    pub connection_id: String,
    pub from_channel: String,
    pub to_channel: String,
    pub state: SwitchState,
}

impl ChannelSwitch {
    pub open spec fn from_key(&self) -> Pair {
        (self.from_channel@, self.connection_id@)
    }

    pub open spec fn to_key(&self) -> Pair {
        (self.to_channel@, self.connection_id@)
    }

    pub fn new(connection_id: &String, from_channel: &String, to_channel: &String) -> (r:
        ChannelSwitch)
        ensures
            r.connection_id@ == connection_id@,
            r.from_channel@ == from_channel@,
            r.to_channel@ == to_channel@,
            r.state == SwitchState::Idle,
    {
        ChannelSwitch {
            connection_id: connection_id.clone(),
            from_channel: from_channel.clone(),
            to_channel: to_channel.clone(),
            state: SwitchState::Idle,
        }
    }

    /// Begins the switch: the first request is always the delete of the old
    /// membership. A switch already under way is left as it is.
    pub fn start(&mut self) -> (r: Option<StoreRequest>)
        ensures
            final(self).connection_id == old(self).connection_id,
            final(self).from_channel == old(self).from_channel,
            final(self).to_channel == old(self).to_channel,
            old(self).state == SwitchState::Idle ==> final(self).state == SwitchState::Deleting
                && is_delete_of(r, old(self).from_key()),
            old(self).state != SwitchState::Idle ==> final(self).state == old(self).state
                && r is None,
    {
        match self.state {
            SwitchState::Idle => {
                self.state = SwitchState::Deleting;
                Some(
                    StoreRequest::Delete(
                        ConnectionRecord::new(&self.from_channel, &self.connection_id),
                    ),
                )
            },
            _ => None,
        }
    }

    /// Takes the reply to the last request and hands out the next one, if any.
    /// The insert is issued only after the delete is done; a failed insert is
    /// reported as a partial switch and never retried.
    pub fn on_reply(&mut self, reply: StoreReply) -> (r: Option<StoreRequest>)
        ensures
            final(self).connection_id == old(self).connection_id,
            final(self).from_channel == old(self).from_channel,
            final(self).to_channel == old(self).to_channel,
            final(self).state == next_switch_state(old(self).state, reply),
            final(self).state == SwitchState::Inserting ==> is_put_of(r, old(self).to_key()),
            final(self).state != SwitchState::Inserting ==> r is None,
    {
        match (self.state, reply) {
            (SwitchState::Deleting, StoreReply::Done) => {
                self.state = SwitchState::Inserting;
                Some(
                    StoreRequest::Put(ConnectionRecord::new(&self.to_channel, &self.connection_id)),
                )
            },
            (SwitchState::Deleting, StoreReply::Unavailable) => {
                self.state = SwitchState::Failed(FeedError::StoreUnavailable);
                None
            },
            (SwitchState::Inserting, StoreReply::Done) => {
                self.state = SwitchState::Succeeded;
                None
            },
            (SwitchState::Inserting, StoreReply::Unavailable) => {
                self.state = SwitchState::Failed(FeedError::PartialSwitchFailure);
                None
            },
            _ => None,
        }
    }

    /// The result of the switch once it has ended.
    pub fn outcome(&self) -> (r: Option<Result<(), FeedError>>)
        ensures
            r == match self.state {
                SwitchState::Succeeded => Some(Ok(())),
                SwitchState::Failed(e) => Some(Err(e)),
                _ => None::<Result<(), FeedError>>,
            },
    {
        match self.state {
            SwitchState::Succeeded => Some(Ok(())),
            SwitchState::Failed(e) => Some(Err(e)),
            _ => None,
        }
    }
}

/// Memberships after `connection_id` joins `channel`.
pub open spec fn after_join(s: Set<Pair>, channel: Seq<char>, connection_id: Seq<char>) -> Set<
    Pair,
> {
    s.insert((channel, connection_id))
}

/// Memberships after `connection_id` leaves `channel`.
pub open spec fn after_leave(s: Set<Pair>, channel: Seq<char>, connection_id: Seq<char>) -> Set<
    Pair,
> {
    s.remove((channel, connection_id))
}

/// Memberships after `connection_id` moves from `from` to `to`.
pub open spec fn after_switch(
    s: Set<Pair>,
    from: Seq<char>,
    to: Seq<char>,
    connection_id: Seq<char>,
) -> Set<Pair> {
    after_join(after_leave(s, from, connection_id), to, connection_id)
}

/// Registers `connection_id` under `channel`.
pub fn join(registry: &mut Registry, connection_id: &String, channel: &String)
    requires
        old(registry).wf(),
    ensures
        final(registry).wf(),
        final(registry)@ == after_join(old(registry)@, channel@, connection_id@),
{
    registry.register(channel, connection_id);
}

/// Removes `connection_id` from `channel`; leaving a channel one is not in
/// changes nothing.
pub fn leave(registry: &mut Registry, connection_id: &String, channel: &String)
    requires
        old(registry).wf(),
    ensures
        final(registry).wf(),
        final(registry)@ == after_leave(old(registry)@, channel@, connection_id@),
{
    registry.deregister(channel, connection_id);
}

/// Moves `connection_id` from `from_channel` to `to_channel`: the delete of
/// the old membership, then the insert of the new one.
pub fn switch_channel(
    registry: &mut Registry,
    connection_id: &String,
    from_channel: &String,
    to_channel: &String,
) -> (r: Result<(), FeedError>)
    requires
        old(registry).wf(),
    ensures
        final(registry).wf(),
        r == Ok::<(), FeedError>(()),
        final(registry)@ == after_switch(
            old(registry)@,
            from_channel@,
            to_channel@,
            connection_id@,
        ),
{
    let mut sw = ChannelSwitch::new(connection_id, from_channel, to_channel);
    let first = sw.start();
    let mut next: Option<StoreRequest> = None;
    match first {
        Some(req) => {
            registry.apply(&req);
            next = sw.on_reply(StoreReply::Done);
        },
        None => {},
    }
    match next {
        Some(req) => {
            registry.apply(&req);
            sw.on_reply(StoreReply::Done);
        },
        None => {},
    }
    match sw.outcome() {
        Some(res) => res,
        None => Err(FeedError::StoreUnavailable),
    }
}

/// The channel a connection joins when it connects.
pub open spec fn default_channel() -> Seq<char> {
    seq!['d', 'e', 'f', 'a', 'u', 'l', 't']
}

/// The name of the channel a connection joins when it connects.
pub fn default_channel_name() -> (r: String)
    ensures
        r@ == default_channel(),
{
    let r = "default".to_string();
    proof {
        broadcast use vstd::string::to_string_from_display_ensures_for_str;
        reveal_strlit("default");
    }
    assert(r@ =~= default_channel());
    r
}

/// A channel name is usable when it is not empty.
pub fn validate_channel(channel: &String) -> (r: Result<(), FeedError>)
    ensures
        channel@.len() == 0 ==> r == Err::<(), FeedError>(FeedError::MalformedInput),
        channel@.len() > 0 ==> r == Ok::<(), FeedError>(()),
{
    if channel.as_str().is_empty() {
        Err(FeedError::MalformedInput)
    } else {
        Ok(())
    }
}

/// A new connection joins the default channel.
pub fn connect(registry: &mut Registry, connection_id: &String)
    requires
        old(registry).wf(),
    ensures
        final(registry).wf(),
        final(registry)@ == after_join(old(registry)@, default_channel(), connection_id@),
{
    let channel = default_channel_name();
    join(registry, connection_id, &channel);
}

/// `connection_id` belongs to at most one channel in `s`.
pub open spec fn single_home(s: Set<Pair>, connection_id: Seq<char>) -> bool {
    forall|a: Seq<char>, b: Seq<char>|
        s.contains((a, connection_id)) && s.contains((b, connection_id)) ==> a == b
}

/// A closing connection leaves the channel it is in, which is returned; `None`
/// when it was in none.
pub fn disconnect(registry: &mut Registry, connection_id: &String) -> (r: Option<String>)
    requires
        old(registry).wf(),
    ensures
        final(registry).wf(),
        match r {
            Some(c) => old(registry)@.contains((c@, connection_id@)) && final(registry)@
                == after_leave(old(registry)@, c@, connection_id@),
            None => final(registry)@ == old(registry)@ && forall|c: Seq<char>|
                !old(registry)@.contains((c, connection_id@)),
        },
        single_home(old(registry)@, connection_id@) ==> forall|c: Seq<char>|
            !final(registry)@.contains((c, connection_id@)),
{
    match registry.channel_of(connection_id) {
        Some(c) => {
            leave(registry, connection_id, &c);
            Some(c)
        },
        None => None,
    }
}

} // verus!
