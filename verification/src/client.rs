//! The connection bridge and session state machine.
//!
//! An [`Archipelago`] owns the game-loop ends of the two bounded channels
//! that link the tick thread to the background network tasks, the session
//! caches filled from server messages, and the bookkeeping that makes item
//! effects and location checks happen exactly once. Everything here is a
//! plain state transition; the sockets, the handshake and the background
//! tasks live outside the library and only feed the channels.

use vstd::prelude::*;

use crate::channel::{chan_try_recv, chan_try_send, channel_pair, RecvOutcome};
use crate::effects::{item_effect, spec_effect_matches, ItemEffect};
use crate::protocol::{
    spec_game_of_title, spec_has_id, ClientMessage, ConnectError, ConnectionInfo, DataPackage,
    NetworkItem, ServerMessage,
};
use crate::stage_data::{all_locations, spec_all_locations};
use crate::ITEM_BASE;

verus! {

/// The lifecycle of a session.
#[derive(Clone, Copy, Debug, PartialEq, Eq, Structural)]
pub enum ArchipelagoState {
    /// No session has been attempted yet.
    Inactive,
    /// A session existed and ended, explicitly or by transport loss.
    Disconnected,
    /// The handshake succeeded; caches are being filled. Gameplay-affecting
    /// item effects are not yet delivered.
    Connected,
    /// The caller opted in to receiving remote item effects.
    Active,
}

/// The session: lifecycle state, the game-loop channel ends, the caches
/// filled once per connection, and the exactly-once bookkeeping.
pub struct Archipelago {
    pub state: ArchipelagoState,
    /// Consuming end of the inbound channel; `None` before a connection and
    /// after closure is observed.
    pub inbox: Option<tokio::sync::mpsc::Receiver<ServerMessage>>,
    /// Producing end of the outbound channel; `None` before a connection and
    /// after closure is observed.
    pub outbox: Option<tokio::sync::mpsc::Sender<ClientMessage>>,
    pub server: String,
    pub slot_name: String,
    pub password: String,
    /// Name/id tables, received once per connection.
    pub data_package: Option<DataPackage>,
    /// Scouted locations: for each known location, the item found there.
    pub loc_info: Option<Vec<NetworkItem>>,
    /// Handshake result: local slot, roster, per-slot games.
    pub connection_info: Option<ConnectionInfo>,
    /// Sequence identities of item instances whose effect was applied.
    pub applied: Vec<i128>,
    /// Location ids already reported as checked.
    pub sent_checks: Vec<i32>,
    /// Every packet the outbound channel accepted, in hand-off order. What
    /// the channel does with an accepted packet afterwards is the peer
    /// thread's business and is promised nowhere.
    pub sent_log: Ghost<Seq<ClientMessage>>,
    /// Packets meant for the server that the channel refused (queue full):
    /// they are re-handed, oldest first, before anything newer goes out, so
    /// backpressure never loses a message from the tick thread's view.
    pub pending: Vec<ClientMessage>,
}

/// Everything meant for the server so far, in order: what the channel
/// accepted, then what awaits re-handing.
pub open spec fn spec_outbound(ap: Archipelago) -> Seq<ClientMessage> {
    ap.sent_log@ + ap.pending@
}

/// `b` is `a` with at most the outbound bookkeeping (accepted log and
/// pending backlog) changed.
pub open spec fn spec_eq_except_outbound(a: Archipelago, b: Archipelago) -> bool {
    b == (Archipelago { sent_log: b.sent_log, pending: b.pending, ..a })
}

/// `b` is `a` after re-handing some of the backlog: nothing meant for the
/// server is lost or reordered, only the split between accepted and pending
/// moves forward.
pub open spec fn spec_flush_rel(a: Archipelago, b: Archipelago) -> bool {
    &&& spec_eq_except_outbound(a, b)
    &&& spec_outbound(b) == spec_outbound(a)
    &&& a.sent_log@.is_prefix_of(b.sent_log@)
}

/// The two values agree on the connection configuration.
pub open spec fn spec_same_config(a: Archipelago, b: Archipelago) -> bool {
    &&& b.server == a.server
    &&& b.slot_name == a.slot_name
    &&& b.password == a.password
}

/// The two values agree on the per-connection caches.
pub open spec fn spec_same_caches(a: Archipelago, b: Archipelago) -> bool {
    &&& b.data_package == a.data_package
    &&& b.loc_info == a.loc_info
    &&& b.connection_info == a.connection_info
}

/// The two values agree on the exactly-once bookkeeping.
pub open spec fn spec_same_progress(a: Archipelago, b: Archipelago) -> bool {
    &&& b.applied == a.applied
    &&& b.sent_checks == a.sent_checks
}

/// The two values agree on the channel ends.
pub open spec fn spec_same_channels(a: Archipelago, b: Archipelago) -> bool {
    &&& b.inbox == a.inbox
    &&& b.outbox == a.outbox
}

/// One scout message over the whole location table, creating no hints, was
/// appended to the outbound stream.
pub open spec fn spec_handed_scouts(pre: Seq<ClientMessage>, post: Seq<ClientMessage>) -> bool {
    &&& post.len() == pre.len() + 1
    &&& post.drop_last() == pre
    &&& (post.last() matches ClientMessage::LocationScouts { locations, create_as_hint }
        && locations@ == spec_all_locations() && create_as_hint == 0)
}

/// One connection-flags update with the given handling value and no tags was
/// appended to the outbound stream.
pub open spec fn spec_handed_connect_update(
    pre: Seq<ClientMessage>,
    post: Seq<ClientMessage>,
    flags: i32,
) -> bool {
    &&& post.len() == pre.len() + 1
    &&& post.drop_last() == pre
    &&& (post.last() matches ClientMessage::ConnectUpdate { items_handling, tags }
        && items_handling == flags && tags@.len() == 0)
}

/// Whether `v` holds `x`.
fn contains_i128(v: &Vec<i128>, x: i128) -> (r: bool)
    ensures
        r == v@.contains(x),
{
    let n = v.len();
    let mut i: usize = 0;
    while i < n
        invariant
            i <= n,
            n == v@.len(),
            forall|j: int| 0 <= j < i ==> v@[j] != x,
        decreases n - i,
    {
        if v[i] == x {
            return true;
        }
        i += 1;
    }
    false
}

/// Whether `v` holds `x`.
fn contains_i32(v: &Vec<i32>, x: i32) -> (r: bool)
    ensures
        r == v@.contains(x),
{
    let n = v.len();
    let mut i: usize = 0;
    while i < n
        invariant
            i <= n,
            n == v@.len(),
            forall|j: int| 0 <= j < i ==> v@[j] != x,
        decreases n - i,
    {
        if v[i] == x {
            return true;
        }
        i += 1;
    }
    false
}

impl Archipelago {
    /// A fresh session that has attempted nothing.
    pub fn new() -> (ap: Archipelago)
        ensures
            ap.state is Inactive,
            ap.inbox is None,
            ap.outbox is None,
            ap.server@ == Seq::<char>::empty(),
            ap.slot_name@ == Seq::<char>::empty(),
            ap.password@ == Seq::<char>::empty(),
            ap.data_package is None,
            ap.loc_info is None,
            ap.connection_info is None,
            ap.applied@ == Seq::<i128>::empty(),
            ap.sent_checks@ == Seq::<i32>::empty(),
            ap.sent_log@ == Seq::<ClientMessage>::empty(),
            ap.pending@ == Seq::<ClientMessage>::empty(),
    {
        Archipelago {
            state: ArchipelagoState::Inactive,
            inbox: None,
            outbox: None,
            server: String::new(),
            slot_name: String::new(),
            password: String::new(),
            data_package: None,
            loc_info: None,
            connection_info: None,
            applied: Vec::new(),
            sent_checks: Vec::new(),
            sent_log: Ghost(Seq::empty()),
            pending: Vec::new(),
        }
    }

    /// Whether the caches a world load needs are both populated.
    pub fn is_ready(&self) -> (r: bool)
        ensures
            r == (self.data_package is Some && self.loc_info is Some),
    {
        self.data_package.is_some() && self.loc_info.is_some()
    }

    /// Re-hand the pending backlog to the outbound channel, oldest first,
    /// stopping at the first message the channel refuses and keeping it.
    /// Nothing meant for the server is lost or reordered: only the split
    /// between accepted and pending moves forward.
    fn flush_outbox(&mut self)
        ensures
            spec_flush_rel(*old(self), *final(self)),
    {
        let mut blocked = false;
        while !blocked && self.pending.len() > 0
            invariant
                spec_eq_except_outbound(*old(self), *self),
                spec_outbound(*self) == spec_outbound(*old(self)),
                old(self).sent_log@.is_prefix_of(self.sent_log@),
            decreases
                    (if blocked {
                        0int
                    } else {
                        1int
                    }),
                    self.pending@.len(),
        {
            match &self.outbox {
                None => {
                    blocked = true;
                },
                Some(tx) => {
                    let ghost before = *self;
                    let front = self.pending.remove(0);
                    let ghost gf = front;
                    match chan_try_send(tx, front) {
                        crate::channel::SendOutcome::Sent => {
                            self.sent_log = Ghost(self.sent_log@.push(gf));
                            proof {
                                assert(spec_outbound(*self) =~= spec_outbound(before));
                                assert(before.sent_log@.is_prefix_of(self.sent_log@)) by {
                                    assert(self.sent_log@.subrange(
                                        0,
                                        before.sent_log@.len() as int,
                                    ) =~= before.sent_log@);
                                }
                            }
                        },
                        crate::channel::SendOutcome::Full(v) => {
                            self.pending.insert(0, v);
                            blocked = true;
                            proof {
                                assert(self.pending@ =~= before.pending@);
                            }
                        },
                        crate::channel::SendOutcome::Closed(v) => {
                            self.pending.insert(0, v);
                            blocked = true;
                            proof {
                                assert(self.pending@ =~= before.pending@);
                            }
                        },
                    }
                },
            }
        }
    }

    /// Enqueue `packet` for the server without blocking and without loss: the
    /// packet joins the outbound stream after everything already meant for
    /// the server, and as much of the backlog as the channel will take right
    /// now is handed over, oldest first. With no channel end at all the call
    /// is a no-op and the packet is dropped, as the original did.
    pub fn send(&mut self, packet: ClientMessage)
        ensures
            old(self).outbox is None ==> *final(self) == *old(self),
            old(self).outbox is Some ==> spec_eq_except_outbound(*old(self), *final(self))
                && spec_outbound(*final(self)) == spec_outbound(*old(self)).push(packet)
                && old(self).sent_log@.is_prefix_of(final(self).sent_log@),
    {
        if self.outbox.is_none() {
            return ;
        }
        self.pending.push(packet);
        proof {
            assert(spec_outbound(*self) =~= spec_outbound(*old(self)).push(packet));
        }
        self.flush_outbox();
    }

    /// Report these locations as checked: exactly one check message holding
    /// them joins the outbound stream.
    pub fn location_checks(&mut self, locations: Vec<i32>) -> (r: Result<(), ConnectError>)
        ensures
            old(self).outbox is None ==> *final(self) == *old(self),
            old(self).outbox is Some ==> spec_eq_except_outbound(*old(self), *final(self))
                && spec_outbound(*final(self)) == spec_outbound(*old(self)).push(
                ClientMessage::LocationChecks { locations },
            ) && old(self).sent_log@.is_prefix_of(final(self).sent_log@),
            r is Ok,
    {
        self.send(ClientMessage::LocationChecks { locations });
        Ok(())
    }

    /// Ask which item sits at each location of the local game: one scout
    /// message over the whole location table, creating no hints, joins the
    /// outbound stream.
    pub fn location_scouts(&mut self) -> (r: Result<(), ConnectError>)
        ensures
            old(self).outbox is None ==> *final(self) == *old(self),
            old(self).outbox is Some ==> spec_eq_except_outbound(*old(self), *final(self))
                && spec_handed_scouts(spec_outbound(*old(self)), spec_outbound(*final(self)))
                && old(self).sent_log@.is_prefix_of(final(self).sent_log@),
            r is Ok,
    {
        self.send(ClientMessage::LocationScouts { locations: all_locations(), create_as_hint: 0 });
        proof {
            if old(self).outbox is Some {
                assert(spec_outbound(*self).drop_last() =~= spec_outbound(*old(self)));
            }
        }
        Ok(())
    }

    /// Ask for the name/id tables of the named games: one data-package
    /// request joins the outbound stream.
    pub fn get_data_package(&mut self, games: Option<Vec<String>>) -> (r: Result<
        (),
        ConnectError,
    >)
        ensures
            old(self).outbox is None ==> *final(self) == *old(self),
            old(self).outbox is Some ==> spec_eq_except_outbound(*old(self), *final(self))
                && spec_outbound(*final(self)) == spec_outbound(*old(self)).push(
                ClientMessage::GetDataPackage { games },
            ) && old(self).sent_log@.is_prefix_of(final(self).sent_log@),
            r is Ok,
    {
        self.send(ClientMessage::GetDataPackage { games });
        Ok(())
    }

    /// Client status changes are not part of this client's produced message
    /// set; an explicit no-op.
    pub fn status_update(&mut self) -> (r: Result<(), ConnectError>)
        ensures
            *final(self) == *old(self),
            r is Ok,
    {
        Ok(())
    }

    /// Cross-client signals have no defined meaning here yet; an explicit
    /// no-op.
    pub fn bounce(&mut self) -> (r: Result<(), ConnectError>)
        ensures
            *final(self) == *old(self),
            r is Ok,
    {
        Ok(())
    }

    /// Make the two bounded channels of a new connection attempt, keep the
    /// game-loop ends, and hand back the task ends: the sender the inbound
    /// task feeds, and the receiver the outbound task drains.
    pub fn open_channels(&mut self) -> (ends: (
        tokio::sync::mpsc::Sender<ServerMessage>,
        tokio::sync::mpsc::Receiver<ClientMessage>,
    ))
        ensures
            final(self).inbox is Some,
            final(self).outbox is Some,
            final(self).state == old(self).state,
            spec_same_config(*old(self), *final(self)),
            spec_same_caches(*old(self), *final(self)),
            spec_same_progress(*old(self), *final(self)),
            final(self).sent_log == old(self).sent_log,
            final(self).pending@ == Seq::<ClientMessage>::empty(),
    {
        let (in_send, in_recv) = channel_pair::<ServerMessage>(16);
        let (out_send, out_recv) = channel_pair::<ClientMessage>(16);
        self.inbox = Some(in_recv);
        self.outbox = Some(out_send);
        // The backlog of an earlier session would go out on the new channel;
        // a new attempt starts with nothing pending.
        self.pending = Vec::new();
        (in_send, out_recv)
    }

    /// Record a successful handshake: store the connection info, hand the
    /// data-package request and the exhaustive location scout to the outbound
    /// channel, in that order, and enter `Connected`.
    pub fn complete_connect(&mut self, info: ConnectionInfo, games: Option<Vec<String>>)
        ensures
            final(self).state is Connected,
            final(self).connection_info == Some(info),
            final(self).data_package == old(self).data_package,
            final(self).loc_info == old(self).loc_info,
            spec_same_config(*old(self), *final(self)),
            spec_same_progress(*old(self), *final(self)),
            spec_same_channels(*old(self), *final(self)),
            old(self).outbox is None ==> final(self).sent_log == old(self).sent_log
                && final(self).pending == old(self).pending,
            old(self).outbox is Some ==> old(self).sent_log@.is_prefix_of(final(self).sent_log@)
                && ({
                let pre = spec_outbound(*old(self));
                let post = spec_outbound(*final(self));
                &&& post.len() == pre.len() + 2
                &&& post.take(pre.len() as int) == pre
                &&& post[pre.len() as int] == (ClientMessage::GetDataPackage { games })
                &&& (post[pre.len() as int + 1] matches ClientMessage::LocationScouts {
                    locations,
                    create_as_hint,
                } && locations@ == spec_all_locations() && create_as_hint == 0)
            }),
    {
        let ghost out0 = spec_outbound(*self);
        let ghost log0 = self.sent_log@;
        self.connection_info = Some(info);
        let _ = self.get_data_package(games);
        let ghost out1 = spec_outbound(*self);
        let ghost log1 = self.sent_log@;
        let _ = self.location_scouts();
        self.state = ArchipelagoState::Connected;
        proof {
            if old(self).outbox is Some {
                assert(spec_outbound(*self).take(out0.len() as int) =~= out0);
                assert(spec_outbound(*self)[out0.len() as int] == out1[out0.len() as int]);
                assert(self.sent_log@.subrange(0, log0.len() as int) =~= log0);
            }
        }
    }


    /// Opt in to receiving remote item effects: hand the server the flags
    /// update that turns item delivery on, then enter `Active`.
    pub fn startup(&mut self)
        ensures
            final(self).state is Active,
            spec_same_config(*old(self), *final(self)),
            spec_same_caches(*old(self), *final(self)),
            spec_same_progress(*old(self), *final(self)),
            spec_same_channels(*old(self), *final(self)),
            old(self).outbox is None ==> final(self).sent_log == old(self).sent_log
                && final(self).pending == old(self).pending,
            old(self).outbox is Some ==> old(self).sent_log@.is_prefix_of(final(self).sent_log@)
                && spec_handed_connect_update(
                spec_outbound(*old(self)),
                spec_outbound(*final(self)),
                0x101,
            ),
    {
        let tags: Vec<String> = Vec::new();
        self.send(ClientMessage::ConnectUpdate { items_handling: 0x101, tags });
        self.state = ArchipelagoState::Active;
        proof {
            if old(self).outbox is Some {
                assert(spec_outbound(*self).drop_last() =~= spec_outbound(*old(self)));
            }
        }
    }


    /// End the session explicitly: hand the server the flags update that
    /// turns item delivery off, drop both channel ends — signalling the
    /// background tasks to exit — and tear the session caches down, so
    /// nothing of this session is silently reused by the next one. An
    /// explicitly ended session is `Disconnected`; a reconnect re-enters
    /// through `Connected`. The exactly-once records stay: a reconnect
    /// replays old notifications, and their effects must not be applied
    /// again.
    pub fn shutdown(&mut self)
        ensures
            final(self).state is Disconnected,
            final(self).inbox is None,
            final(self).outbox is None,
            final(self).data_package is None,
            final(self).loc_info is None,
            final(self).connection_info is None,
            spec_same_config(*old(self), *final(self)),
            spec_same_progress(*old(self), *final(self)),
            old(self).outbox is None ==> final(self).sent_log == old(self).sent_log
                && final(self).pending == old(self).pending,
            old(self).outbox is Some ==> old(self).sent_log@.is_prefix_of(final(self).sent_log@)
                && spec_handed_connect_update(
                spec_outbound(*old(self)),
                spec_outbound(*final(self)),
                0x000,
            ),
    {
        let tags: Vec<String> = Vec::new();
        self.send(ClientMessage::ConnectUpdate { items_handling: 0x000, tags });
        proof {
            if old(self).outbox is Some {
                assert(spec_outbound(*self).drop_last() =~= spec_outbound(*old(self)));
            }
        }
        self.inbox = None;
        self.outbox = None;
        self.data_package = None;
        self.loc_info = None;
        self.connection_info = None;
        self.state = ArchipelagoState::Disconnected;
    }
}

/// What one `poll` promises: the configuration, the exactly-once records and
/// the outbound bookkeeping are untouched; with no inbound channel the call is a no-op returning
/// `None`; otherwise either a message comes back with everything else in
/// place, or nothing was buffered, or closure was observed — and then both
/// channel ends are dropped, the session caches are torn down, and the state
/// flips to `Disconnected`.
pub open spec fn spec_poll_post(
    pre: Archipelago,
    post: Archipelago,
    r: Option<ServerMessage>,
) -> bool {
    &&& spec_same_config(pre, post)
    &&& spec_same_progress(pre, post)
    &&& (pre.inbox is None ==> r is None && post == pre)
    &&& (r is Some ==> post.state == pre.state && post.inbox is Some && post.outbox == pre.outbox
        && spec_same_caches(pre, post))
    &&& (r is None ==> (post.state == pre.state && (post.inbox is Some <==> pre.inbox is Some)
        && post.outbox == pre.outbox && spec_same_caches(pre, post)) || (
    post.state is Disconnected && post.inbox is None && post.outbox is None
        && post.data_package is None && post.loc_info is None && post.connection_info is None))
    &&& post.sent_log == pre.sent_log
    &&& post.pending == pre.pending
}

/// What absorbing one probe outcome does, one clause per outcome. `pre` is
/// the session with its receiver taken out; `rx` is that receiver after the
/// probe. A message is returned as-is and nothing else moves; an empty queue
/// changes nothing; observed closure is exactly the teardown — both channel
/// ends gone, session caches gone, state `Disconnected`.
pub open spec fn spec_poll_step(
    pre: Archipelago,
    post: Archipelago,
    rx: tokio::sync::mpsc::Receiver<ServerMessage>,
    outcome: RecvOutcome<ServerMessage>,
    r: Option<ServerMessage>,
) -> bool {
    match outcome {
        RecvOutcome::Item(m) => r == Some(m) && post == (Archipelago { inbox: Some(rx), ..pre }),
        RecvOutcome::Empty => r is None && post == (Archipelago { inbox: Some(rx), ..pre }),
        RecvOutcome::Closed => r is None && post == (Archipelago {
            inbox: None,
            outbox: None,
            data_package: None,
            loc_info: None,
            connection_info: None,
            state: ArchipelagoState::Disconnected,
            ..pre
        }),
    }
}

/// Everything one `poll` promises: the coarse summary, and — whenever an
/// inbound channel existed — that the session followed [`spec_poll_step`]
/// for whatever outcome the probe observed.
pub open spec fn spec_poll_full(
    pre: Archipelago,
    post: Archipelago,
    r: Option<ServerMessage>,
) -> bool {
    &&& spec_poll_post(pre, post, r)
    &&& (pre.inbox is Some ==> exists|
        rx: tokio::sync::mpsc::Receiver<ServerMessage>,
        outcome: RecvOutcome<ServerMessage>,
    |
        spec_poll_step((Archipelago { inbox: None, ..pre }), post, rx, outcome, r))
}

impl Archipelago {
    /// Put one probe outcome into effect: restore the receiver and hand the
    /// message (if any) back, or perform the closure teardown.
    fn poll_step(
        &mut self,
        rx: tokio::sync::mpsc::Receiver<ServerMessage>,
        outcome: RecvOutcome<ServerMessage>,
    ) -> (r: Option<ServerMessage>)
        ensures
            spec_poll_step(*old(self), *final(self), rx, outcome, r),
    {
        match outcome {
            RecvOutcome::Item(m) => {
                self.inbox = Some(rx);
                Some(m)
            },
            RecvOutcome::Empty => {
                self.inbox = Some(rx);
                None
            },
            RecvOutcome::Closed => {
                self.inbox = None;
                self.outbox = None;
                self.data_package = None;
                self.loc_info = None;
                self.connection_info = None;
                self.state = ArchipelagoState::Disconnected;
                None
            },
        }
    }

    /// One non-blocking probe of the inbound channel: at most one message per
    /// call, in arrival order, never blocking the tick thread. Observing
    /// closure drops both channel ends, tears the session caches down and
    /// flips the state to `Disconnected`; after that every call returns
    /// `None` and changes nothing.
    pub fn poll(&mut self) -> (r: Option<ServerMessage>)
        ensures
            spec_poll_full(*old(self), *final(self), r),
    {
        let taken = self.inbox.take();
        match taken {
            None => None,
            Some(mut rx) => {
                let outcome = chan_try_recv(&mut rx);
                let ghost pre_step = *self;
                let ghost o = outcome;
                let ghost rx_snap = rx;
                let r = self.poll_step(rx, outcome);
                proof {
                    assert(pre_step == (Archipelago { inbox: None, ..*old(self) }));
                    assert(spec_poll_step(pre_step, *self, rx_snap, o, r));
                }
                r
            },
        }
    }
}

/// Observing closure tears the session down: the state flips to
/// `Disconnected`, both channel ends and all session caches are gone, and no
/// message is handed back from that call.
pub proof fn lemma_closure_disconnects(
    pre: Archipelago,
    post: Archipelago,
    rx: tokio::sync::mpsc::Receiver<ServerMessage>,
    r: Option<ServerMessage>,
)
    requires
        spec_poll_step(pre, post, rx, RecvOutcome::Closed, r),
    ensures
        r is None,
        post.state is Disconnected,
        post.inbox is None,
        post.outbox is None,
        post.data_package is None,
        post.loc_info is None,
        post.connection_info is None,
        spec_same_config(pre, post),
        spec_same_progress(pre, post),
        post.sent_log == pre.sent_log,
{
}

/// The sequence identity of the `k`-th entry of a notification whose first
/// entry is the `index`-th item ever received by this slot.
pub open spec fn spec_ident(index: int, k: int) -> i128 {
    (index + k) as i128
}

/// The exactly-once engine, one notification at a time: walk the entries in
/// order; an entry whose sequence identity is already recorded is skipped,
/// any other is recorded and emitted. Returns the grown identity record and
/// the entries to apply, in order.
pub open spec fn spec_sync(applied: Seq<i128>, index: int, items: Seq<NetworkItem>) -> (
    Seq<i128>,
    Seq<NetworkItem>,
)
    decreases items.len(),
{
    if items.len() == 0 {
        (applied, Seq::<NetworkItem>::empty())
    } else {
        let ident = spec_ident(index, 0);
        if applied.contains(ident) {
            spec_sync(applied, index + 1, items.drop_first())
        } else {
            let rest = spec_sync(applied.push(ident), index + 1, items.drop_first());
            (rest.0, seq![items[0]] + rest.1)
        }
    }
}

/// Processing one more trailing entry extends the result of processing the
/// rest: the entry is skipped or appended according to the identity record
/// that the earlier entries produced.
proof fn lemma_sync_snoc(applied: Seq<i128>, index: int, items: Seq<NetworkItem>, item: NetworkItem)
    ensures
        ({
            let prefix = spec_sync(applied, index, items);
            let ident = spec_ident(index, items.len() as int);
            if prefix.0.contains(ident) {
                spec_sync(applied, index, items.push(item)) == prefix
            } else {
                spec_sync(applied, index, items.push(item)).0 == prefix.0.push(ident)
                    && spec_sync(applied, index, items.push(item)).1 == prefix.1.push(item)
            }
        }),
    decreases items.len(),
{
    let prefix = spec_sync(applied, index, items);
    let ident = spec_ident(index, items.len() as int);
    let whole = spec_sync(applied, index, items.push(item));
    if items.len() == 0 {
        assert(items.push(item).drop_first() =~= Seq::<NetworkItem>::empty());
        if applied.contains(ident) {
            let rest = spec_sync(applied, index + 1, Seq::<NetworkItem>::empty());
            assert(rest.0 == applied && rest.1 == Seq::<NetworkItem>::empty());
            assert(whole.0 == applied && whole.1 == Seq::<NetworkItem>::empty());
            assert(prefix.0 == applied && prefix.1 == Seq::<NetworkItem>::empty());
        } else {
            let rest = spec_sync(applied.push(ident), index + 1, Seq::<NetworkItem>::empty());
            assert(rest.0 == applied.push(ident) && rest.1 == Seq::<NetworkItem>::empty());
            assert(whole.1 =~= seq![item]);
            assert(prefix.1.push(item) =~= seq![item]);
        }
    } else {
        assert(items.push(item).drop_first() =~= items.drop_first().push(item));
        assert(items.push(item)[0] == items[0]);
        assert(spec_ident(index + 1, items.drop_first().len() as int) == ident);
        let head_ident = spec_ident(index, 0);
        if applied.contains(head_ident) {
            lemma_sync_snoc(applied, index + 1, items.drop_first(), item);
        } else {
            lemma_sync_snoc(applied.push(head_ident), index + 1, items.drop_first(), item);
            let rest = spec_sync(applied.push(head_ident), index + 1, items.drop_first());
            if !rest.0.contains(ident) {
                assert((seq![items[0]] + rest.1).push(item) =~= seq![items[0]] + rest.1.push(item));
            }
        }
    }
}

/// The identity record only grows: everything recorded before a notification
/// is still recorded after it, and the identity of every entry of the
/// notification is recorded after it.
proof fn lemma_sync_covers(applied: Seq<i128>, index: int, items: Seq<NetworkItem>)
    ensures
        forall|x: i128|
            applied.contains(x) ==> #[trigger] spec_sync(applied, index, items).0.contains(x),
        forall|k: int|
            0 <= k < items.len() ==> spec_sync(applied, index, items).0.contains(
                #[trigger] spec_ident(index, k),
            ),
    decreases items.len(),
{
    if items.len() > 0 {
        let ident = spec_ident(index, 0);
        if applied.contains(ident) {
            lemma_sync_covers(applied, index + 1, items.drop_first());
            let rest = spec_sync(applied, index + 1, items.drop_first());
            assert(spec_sync(applied, index, items).0 == rest.0);
            assert forall|x: i128| applied.contains(x) implies #[trigger] spec_sync(
                applied,
                index,
                items,
            ).0.contains(x) by {
                assert(rest.0.contains(x));
            }
            assert forall|k: int| 0 <= k < items.len() implies spec_sync(
                applied,
                index,
                items,
            ).0.contains(#[trigger] spec_ident(index, k)) by {
                if k == 0 {
                    assert(rest.0.contains(ident));
                } else {
                    assert(spec_ident(index, k) == spec_ident(index + 1, k - 1));
                    assert(rest.0.contains(spec_ident(index + 1, k - 1)));
                }
            }
        } else {
            lemma_sync_covers(applied.push(ident), index + 1, items.drop_first());
            let rest = spec_sync(applied.push(ident), index + 1, items.drop_first());
            assert(spec_sync(applied, index, items).0 == rest.0);
            assert(applied.push(ident)[applied.len() as int] == ident);
            assert(applied.push(ident).contains(ident));
            assert forall|x: i128| applied.contains(x) implies #[trigger] spec_sync(
                applied,
                index,
                items,
            ).0.contains(x) by {
                let i = choose|i: int| 0 <= i < applied.len() && applied[i] == x;
                assert(applied.push(ident)[i] == x);
                assert(applied.push(ident).contains(x));
                assert(rest.0.contains(x));
            }
            assert forall|k: int| 0 <= k < items.len() implies spec_sync(
                applied,
                index,
                items,
            ).0.contains(#[trigger] spec_ident(index, k)) by {
                if k == 0 {
                    assert(rest.0.contains(ident));
                } else {
                    assert(spec_ident(index, k) == spec_ident(index + 1, k - 1));
                    assert(rest.0.contains(spec_ident(index + 1, k - 1)));
                }
            }
        }
    }
}

/// A notification every one of whose identities is already recorded changes
/// nothing and applies nothing.
proof fn lemma_sync_stable(applied: Seq<i128>, index: int, items: Seq<NetworkItem>)
    requires
        forall|k: int| 0 <= k < items.len() ==> applied.contains(#[trigger] spec_ident(index, k)),
    ensures
        spec_sync(applied, index, items).0 == applied,
        spec_sync(applied, index, items).1 == Seq::<NetworkItem>::empty(),
    decreases items.len(),
{
    if items.len() > 0 {
        assert(applied.contains(spec_ident(index, 0)));
        assert forall|k: int| 0 <= k < items.drop_first().len() implies applied.contains(
            #[trigger] spec_ident(index + 1, k),
        ) by {
            assert(spec_ident(index + 1, k) == spec_ident(index, k + 1));
        }
        lemma_sync_stable(applied, index + 1, items.drop_first());
    }
}

/// Re-delivering a notification applies nothing: after the engine has
/// processed it once, processing the same notification again leaves the
/// identity record unchanged and emits no entry — each item instance's
/// effect is applied exactly once.
pub proof fn lemma_items_applied_once(applied: Seq<i128>, index: int, items: Seq<NetworkItem>)
    ensures
        spec_sync(spec_sync(applied, index, items).0, index, items).0 == spec_sync(
            applied,
            index,
            items,
        ).0,
        spec_sync(spec_sync(applied, index, items).0, index, items).1
            == Seq::<NetworkItem>::empty(),
{
    lemma_sync_covers(applied, index, items);
    lemma_sync_stable(spec_sync(applied, index, items).0, index, items);
}

/// What handling one inbound message promises: the data package and the
/// scouted-location list are stored wholesale when they arrive; an items
/// notification runs the exactly-once engine, growing the identity record
/// and emitting one effect — prescribed by [`spec_effect_matches`] — per
/// fresh entry; everything else is an explicit no-op.
pub open spec fn spec_handle_post(
    pre: Archipelago,
    post: Archipelago,
    message: ServerMessage,
    effects: Seq<ItemEffect>,
) -> bool {
    match message {
        ServerMessage::DataPackage(dp) => {
            &&& post == (Archipelago { data_package: Some(dp), ..pre })
            &&& effects.len() == 0
        },
        ServerMessage::LocationInfo(v) => {
            &&& post == (Archipelago { loc_info: Some(v), ..pre })
            &&& effects.len() == 0
        },
        ServerMessage::ReceivedItems { index, items } => {
            let outcome = spec_sync(pre.applied@, index as int, items@);
            &&& post.applied@ == outcome.0
            &&& post == (Archipelago { applied: post.applied, ..pre })
            &&& effects.len() == outcome.1.len()
            &&& forall|k: int|
                0 <= k < effects.len() ==> spec_effect_matches(
                    pre.data_package,
                    pre.connection_info,
                    outcome.1[k],
                    #[trigger] effects[k],
                )
        },
        ServerMessage::Bounced => post == pre && effects.len() == 0,
        ServerMessage::Other => post == pre && effects.len() == 0,
    }
}

impl Archipelago {
    /// Run the exactly-once engine over one items notification: entries whose
    /// sequence identity was already recorded are skipped; each fresh entry
    /// is recorded and resolved into its effect descriptor.
    fn sync_items(&mut self, index: i32, items: Vec<NetworkItem>) -> (effects: Vec<ItemEffect>)
        ensures
            final(self).applied@ == spec_sync(old(self).applied@, index as int, items@).0,
            *final(self) == (Archipelago { applied: final(self).applied, ..*old(self) }),
            effects@.len() == spec_sync(old(self).applied@, index as int, items@).1.len(),
            forall|k: int|
                0 <= k < effects@.len() ==> spec_effect_matches(
                    old(self).data_package,
                    old(self).connection_info,
                    spec_sync(old(self).applied@, index as int, items@).1[k],
                    #[trigger] effects@[k],
                ),
    {
        let mut effects: Vec<ItemEffect> = Vec::new();
        let n = items.len();
        let mut j: usize = 0;
        while j < n
            invariant
                j <= n,
                n == items@.len(),
                *self == (Archipelago { applied: self.applied, ..*old(self) }),
                self.applied@ == spec_sync(old(self).applied@, index as int, items@.take(
                    j as int,
                )).0,
                effects@.len() == spec_sync(old(self).applied@, index as int, items@.take(
                    j as int,
                )).1.len(),
                forall|k: int|
                    0 <= k < effects@.len() ==> spec_effect_matches(
                        old(self).data_package,
                        old(self).connection_info,
                        spec_sync(old(self).applied@, index as int, items@.take(j as int)).1[k],
                        #[trigger] effects@[k],
                    ),
            decreases n - j,
        {
            let item = items[j];
            let ident: i128 = index as i128 + j as i128;
            proof {
                lemma_sync_snoc(old(self).applied@, index as int, items@.take(j as int), item);
                assert(items@.take(j as int).push(item) =~= items@.take(j as int + 1));
                assert(ident == spec_ident(index as int, j as int));
            }
            if !contains_i128(&self.applied, ident) {
                let e = item_effect(&self.data_package, &self.connection_info, &item);
                effects.push(e);
                self.applied.push(ident);
            }
            j += 1;
        }
        proof {
            assert(items@.take(n as int) =~= items@);
        }
        effects
    }

    /// Handle one inbound server message: store a data package or scout list,
    /// run the exactly-once item engine, and ignore — deliberately — the
    /// signals this client gives no meaning to.
    pub fn handle_packet(&mut self, message: ServerMessage) -> (effects: Vec<ItemEffect>)
        ensures
            spec_handle_post(*old(self), *final(self), message, effects@),
    {
        match message {
            ServerMessage::DataPackage(dp) => {
                self.data_package = Some(dp);
                Vec::new()
            },
            ServerMessage::LocationInfo(v) => {
                self.loc_info = Some(v);
                Vec::new()
            },
            ServerMessage::ReceivedItems { index, items } => self.sync_items(index, items),
            ServerMessage::Bounced => Vec::new(),
            ServerMessage::Other => Vec::new(),
        }
    }
}

/// What one tick promises: the outbound backlog is re-handed, then one poll
/// runs, then — when the poll yielded a message — that message is handled.
pub open spec fn spec_tick_post(
    pre: Archipelago,
    post: Archipelago,
    effects: Seq<ItemEffect>,
) -> bool {
    exists|flushed: Archipelago, mid: Archipelago, r: Option<ServerMessage>|
        #![trigger spec_flush_rel(pre, flushed), spec_poll_full(flushed, mid, r)]
        spec_flush_rel(pre, flushed) && spec_poll_full(flushed, mid, r) && match r {
            Some(m) => spec_handle_post(mid, post, m, effects),
            None => post == mid && effects.len() == 0,
        }
}

impl Archipelago {
    /// One game tick: poll the inbound channel for at most one message and
    /// handle it, returning the item effects to run this tick.
    pub fn tick(&mut self) -> (effects: Vec<ItemEffect>)
        ensures
            spec_tick_post(*old(self), *final(self), effects@),
    {
        self.flush_outbox();
        let ghost flushed = *self;
        let polled = self.poll();
        let ghost mid = *self;
        let ghost r = polled;
        match polled {
            Some(m) => {
                let effects = self.handle_packet(m);
                proof {
                    assert(spec_flush_rel(*old(self), flushed) && spec_poll_full(flushed, mid, r));
                }
                effects
            },
            None => {
                proof {
                    assert(spec_flush_rel(*old(self), flushed) && spec_poll_full(flushed, mid, r));
                }
                Vec::new()
            },
        }
    }
}

/// A tick across which the inbound channel end disappeared is exactly the
/// closure teardown: the probe observed closure, so no message was dispatched
/// and no effect returned, the state flipped to `Disconnected`, and both
/// channel ends and all session caches are gone.
pub proof fn lemma_tick_on_closure(pre: Archipelago, post: Archipelago, effects: Seq<ItemEffect>)
    requires
        spec_tick_post(pre, post, effects),
        pre.inbox is Some,
        post.inbox is None,
    ensures
        post.state is Disconnected,
        post.outbox is None,
        post.data_package is None,
        post.loc_info is None,
        post.connection_info is None,
        effects.len() == 0,
{
    let (flushed, mid, r) = choose|
        flushed: Archipelago,
        mid: Archipelago,
        r: Option<ServerMessage>,
    |
        #![trigger spec_flush_rel(pre, flushed), spec_poll_full(flushed, mid, r)]
        spec_flush_rel(pre, flushed) && spec_poll_full(flushed, mid, r) && match r {
            Some(m) => spec_handle_post(mid, post, m, effects),
            None => post == mid && effects.len() == 0,
        };
    assert(flushed.inbox == pre.inbox);
    match r {
        Some(m) => {
            assert(mid.inbox is Some);
            match m {
                ServerMessage::DataPackage(dp) => {
                    assert(post.inbox == mid.inbox);
                },
                ServerMessage::LocationInfo(v) => {
                    assert(post.inbox == mid.inbox);
                },
                ServerMessage::ReceivedItems { index, items } => {
                    assert(post.inbox == mid.inbox);
                },
                ServerMessage::Bounced => {
                    assert(post.inbox == mid.inbox);
                },
                ServerMessage::Other => {
                    assert(post.inbox == mid.inbox);
                },
            }
            assert(false);
        },
        None => {
            assert(post == mid);
        },
    }
}

/// Whether `loc` is a known location id of the local game in `ap`'s data
/// package.
pub open spec fn spec_known_location(ap: Archipelago, loc: i32) -> bool {
    match ap.data_package {
        Some(dp) => match spec_game_of_title(dp.games@, "Cave Story"@) {
            Some(g) => spec_has_id(dp.games@[g].1.location_name_to_id@, loc),
            None => false,
        },
        None => false,
    }
}

/// The location check a flag-change report sends, if any: only a flag turning
/// true, in an `Active` session, whose network location id is known to the
/// local game and was not reported before, is sent — and then exactly its
/// location id.
pub open spec fn spec_check_decision(ap: Archipelago, id: int, value: bool) -> Option<i32> {
    let loc = (id + ITEM_BASE) as i32;
    if value && ap.state is Active && spec_known_location(ap, loc) && !ap.sent_checks@.contains(
        loc,
    ) {
        Some(loc)
    } else {
        None
    }
}

/// What a flag-change report promises. A report the decision rejects changes
/// nothing and sends nothing. A decided check joins the outbound stream —
/// exactly one message holding exactly the flag's location id — and the id
/// is recorded so the check is never decided again. With a decided check but
/// no channel end at all, nothing happens.
pub open spec fn spec_report_post(
    pre: Archipelago,
    post: Archipelago,
    id: int,
    value: bool,
    r: Option<i32>,
) -> bool {
    match spec_check_decision(pre, id, value) {
        None => r is None && post == pre,
        Some(loc) => {
            if pre.outbox is Some {
                &&& r == Some(loc)
                &&& post.sent_checks@ == pre.sent_checks@.push(loc)
                &&& spec_outbound(post).len() == spec_outbound(pre).len() + 1
                &&& spec_outbound(post).drop_last() == spec_outbound(pre)
                &&& (spec_outbound(post).last() matches ClientMessage::LocationChecks { locations }
                    && locations@ == seq![loc])
                &&& pre.sent_log@.is_prefix_of(post.sent_log@)
                &&& post == (Archipelago {
                    sent_checks: post.sent_checks,
                    sent_log: post.sent_log,
                    pending: post.pending,
                    ..pre
                })
            } else {
                r is None && post == pre
            }
        },
    }
}

impl Archipelago {
    /// Report a local game-flag change. A flag turning false, an inactive
    /// session, an unknown location, or a location already reported all send
    /// nothing; otherwise one check message with the flag's network location
    /// id is handed to the outbound channel, and the id is recorded exactly
    /// when the channel took the message — a refused hand-off is retried by
    /// the next report. Returns the id that was sent and recorded, if any.
    pub fn report_flag_changed(&mut self, id: usize, value: bool) -> (r: Option<i32>)
        requires
            id + ITEM_BASE <= i32::MAX,
        ensures
            spec_report_post(*old(self), *final(self), id as int, value, r),
    {
        if !value {
            return None;
        }
        if !(matches!(self.state, ArchipelagoState::Active)) {
            return None;
        }
        let loc: i32 = id as i32 + ITEM_BASE;
        let title: String = "Cave Story".to_owned();
        let known: bool = match &self.data_package {
            Some(dp) => match dp.game(&title) {
                Some(g) => g.knows_location_id(loc),
                None => false,
            },
            None => false,
        };
        if !known {
            return None;
        }
        if contains_i32(&self.sent_checks, loc) {
            return None;
        }
        if self.outbox.is_none() {
            return None;
        }
        let locations: Vec<i32> = vec![loc];
        proof {
            assert(locations@ =~= seq![loc]);
        }
        self.sent_checks.push(loc);
        let msg = ClientMessage::LocationChecks { locations };
        let ghost gm = msg;
        self.send(msg);
        proof {
            assert(spec_outbound(*self).drop_last() =~= spec_outbound(*old(self)));
            assert(spec_outbound(*self).last() == gm);
        }
        Some(loc)
    }
}

impl Archipelago {
    /// Report a local game-flag change; see [`Archipelago::report_flag_changed`].
    pub fn process_flag(&mut self, id: usize, value: bool)
        requires
            id + ITEM_BASE <= i32::MAX,
        ensures
            exists|r: Option<i32>|
                #[trigger] spec_report_post(*old(self), *final(self), id as int, value, r),
    {
        let reported = self.report_flag_changed(id, value);
        proof {
            assert(spec_report_post(*old(self), *self, id as int, value, reported));
        }
    }
}

/// Report a local game-flag change; see [`Archipelago::report_flag_changed`].
pub fn handle_flag(ap: &mut Archipelago, id: usize, value: bool)
    requires
        id + ITEM_BASE <= i32::MAX,
    ensures
        exists|r: Option<i32>|
            #[trigger] spec_report_post(*old(ap), *final(ap), id as int, value, r),
{
    let reported = ap.report_flag_changed(id, value);
    proof {
        assert(spec_report_post(*old(ap), *ap, id as int, value, reported));
    }
}

/// A flag-change report for a flag whose network location id is not in the
/// known-location set sends no check message, whatever the value; nor does
/// any report of a flag turning false.
pub proof fn lemma_unknown_flag_never_sent(ap: Archipelago, id: int, value: bool)
    requires
        !spec_known_location(ap, (id + ITEM_BASE) as i32),
    ensures
        spec_check_decision(ap, id, value) is None,
{
}

/// A flag turning false never sends a check message.
pub proof fn lemma_false_flag_never_sent(ap: Archipelago, id: int)
    ensures
        spec_check_decision(ap, id, false) is None,
{
}

/// After a check message for a flag went out, a repeated report of the same
/// flag turning true sends nothing: across repeated `true` reports exactly
/// one check message is sent.
pub proof fn lemma_flag_reported_once(pre: Archipelago, post: Archipelago, id: int, loc: i32)
    requires
        spec_check_decision(pre, id, true) == Some(loc),
        post.sent_checks@ == pre.sent_checks@.push(loc),
        post.state == pre.state,
        post.data_package == pre.data_package,
    ensures
        spec_check_decision(post, id, true) is None,
{
    assert(post.sent_checks@[pre.sent_checks@.len() as int] == loc);
    assert(post.sent_checks@.contains(loc));
}

/// Across repeated reports of the same flag turning true, exactly one check
/// message is handed on and recorded: once a report has recorded the
/// location, the next report of the same flag decides nothing, changes
/// nothing, and hands nothing to the channel.
pub proof fn lemma_check_sent_once(
    pre: Archipelago,
    mid: Archipelago,
    post: Archipelago,
    id: int,
    loc: i32,
    r2: Option<i32>,
)
    requires
        spec_check_decision(pre, id, true) == Some(loc),
        mid.sent_checks@ == pre.sent_checks@.push(loc),
        mid.state == pre.state,
        mid.data_package == pre.data_package,
        spec_report_post(mid, post, id, true, r2),
    ensures
        r2 is None,
        post == mid,
        post.sent_log == mid.sent_log,
{
    lemma_flag_reported_once(pre, mid, id, loc);
}

/// Once the bridge has no inbound channel — as after closure was observed —
/// every further poll returns `None` and leaves the session untouched, so the
/// state flips to `Disconnected` at most once.
pub proof fn lemma_poll_after_close(
    pre: Archipelago,
    post: Archipelago,
    r: Option<ServerMessage>,
)
    requires
        pre.inbox is None,
        spec_poll_post(pre, post, r),
    ensures
        r is None,
        post == pre,
{
}

/// A poll changes the lifecycle state only by flipping it to `Disconnected`,
/// and then only while dropping the inbound channel end: the flip can happen
/// at most once across any run of polls.
pub proof fn lemma_poll_disconnects_once(
    s0: Archipelago,
    s1: Archipelago,
    s2: Archipelago,
    r1: Option<ServerMessage>,
    r2: Option<ServerMessage>,
)
    requires
        spec_poll_post(s0, s1, r1),
        s1.state != s0.state,
        spec_poll_post(s1, s2, r2),
    ensures
        s1.state is Disconnected,
        s1.inbox is None,
        r2 is None,
        s2 == s1,
{
}

} // verus!
