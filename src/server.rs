//! The server's decisions: listen for a handshake, stream data packets to the
//! peer that sent it, check for a stop request after every full interval of
//! packets, and go back to listening when the peer stops or vanishes.
//!
//! The caller owns the socket. It performs each `ServerAction`, reports what
//! came of it as a `ServerEvent`, and hands that to `ServerState::step`.

use crate::wire::{handshake_bytes, is_handshake, is_stop_request, stop_bytes};
use vstd::prelude::*;

verus! {

/// Number of data packets sent between two checks for a stop request.
pub const CHECKPOINT_INTERVAL: u64 = 100;

/// Where the server stands.
#[derive(Clone, Copy, Debug, PartialEq, Eq, Structural)]
pub enum ServerState {
    /// No peer: waiting for a handshake.
    Listening,
    /// Streaming to the accepted peer; `since_checkpoint` packets have gone
    /// out since the handshake or the last check, and one more is being sent.
    Streaming { since_checkpoint: u64 },
    /// A full interval has gone out: waiting, for a bounded time, for a stop
    /// request before the next packet.
    Checkpoint,
}

/// What the caller is asked to do next.
#[derive(Clone, Copy, Debug, PartialEq, Eq, Structural)]
pub enum ServerAction {
    /// Wait, for a bounded time, for a datagram of up to
    /// `wire::HANDSHAKE_LEN` bytes from any sender.
    AwaitHandshake,
    /// Take the sender of the handshake as the peer, then send it a data
    /// packet that is not the last of its stream.
    AcceptPeer,
    /// Send the peer a data packet that is not the last of its stream.
    SendData,
    /// Wait, for a bounded time, for a datagram of up to `wire::STOP_LEN`
    /// bytes from the peer.
    AwaitStop,
    /// Release the peer, then wait as for `AwaitHandshake`.
    ClosePeer,
}

/// What came of the last action.
#[derive(Debug)]
pub enum ServerEvent {
    /// A receive returned these bytes.
    Received(Vec<u8>),
    /// A bounded receive elapsed with nothing to read.
    TimedOut,
    /// A data packet was sent.
    Sent,
    /// A send or a receive failed.
    Failed,
}

/// A `ServerEvent` with the received bytes as a sequence.
pub enum ServerInput {
    Datagram(Seq<u8>),
    TimedOut,
    Sent,
    Failed,
}

impl View for ServerEvent {
    type V = ServerInput;

    open spec fn view(&self) -> ServerInput {
        match self {
            ServerEvent::Received(b) => ServerInput::Datagram(b@),
            ServerEvent::TimedOut => ServerInput::TimedOut,
            ServerEvent::Sent => ServerInput::Sent,
            ServerEvent::Failed => ServerInput::Failed,
        }
    }
}

impl ServerState {
    /// The counter stays below the interval.
    pub open spec fn wf(self) -> bool {
        match self {
            ServerState::Streaming { since_checkpoint } => since_checkpoint < CHECKPOINT_INTERVAL,
            _ => true,
        }
    }
}

/// One transition: the next state and the action it asks for.
pub open spec fn server_step(s: ServerState, e: ServerInput) -> (ServerState, ServerAction) {
    match s {
        ServerState::Listening => match e {
            ServerInput::Datagram(b) => if b == handshake_bytes() {
                (ServerState::Streaming { since_checkpoint: 0 }, ServerAction::AcceptPeer)
            } else {
                (ServerState::Listening, ServerAction::AwaitHandshake)
            },
            _ => (ServerState::Listening, ServerAction::AwaitHandshake),
        },
        ServerState::Streaming { since_checkpoint } => match e {
            ServerInput::Sent => if since_checkpoint + 1 == CHECKPOINT_INTERVAL {
                (ServerState::Checkpoint, ServerAction::AwaitStop)
            } else {
                (
                    ServerState::Streaming { since_checkpoint: (since_checkpoint + 1) as u64 },
                    ServerAction::SendData,
                )
            },
            ServerInput::Failed => (ServerState::Listening, ServerAction::ClosePeer),
            _ => (s, ServerAction::SendData),
        },
        ServerState::Checkpoint => match e {
            ServerInput::Datagram(b) => if b == stop_bytes() {
                (ServerState::Listening, ServerAction::ClosePeer)
            } else {
                (ServerState::Streaming { since_checkpoint: 0 }, ServerAction::SendData)
            },
            ServerInput::Sent => (ServerState::Checkpoint, ServerAction::AwaitStop),
            _ => (ServerState::Streaming { since_checkpoint: 0 }, ServerAction::SendData),
        },
    }
}

/// The states and actions of a run: one action for each event, in order.
pub open spec fn server_run(s: ServerState, es: Seq<ServerInput>) -> (
    ServerState,
    Seq<ServerAction>,
)
    decreases es.len(),
{
    if es.len() == 0 {
        (s, Seq::empty())
    } else {
        let (mid, acts) = server_run(s, es.drop_last());
        let (next, a) = server_step(mid, es.last());
        (next, acts.push(a))
    }
}

impl ServerState {
    /// A server that has just started: listening, with `AwaitHandshake` as
    /// its first action.
    pub fn new() -> (r: (ServerState, ServerAction))
        ensures
            r == (ServerState::Listening, ServerAction::AwaitHandshake),
    {
        (ServerState::Listening, ServerAction::AwaitHandshake)
    }

    /// Takes the outcome of the last action and decides the next one.
    pub fn step(self, event: &ServerEvent) -> (r: (ServerState, ServerAction))
        requires
            self.wf(),
        ensures
            r == server_step(self, event@),
            r.0.wf(),
    {
        match self {
            ServerState::Listening => match event {
                ServerEvent::Received(b) => if is_handshake(b.as_slice()) {
                    (ServerState::Streaming { since_checkpoint: 0 }, ServerAction::AcceptPeer)
                } else {
                    (ServerState::Listening, ServerAction::AwaitHandshake)
                },
                _ => (ServerState::Listening, ServerAction::AwaitHandshake),
            },
            ServerState::Streaming { since_checkpoint } => match event {
                ServerEvent::Sent => if since_checkpoint + 1 == CHECKPOINT_INTERVAL {
                    (ServerState::Checkpoint, ServerAction::AwaitStop)
                } else {
                    (
                        ServerState::Streaming { since_checkpoint: since_checkpoint + 1 },
                        ServerAction::SendData,
                    )
                },
                ServerEvent::Failed => (ServerState::Listening, ServerAction::ClosePeer),
                _ => (self, ServerAction::SendData),
            },
            ServerState::Checkpoint => match event {
                ServerEvent::Received(b) => if is_stop_request(b.as_slice()) {
                    (ServerState::Listening, ServerAction::ClosePeer)
                } else {
                    (ServerState::Streaming { since_checkpoint: 0 }, ServerAction::SendData)
                },
                ServerEvent::Sent => (ServerState::Checkpoint, ServerAction::AwaitStop),
                _ => (ServerState::Streaming { since_checkpoint: 0 }, ServerAction::SendData),
            },
        }
    }
}

/// `n` successful sends in a row.
pub open spec fn sends(n: nat) -> Seq<ServerInput> {
    Seq::new(n, |i: int| ServerInput::Sent)
}

/// The actions asked for while an interval of `k` packets goes out: the next
/// packet after each send, and the check for a stop request after the last
/// send of a full interval.
pub open spec fn interval_actions(k: nat) -> Seq<ServerAction> {
    Seq::new(
        k,
        |i: int|
            if i + 1 == CHECKPOINT_INTERVAL {
                ServerAction::AwaitStop
            } else {
                ServerAction::SendData
            },
    )
}

/// Whether a datagram in a run is the handshake.
pub open spec fn holds_handshake(es: Seq<ServerInput>) -> bool {
    exists|i: int| 0 <= i < es.len() && #[trigger] es[i] == ServerInput::Datagram(handshake_bytes())
}

/// Whether an action puts a data packet on the wire.
pub open spec fn sends_data(a: ServerAction) -> bool {
    a == ServerAction::AcceptPeer || a == ServerAction::SendData
}

/// Running two stretches of events one after the other is running their
/// concatenation.
pub proof fn lemma_server_run_append(s: ServerState, a: Seq<ServerInput>, b: Seq<ServerInput>)
    ensures
        server_run(s, a + b) == (
            server_run(server_run(s, a).0, b).0,
            server_run(s, a).1 + server_run(server_run(s, a).0, b).1,
        ),
    decreases b.len(),
{
    if b.len() == 0 {
        assert(a + b =~= a);
        assert(server_run(s, a).1 + Seq::<ServerAction>::empty() =~= server_run(s, a).1);
    } else {
        assert((a + b).drop_last() =~= a + b.drop_last());
        lemma_server_run_append(s, a, b.drop_last());
        let mid = server_run(s, a).0;
        let acts_b = server_run(mid, b.drop_last()).1;
        let (_, x) = server_step(server_run(mid, b.drop_last()).0, b.last());
        assert((server_run(s, a).1 + acts_b).push(x) =~= server_run(s, a).1 + acts_b.push(x));
    }
}

/// From the start of an interval (just after the handshake, or after a
/// check that found no stop request), each of the first
/// `CHECKPOINT_INTERVAL - 1` sends is followed by the next packet, and the
/// send that completes the interval is followed by exactly one bounded wait
/// for a stop request, before any further packet.
pub proof fn lemma_checkpoint_interval(k: nat)
    requires
        k <= CHECKPOINT_INTERVAL,
    ensures
        server_run(ServerState::Streaming { since_checkpoint: 0 }, sends(k)) == (
            if k == CHECKPOINT_INTERVAL {
                ServerState::Checkpoint
            } else {
                ServerState::Streaming { since_checkpoint: k as u64 }
            },
            interval_actions(k),
        ),
    decreases k,
{
    if k > 0 {
        let km1 = (k - 1) as nat;
        assert(sends(k).drop_last() =~= sends(km1));
        lemma_checkpoint_interval(km1);
        assert(interval_actions(km1).push(
            if k == CHECKPOINT_INTERVAL {
                ServerAction::AwaitStop
            } else {
                ServerAction::SendData
            },
        ) =~= interval_actions(k));
    } else {
        assert(interval_actions(0) =~= Seq::<ServerAction>::empty());
    }
}

/// While no datagram is the handshake, a listening server stays listening,
/// takes no peer and sends nothing: every action is a further wait for a
/// handshake.
pub proof fn lemma_handshake_filter(es: Seq<ServerInput>)
    requires
        !holds_handshake(es),
    ensures
        server_run(ServerState::Listening, es).0 == ServerState::Listening,
        server_run(ServerState::Listening, es).1 =~= Seq::new(
            es.len(),
            |i: int| ServerAction::AwaitHandshake,
        ),
    decreases es.len(),
{
    if es.len() > 0 {
        assert(!holds_handshake(es.drop_last())) by {
            if holds_handshake(es.drop_last()) {
                let i = choose|i: int|
                    0 <= i < es.drop_last().len() && #[trigger] es.drop_last()[i]
                        == ServerInput::Datagram(handshake_bytes());
                assert(es[i] == es.drop_last()[i]);
            }
        }
        lemma_handshake_filter(es.drop_last());
        assert(es.last() == es[es.len() - 1]);
    }
}

/// A stop request at a check ends the session: the server releases the peer
/// and, until a new handshake arrives, sends no further packet.
pub proof fn lemma_stop_ends_stream(stop: Seq<u8>, es: Seq<ServerInput>)
    requires
        stop == stop_bytes(),
        !holds_handshake(es),
    ensures
        server_run(ServerState::Checkpoint, seq![ServerInput::Datagram(stop)] + es).0
            == ServerState::Listening,
        server_run(ServerState::Checkpoint, seq![ServerInput::Datagram(stop)] + es).1[0]
            == ServerAction::ClosePeer,
        forall|i: int|
            0 <= i < es.len() + 1 ==> !sends_data(
                #[trigger] server_run(
                    ServerState::Checkpoint,
                    seq![ServerInput::Datagram(stop)] + es,
                ).1[i],
            ),
{
    let first = seq![ServerInput::Datagram(stop)];
    lemma_server_run_append(ServerState::Checkpoint, first, es);
    assert(first.drop_last() =~= Seq::<ServerInput>::empty());
    assert(first.last() == ServerInput::Datagram(stop));
    assert(server_run(ServerState::Checkpoint, first.drop_last()).1 =~= Seq::<ServerAction>::empty());
    assert(server_run(ServerState::Checkpoint, first) == (
        ServerState::Listening,
        seq![ServerAction::ClosePeer],
    ));
    lemma_handshake_filter(es);
    let all = server_run(ServerState::Checkpoint, first + es).1;
    assert(all =~= seq![ServerAction::ClosePeer] + server_run(ServerState::Listening, es).1);
}

} // verus!
