//! The client's decisions: send the handshake, wait for a priming packet,
//! time the arrival of the packet budget, report the throughput, drain what
//! is still in flight, and ask the server to stop for as long as it sends.
//!
//! The caller owns the socket and the clock. It performs each
//! `ClientAction`, reports what came of it as a `ClientEvent`, and hands
//! that to `Client::step`, until the action is `Finish` or `Abort`.

use crate::throughput::{packets_per_second, pps_of};
use vstd::prelude::*;

verus! {

/// Where the client stands.
#[derive(Clone, Copy, Debug, PartialEq, Eq, Structural)]
pub enum ClientPhase {
    /// The handshake is being sent.
    Handshake,
    /// Waiting for the first data packet, which is not timed.
    Priming,
    /// The clock runs; `received` data packets have been counted so far.
    Measuring { received: u64 },
    /// The budget was passed; waiting for the elapsed time.
    Timing,
    /// Discarding what is still in flight, with a short timeout.
    Draining,
    /// Probing for data that the server still sends.
    Teardown,
    /// A stop request is being sent, then a pause; whatever comes of the
    /// send, the next action is a probe.
    Stopping,
    /// The session is over.
    Done,
    /// The session failed before the measurement was complete.
    Aborted,
}

/// What the caller is asked to do next.
#[derive(Clone, Copy, Debug, PartialEq, Eq, Structural)]
pub enum ClientAction {
    /// Send the handshake request to the server.
    SendHandshake,
    /// Wait, without a timeout, for one data packet.
    AwaitPriming,
    /// Start the clock, then wait, without a timeout, for one data packet.
    StartClock,
    /// Wait, without a timeout, for one data packet.
    ReceiveData,
    /// Read the clock: report the elapsed milliseconds as `Elapsed`.
    StopClock,
    /// Report this figure, then receive with the short drain timeout.
    Report { pps: u128 },
    /// Receive again with the short drain timeout.
    Drain,
    /// Receive one byte with the short timeout.
    Probe,
    /// Send the stop request, then pause.
    SendStop,
    /// End the session: the run is complete.
    Finish,
    /// End the session: it failed.
    Abort,
}

/// What came of the last action.
#[derive(Clone, Copy, Debug, PartialEq, Eq, Structural)]
pub enum ClientEvent {
    /// A send completed.
    Sent,
    /// A receive returned data.
    Received,
    /// A receive with a timeout elapsed with nothing to read.
    TimedOut,
    /// A send or a receive failed.
    Failed,
    /// The clock read this many milliseconds since it was started.
    Elapsed { ms: u64 },
}

/// A client session with its packet budget.
#[derive(Clone, Copy, Debug)]
pub struct Client {
    pub packet_budget: u32,
    pub phase: ClientPhase,
}

/// Whether an event reports a failed or timed-out receive.
pub open spec fn is_silence(e: ClientEvent) -> bool {
    e == ClientEvent::TimedOut || e == ClientEvent::Failed
}

/// One transition for a budget of `budget` packets: the next phase and the
/// action it asks for.
pub open spec fn client_step(budget: u32, p: ClientPhase, e: ClientEvent) -> (
    ClientPhase,
    ClientAction,
) {
    match p {
        ClientPhase::Handshake => match e {
            ClientEvent::Sent => (ClientPhase::Priming, ClientAction::AwaitPriming),
            ClientEvent::Failed => (ClientPhase::Aborted, ClientAction::Abort),
            _ => (p, ClientAction::SendHandshake),
        },
        ClientPhase::Priming => match e {
            ClientEvent::Received => (
                ClientPhase::Measuring { received: 0 },
                ClientAction::StartClock,
            ),
            ClientEvent::TimedOut | ClientEvent::Failed => (
                ClientPhase::Aborted,
                ClientAction::Abort,
            ),
            _ => (p, ClientAction::AwaitPriming),
        },
        ClientPhase::Measuring { received } => match e {
            ClientEvent::Received => if received + 1 > budget {
                (ClientPhase::Timing, ClientAction::StopClock)
            } else {
                (
                    ClientPhase::Measuring { received: (received + 1) as u64 },
                    ClientAction::ReceiveData,
                )
            },
            ClientEvent::TimedOut | ClientEvent::Failed => (
                ClientPhase::Aborted,
                ClientAction::Abort,
            ),
            _ => (p, ClientAction::ReceiveData),
        },
        ClientPhase::Timing => match e {
            ClientEvent::Elapsed { ms } => (
                ClientPhase::Draining,
                ClientAction::Report { pps: pps_of(ms as nat, budget as nat) as u128 },
            ),
            _ => (p, ClientAction::StopClock),
        },
        ClientPhase::Draining => match e {
            ClientEvent::TimedOut | ClientEvent::Failed => (
                ClientPhase::Teardown,
                ClientAction::Probe,
            ),
            _ => (p, ClientAction::Drain),
        },
        ClientPhase::Teardown => match e {
            ClientEvent::Received => (ClientPhase::Stopping, ClientAction::SendStop),
            ClientEvent::TimedOut | ClientEvent::Failed => (
                ClientPhase::Done,
                ClientAction::Finish,
            ),
            _ => (p, ClientAction::Probe),
        },
        ClientPhase::Stopping => (ClientPhase::Teardown, ClientAction::Probe),
        ClientPhase::Done => (p, ClientAction::Finish),
        ClientPhase::Aborted => (p, ClientAction::Abort),
    }
}

/// The phases and actions of a run: one action for each event, in order.
pub open spec fn client_run(budget: u32, p: ClientPhase, es: Seq<ClientEvent>) -> (
    ClientPhase,
    Seq<ClientAction>,
)
    decreases es.len(),
{
    if es.len() == 0 {
        (p, Seq::empty())
    } else {
        let (mid, acts) = client_run(budget, p, es.drop_last());
        let (next, a) = client_step(budget, mid, es.last());
        (next, acts.push(a))
    }
}

impl Client {
    /// The budget is positive and the count stays within it.
    pub open spec fn wf(self) -> bool {
        &&& self.packet_budget > 0
        &&& match self.phase {
            ClientPhase::Measuring { received } => received <= self.packet_budget,
            _ => true,
        }
    }

    /// A session for a budget of `packet_budget` packets, with its first
    /// action: sending the handshake.
    pub fn new(packet_budget: u32) -> (r: (Client, ClientAction))
        requires
            packet_budget > 0,
        ensures
            r.0.packet_budget == packet_budget,
            r.0.phase == ClientPhase::Handshake,
            r.1 == ClientAction::SendHandshake,
            r.0.wf(),
    {
        (Client { packet_budget, phase: ClientPhase::Handshake }, ClientAction::SendHandshake)
    }

    /// Takes the outcome of the last action and decides the next one.
    pub fn step(&mut self, event: ClientEvent) -> (r: ClientAction)
        requires
            old(self).wf(),
        ensures
            final(self).packet_budget == old(self).packet_budget,
            (final(self).phase, r) == client_step(old(self).packet_budget, old(self).phase, event),
            final(self).wf(),
    {
        let budget = self.packet_budget;
        let (next, action) = match self.phase {
            ClientPhase::Handshake => match event {
                ClientEvent::Sent => (ClientPhase::Priming, ClientAction::AwaitPriming),
                ClientEvent::Failed => (ClientPhase::Aborted, ClientAction::Abort),
                _ => (self.phase, ClientAction::SendHandshake),
            },
            ClientPhase::Priming => match event {
                ClientEvent::Received => (
                    ClientPhase::Measuring { received: 0 },
                    ClientAction::StartClock,
                ),
                ClientEvent::TimedOut | ClientEvent::Failed => (
                    ClientPhase::Aborted,
                    ClientAction::Abort,
                ),
                _ => (self.phase, ClientAction::AwaitPriming),
            },
            ClientPhase::Measuring { received } => match event {
                ClientEvent::Received => if received + 1 > budget as u64 {
                    (ClientPhase::Timing, ClientAction::StopClock)
                } else {
                    (ClientPhase::Measuring { received: received + 1 }, ClientAction::ReceiveData)
                },
                ClientEvent::TimedOut | ClientEvent::Failed => (
                    ClientPhase::Aborted,
                    ClientAction::Abort,
                ),
                _ => (self.phase, ClientAction::ReceiveData),
            },
            ClientPhase::Timing => match event {
                ClientEvent::Elapsed { ms } => (
                    ClientPhase::Draining,
                    ClientAction::Report { pps: packets_per_second(ms, budget) },
                ),
                _ => (self.phase, ClientAction::StopClock),
            },
            ClientPhase::Draining => match event {
                ClientEvent::TimedOut | ClientEvent::Failed => (
                    ClientPhase::Teardown,
                    ClientAction::Probe,
                ),
                _ => (self.phase, ClientAction::Drain),
            },
            ClientPhase::Teardown => match event {
                ClientEvent::Received => (ClientPhase::Stopping, ClientAction::SendStop),
                ClientEvent::TimedOut | ClientEvent::Failed => (
                    ClientPhase::Done,
                    ClientAction::Finish,
                ),
                _ => (self.phase, ClientAction::Probe),
            },
            ClientPhase::Stopping => (ClientPhase::Teardown, ClientAction::Probe),
            ClientPhase::Done => (self.phase, ClientAction::Finish),
            ClientPhase::Aborted => (self.phase, ClientAction::Abort),
        };
        self.phase = next;
        action
    }
}

/// The number of receives in a run that returned data.
pub open spec fn count_received(es: Seq<ClientEvent>) -> nat
    decreases es.len(),
{
    if es.len() == 0 {
        0
    } else {
        count_received(es.drop_last()) + if es.last() == ClientEvent::Received {
            1nat
        } else {
            0nat
        }
    }
}

/// Whether the measurement is over: the clock was stopped and every later
/// phase of a session that did not fail.
pub open spec fn is_measured(p: ClientPhase) -> bool {
    match p {
        ClientPhase::Timing | ClientPhase::Draining | ClientPhase::Teardown
        | ClientPhase::Stopping | ClientPhase::Done => true,
        _ => false,
    }
}

/// The phases after the drain: probing, stopping and done.
pub open spec fn is_closing(p: ClientPhase) -> bool {
    p == ClientPhase::Teardown || p == ClientPhase::Stopping || p == ClientPhase::Done
}

proof fn lemma_client_run_len(budget: u32, p: ClientPhase, es: Seq<ClientEvent>)
    ensures
        client_run(budget, p, es).1.len() == es.len(),
    decreases es.len(),
{
    if es.len() > 0 {
        lemma_client_run_len(budget, p, es.drop_last());
    }
}

proof fn lemma_count_received_bound(budget: u32, es: Seq<ClientEvent>)
    requires
        budget > 0,
    ensures
        ({
            let p = client_run(budget, ClientPhase::Handshake, es).0;
            &&& (Client { packet_budget: budget, phase: p }).wf()
            &&& p matches ClientPhase::Measuring { received } ==> count_received(es)
                >= received + 1
            &&& is_measured(p) ==> count_received(es) >= budget + 2
        }),
    decreases es.len(),
{
    if es.len() > 0 {
        lemma_count_received_bound(budget, es.drop_last());
    }
}

/// A session never stops the clock, and so never computes a figure, before
/// its receives have returned `packet_budget + 2` data packets: the untimed
/// priming packet, then `packet_budget + 1` timed ones (the count must pass
/// the budget).
pub proof fn lemma_budget_received_before_report(packet_budget: u32, es: Seq<ClientEvent>)
    requires
        packet_budget > 0,
        is_measured(client_run(packet_budget, ClientPhase::Handshake, es).0),
    ensures
        count_received(es) >= packet_budget + 2,
{
    lemma_count_received_bound(packet_budget, es);
}

/// After the drain has timed out, the client sends a stop request only in
/// answer to a receive that returned data, one for each such receive; a
/// failed or timed-out probe ends the session, after which nothing more is
/// sent.
pub proof fn lemma_teardown(packet_budget: u32, es: Seq<ClientEvent>)
    ensures
        is_closing(client_run(packet_budget, ClientPhase::Teardown, es).0),
        forall|i: int|
            0 <= i < es.len() && #[trigger] client_run(packet_budget, ClientPhase::Teardown, es).1[i]
                == ClientAction::SendStop ==> es[i] == ClientEvent::Received,
        forall|e: ClientEvent|
            is_silence(e) ==> #[trigger] client_step(packet_budget, ClientPhase::Teardown, e) == (
                ClientPhase::Done,
                ClientAction::Finish,
            ),
        client_run(packet_budget, ClientPhase::Done, es).0 == ClientPhase::Done,
        client_run(packet_budget, ClientPhase::Done, es).1 =~= Seq::new(
            es.len(),
            |i: int| ClientAction::Finish,
        ),
    decreases es.len(),
{
    if es.len() > 0 {
        lemma_teardown(packet_budget, es.drop_last());
        lemma_client_run_len(packet_budget, ClientPhase::Teardown, es.drop_last());
        assert(es.last() == es[es.len() - 1]);
        let acts = client_run(packet_budget, ClientPhase::Teardown, es).1;
        let prev = client_run(packet_budget, ClientPhase::Teardown, es.drop_last()).1;
        assert forall|i: int|
            0 <= i < es.len() && #[trigger] acts[i] == ClientAction::SendStop implies es[i]
                == ClientEvent::Received by {
            if i < es.len() - 1 {
                assert(acts[i] == prev[i]);
                assert(es.drop_last()[i] == es[i]);
            }
        }
    }
}

} // verus!
