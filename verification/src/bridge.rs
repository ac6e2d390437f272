//! The readiness bridge: how a blocking notification socket is read from a
//! poll-driven task without busy-waiting.
//!
//! The socket buffers hotplug records and signals through its file descriptor
//! that more may have arrived. One poll of the bridge first drains a record
//! that is buffered already. With none buffered it asks whether the descriptor
//! is readable; if it is not, the task is suspended until it is. A wake-up
//! that brought no record clears the readiness flag and drains again, so that
//! the next question really suspends.
//!
//! The bridge decides; the caller owns the socket and does the draining,
//! asking and clearing, and reports each outcome to the bridge.

use vstd::prelude::*;

use crate::hotplug::HotplugRecord;

verus! {

/// Where the bridge stands between two reports of its caller.
#[derive(Clone, Copy, Debug, PartialEq, Eq, Structural)]
pub enum Phase {
    /// The caller drains one buffered record next and reports it with
    /// [`AsyncMonitorSocket::drained`]. Every poll starts here.
    Draining,
    /// The caller asks for readiness next and reports the answer with
    /// [`AsyncMonitorSocket::readiness`].
    Waiting,
    /// A failure was handed out. The bridge must not be polled again.
    Finished,
}

/// What asking the socket for readiness gave.
pub enum Readiness {
    /// The descriptor is flagged as readable.
    Ready,
    /// The descriptor is not readable; the task will be woken when it is.
    Pending,
    /// Asking failed.
    Failed(std::io::Error),
}

/// What the caller does after a report.
pub enum BridgeStep {
    /// Hand the record out as the next item. This ends the poll.
    Yield(HotplugRecord),
    /// Hand the failure out as the last item. This ends the poll and the
    /// stream.
    Fail(std::io::Error),
    /// Answer that nothing is ready. This ends the poll; the task sleeps until
    /// the descriptor is readable.
    Suspend,
    /// Ask the socket for readiness.
    PollReadiness,
    /// Clear the readiness flag, then drain again.
    ClearReadiness,
}

/// The step after a drain gave `record`.
pub open spec fn after_drain(record: Option<HotplugRecord>) -> BridgeStep {
    match record {
        Some(found) => BridgeStep::Yield(found),
        None => BridgeStep::PollReadiness,
    }
}

/// The step after asking for readiness gave `readiness`.
pub open spec fn after_readiness(readiness: Readiness) -> BridgeStep {
    match readiness {
        Readiness::Ready => BridgeStep::ClearReadiness,
        Readiness::Pending => BridgeStep::Suspend,
        Readiness::Failed(error) => BridgeStep::Fail(error),
    }
}

/// The phase in which `step` leaves the bridge.
pub open spec fn phase_after(step: BridgeStep) -> Phase {
    match step {
        BridgeStep::Yield(_) => Phase::Draining,
        BridgeStep::Fail(_) => Phase::Finished,
        BridgeStep::Suspend => Phase::Draining,
        BridgeStep::PollReadiness => Phase::Waiting,
        BridgeStep::ClearReadiness => Phase::Draining,
    }
}

/// The deciding half of an asynchronous monitor socket.
///
/// It is driven by one reader at a time: every report takes the bridge by
/// `&mut`.
#[derive(Debug)]
pub struct AsyncMonitorSocket {
    phase: Phase,
}

impl AsyncMonitorSocket {
    /// The phase that the bridge is in.
    pub closed spec fn phase(&self) -> Phase {
        self.phase
    }

    /// A bridge that is about to be polled for the first time.
    pub fn new() -> (bridge: AsyncMonitorSocket)
        ensures
            bridge.phase() == Phase::Draining,
    {
        AsyncMonitorSocket { phase: Phase::Draining }
    }

    /// Computes [`AsyncMonitorSocket::phase`].
    pub fn current_phase(&self) -> (phase: Phase)
        ensures
            phase == self.phase(),
    {
        self.phase
    }

    /// Reports what draining the socket gave: the oldest buffered record, or
    /// `None` where nothing was buffered. A record is handed out at once;
    /// without one the socket is asked for readiness.
    pub fn drained(&mut self, record: Option<HotplugRecord>) -> (step: BridgeStep)
        requires
            old(self).phase() == Phase::Draining,
        ensures
            step == after_drain(record),
            final(self).phase() == phase_after(step),
    {
        match record {
            Some(found) => BridgeStep::Yield(found),
            None => {
                self.phase = Phase::Waiting;
                BridgeStep::PollReadiness
            },
        }
    }

    /// Reports what asking for readiness gave. A readable descriptor has its
    /// flag cleared and is drained again; one that is not readable suspends
    /// the task; a failure is handed out and ends the stream.
    pub fn readiness(&mut self, readiness: Readiness) -> (step: BridgeStep)
        requires
            old(self).phase() == Phase::Waiting,
        ensures
            step == after_readiness(readiness),
            final(self).phase() == phase_after(step),
    {
        match readiness {
            Readiness::Ready => {
                self.phase = Phase::Draining;
                BridgeStep::ClearReadiness
            },
            Readiness::Pending => {
                self.phase = Phase::Draining;
                BridgeStep::Suspend
            },
            Readiness::Failed(error) => {
                self.phase = Phase::Finished;
                BridgeStep::Fail(error)
            },
        }
    }
}

/// A socket as the bridge meets it while the operating system leaves it
/// alone: the records that it has buffered, oldest first, and whether its
/// readiness flag is set. Nothing arrives and nothing sets the flag.
pub struct QuietSocket {
    /// The buffered records, oldest first.
    pub buffered: Seq<HotplugRecord>,
    /// Whether the descriptor is flagged as readable.
    pub readable: bool,
}

/// How one poll of the bridge ended.
pub struct PollEnd {
    /// The record that was handed out; `None` where the task was suspended.
    pub item: Option<HotplugRecord>,
    /// The socket after the poll.
    pub socket: QuietSocket,
    /// How often the socket was drained during the poll.
    pub drains: nat,
}

/// What draining `socket` gives to the bridge.
pub open spec fn drain_gives(socket: QuietSocket) -> Option<HotplugRecord> {
    if socket.buffered.len() > 0 {
        Some(socket.buffered.first())
    } else {
        None
    }
}

/// The socket after it was drained once.
pub open spec fn drain_leaves(socket: QuietSocket) -> QuietSocket {
    if socket.buffered.len() > 0 {
        QuietSocket { buffered: socket.buffered.drop_first(), readable: socket.readable }
    } else {
        socket
    }
}

/// What asking `socket` for readiness gives to the bridge.
pub open spec fn readiness_gives(socket: QuietSocket) -> Readiness {
    if socket.readable {
        Readiness::Ready
    } else {
        Readiness::Pending
    }
}

/// One whole poll of the bridge on `socket`: the caller follows the steps of
/// [`after_drain`] and [`after_readiness`] until one of them ends the poll.
pub open spec fn poll(socket: QuietSocket) -> PollEnd
    decreases
            (if socket.readable {
                1nat
            } else {
                0nat
            }),
{
    let drained = drain_leaves(socket);
    match after_drain(drain_gives(socket)) {
        BridgeStep::Yield(found) => PollEnd { item: Some(found), socket: drained, drains: 1 },
        _ => match after_readiness(readiness_gives(drained)) {
            BridgeStep::ClearReadiness => {
                let again = poll(QuietSocket { buffered: drained.buffered, readable: false });
                PollEnd { item: again.item, socket: again.socket, drains: again.drains + 1 }
            },
            _ => PollEnd { item: None, socket: drained, drains: 1 },
        },
    }
}

/// What `count` polls in a row hand out, first poll first.
pub open spec fn polls(socket: QuietSocket, count: nat) -> Seq<Option<HotplugRecord>>
    decreases count,
{
    if count == 0 {
        Seq::empty()
    } else {
        seq![poll(socket).item] + polls(poll(socket).socket, (count - 1) as nat)
    }
}

/// A poll that finds a record buffered hands out the oldest one after a single
/// drain: it asks for no readiness and does not suspend. The other records
/// stay buffered in their order and the readiness flag is left as it was.
pub proof fn law_buffered_record_is_next(socket: QuietSocket)
    requires
        socket.buffered.len() > 0,
    ensures
        poll(socket).item == Some(socket.buffered.first()),
        poll(socket).drains == 1,
        poll(socket).socket.buffered == socket.buffered.drop_first(),
        poll(socket).socket.readable == socket.readable,
{
}

/// As many polls in a row as records are buffered hand out exactly those
/// records, oldest first, and none of the polls suspends.
pub proof fn law_buffered_records_in_order(socket: QuietSocket)
    ensures
        polls(socket, socket.buffered.len()) == socket.buffered.map_values(
            |record: HotplugRecord| Some(record),
        ),
    decreases socket.buffered.len(),
{
    let expected = socket.buffered.map_values(|record: HotplugRecord| Some(record));
    if socket.buffered.len() > 0 {
        law_buffered_record_is_next(socket);
        let rest = poll(socket).socket;
        law_buffered_records_in_order(rest);
        assert(polls(socket, socket.buffered.len()) =~= expected);
    } else {
        assert(polls(socket, socket.buffered.len()) =~= expected);
    }
}

/// A poll that finds nothing buffered hands out nothing, whether or not the
/// readiness flag is set: it ends by suspending, with the flag cleared. A flag
/// that was set without a record costs one further drain and no more.
pub proof fn law_spurious_wake_suspends(socket: QuietSocket)
    requires
        socket.buffered.len() == 0,
    ensures
        poll(socket).item is None,
        !poll(socket).socket.readable,
        poll(socket).socket.buffered == socket.buffered,
        poll(socket).drains == (if socket.readable {
            2nat
        } else {
            1nat
        }),
{
    if socket.readable {
        let cleared = QuietSocket { buffered: socket.buffered, readable: false };
        assert(poll(cleared).drains == 1);
    }
}

} // verus!
