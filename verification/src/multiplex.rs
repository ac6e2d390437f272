//! The multiplex loop: what is done about each hotplug item and each device
//! event.
//!
//! The loop waits on two sources at once, the hotplug bridge and the registry
//! of device streams, and handles whichever is ready first; an empty registry
//! takes no part in that race. Waiting is the caller's part. What follows from
//! an item is decided here, one item at a time, so that no two changes of the
//! registry ever overlap.

use evdev::EventStream;
use std::task::Context;
use vstd::prelude::*;

use crate::event::{triggers, InputEvent, TargetKeySet};
use crate::hotplug::{DeviceIdentity, HotplugAction, HotplugRecord};
use crate::registry::{added, removed, AddError, Admission, Registry};
use crate::streams::Polled;

verus! {

/// The life of the loop.
#[derive(Clone, Copy, Debug, PartialEq, Eq, Structural)]
pub enum LoopState {
    /// The devices that are present already are being enumerated.
    Starting,
    /// Hotplug items and device events are handled as they come.
    Running,
    /// The hotplug source failed. Nothing is handled any more.
    Terminated,
}

/// What the caller does about a device that was announced.
pub enum HotplugDecision {
    /// Open the node of the device and report its key capabilities to
    /// [`crate::registry::qualify`]; wrap an accepted device as an event
    /// stream and hand it to [`Multiplexer::register`]. A failure on the
    /// way is logged and the device is skipped.
    Open { identity: DeviceIdentity, devnode: Vec<u8> },
    /// The device cannot be added. Log the reason and go on.
    Skip(AddError),
    /// The item is not acted upon.
    Ignore,
    /// The hotplug source failed, which ends the loop: leave with this error.
    Exit(std::io::Error),
}

/// What the caller does about an item read from a device.
pub enum EventDecision {
    /// Start the command and go on without waiting for it to finish.
    RunCommand,
    /// The event is of no interest.
    Ignore,
    /// Reading the device failed with this error and its entry was removed
    /// from the registry. Log it and go on.
    Removed(std::io::Error),
}

/// What is done about a device that `record` reports: a tagged device that
/// appeared is opened if it has a node and skipped if it has none; every other
/// record is not acted upon.
///
/// A record of a device that disappeared evicts nothing, by choice: the
/// stream of such a device fails on its next read, and that failure removes
/// the entry. One path of removal keeps the registry's changes in step with
/// what was actually read.
pub open spec fn plan(record: HotplugRecord) -> HotplugDecision {
    if record.announces_device() {
        match record.devnode {
            Some(devnode) => HotplugDecision::Open { identity: record.identity, devnode },
            None => HotplugDecision::Skip(AddError::NoDevnode),
        }
    } else {
        HotplugDecision::Ignore
    }
}

/// What is done about an item of the hotplug bridge: a record is planned for,
/// a failure ends the loop.
pub open spec fn hotplug_decision(item: Result<HotplugRecord, std::io::Error>) -> HotplugDecision {
    match item {
        Ok(record) => plan(record),
        Err(error) => HotplugDecision::Exit(error),
    }
}

/// What is done about an item read from a device: the release of a target key
/// runs the command, any other event is of no interest, and a read failure
/// removes the device.
pub open spec fn event_decision(targets: Set<u16>, item: Result<InputEvent, std::io::Error>) -> EventDecision {
    match item {
        Ok(event) => if triggers(targets, event) {
            EventDecision::RunCommand
        } else {
            EventDecision::Ignore
        },
        Err(error) => EventDecision::Removed(error),
    }
}

/// Computes [`plan`].
pub fn reconcile(record: HotplugRecord) -> (decision: HotplugDecision)
    ensures
        decision == plan(record),
{
    if record.is_announcement() {
        let HotplugRecord { action: _, identity, devnode, tag_match: _ } = record;
        match devnode {
            Some(devnode) => HotplugDecision::Open { identity, devnode },
            None => HotplugDecision::Skip(AddError::NoDevnode),
        }
    } else {
        HotplugDecision::Ignore
    }
}

/// The state of the loop: where it stands in its life, the target keys, and
/// the registry, which it alone owns.
pub struct Multiplexer {
    state: LoopState,
    targets: TargetKeySet,
    registry: Registry,
}

impl Multiplexer {
    /// Where the loop stands in its life.
    pub closed spec fn state(&self) -> LoopState {
        self.state
    }

    /// The target keys, which never change.
    pub closed spec fn targets(&self) -> Set<u16> {
        self.targets@
    }

    /// The registered devices with their streams.
    pub closed spec fn devices(&self) -> Map<Seq<u8>, EventStream> {
        self.registry@
    }

    /// A loop that is starting, with no device registered.
    pub fn new(targets: TargetKeySet) -> (mux: Multiplexer)
        ensures
            mux.state() == LoopState::Starting,
            mux.targets() == targets@,
            mux.devices() == Map::<Seq<u8>, EventStream>::empty(),
    {
        Multiplexer { state: LoopState::Starting, targets, registry: Registry::new() }
    }

    /// Computes [`Multiplexer::state`].
    pub fn current_state(&self) -> (state: LoopState)
        ensures
            state == self.state(),
    {
        self.state
    }

    /// The target keys.
    pub fn target_keys(&self) -> (targets: &TargetKeySet)
        ensures
            targets@ == self.targets(),
    {
        &self.targets
    }

    /// The registry, to look into.
    pub fn registry(&self) -> (registry: &Registry)
        ensures
            registry@ == self.devices(),
    {
        &self.registry
    }

    /// Whether the registry takes part in the race between the two sources:
    /// it does unless it is empty.
    pub fn waits_for_devices(&self) -> (waits: bool)
        ensures
            waits == (self.devices() != Map::<Seq<u8>, EventStream>::empty()),
    {
        !self.registry.is_empty()
    }

    /// While starting: what is done about a device that the enumeration of
    /// the tagged devices found. It is treated as a tagged device that has
    /// just appeared.
    pub fn found(&self, identity: DeviceIdentity, devnode: Option<Vec<u8>>) -> (decision:
        HotplugDecision)
        requires
            self.state() == LoopState::Starting,
        ensures
            decision == plan(
                (HotplugRecord { action: HotplugAction::Added, identity, devnode, tag_match: true }),
            ),
    {
        reconcile(HotplugRecord::new(HotplugAction::Added, identity, devnode, true))
    }

    /// Ends the enumeration: the loop is running from now on. The registry is
    /// as the enumeration left it.
    pub fn run(&mut self)
        requires
            old(self).state() == LoopState::Starting,
        ensures
            final(self).state() == LoopState::Running,
            final(self).targets() == old(self).targets(),
            final(self).devices() == old(self).devices(),
    {
        self.state = LoopState::Running;
    }

    /// While running: what is done about the next item of the hotplug bridge.
    /// A failure of the bridge terminates the loop. The registry is never
    /// changed by an item itself, whatever its action.
    pub fn on_hotplug(&mut self, item: Result<HotplugRecord, std::io::Error>) -> (decision:
        HotplugDecision)
        requires
            old(self).state() == LoopState::Running,
        ensures
            decision == hotplug_decision(item),
            final(self).state() == (if item is Ok {
                LoopState::Running
            } else {
                LoopState::Terminated
            }),
            final(self).targets() == old(self).targets(),
            final(self).devices() == old(self).devices(),
    {
        match item {
            Ok(record) => reconcile(record),
            Err(error) => {
                self.state = LoopState::Terminated;
                HotplugDecision::Exit(error)
            },
        }
    }

    /// Registers the stream of a device that was accepted, replacing the
    /// entry that its identity had before, if any.
    pub fn register(&mut self, admission: Admission, stream: EventStream)
        requires
            old(self).state() != LoopState::Terminated,
        ensures
            final(self).state() == old(self).state(),
            final(self).targets() == old(self).targets(),
            final(self).devices() == added(old(self).devices(), admission@, stream),
    {
        self.registry.reconcile_add(admission, stream);
    }

    /// While running: what is done about the item that the device `identity`
    /// gave. An event changes nothing in the registry. A read failure removes
    /// the device from it; where the device is gone already, that changes
    /// nothing.
    pub fn on_device(&mut self, identity: &DeviceIdentity, item: Result<InputEvent, std::io::Error>) -> (decision:
        EventDecision)
        requires
            old(self).state() == LoopState::Running,
        ensures
            decision == event_decision(old(self).targets(), item),
            final(self).state() == LoopState::Running,
            final(self).targets() == old(self).targets(),
            final(self).devices() == (if item is Ok {
                old(self).devices()
            } else {
                removed(old(self).devices(), identity@)
            }),
    {
        match item {
            Ok(event) => {
                if self.targets.triggered_by(&event) {
                    EventDecision::RunCommand
                } else {
                    EventDecision::Ignore
                }
            },
            Err(error) => {
                self.registry.remove(identity);
                EventDecision::Removed(error)
            },
        }
    }

    /// While running: reads the registered devices once, as
    /// [`Registry::poll_next`] does. No device joins or leaves by being read,
    /// an empty registry is never ready, and an item comes from a device that
    /// is registered.
    pub fn poll_devices(&mut self, cx: &mut Context<'_>) -> (polled: Polled<
        (DeviceIdentity, Result<InputEvent, std::io::Error>),
    >)
        requires
            old(self).state() == LoopState::Running,
        ensures
            final(self).state() == LoopState::Running,
            final(self).targets() == old(self).targets(),
            final(self).devices().dom() == old(self).devices().dom(),
            old(self).devices().dom() == Set::<Seq<u8>>::empty() ==> polled is Pending,
            polled matches Polled::Ready((identity, _)) ==> old(self).devices().dom().contains(
                identity@,
            ),
    {
        self.registry.poll_next(cx)
    }
}

} // verus!
