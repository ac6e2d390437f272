//! Hotplug records and the identity of a device.

use vstd::prelude::*;

verus! {

/// Stable key of a device: its path in the device topology, as bytes.
///
/// The identity is not the device node that events are read from. Two
/// identities are the same device exactly when their bytes are equal.
#[derive(Debug)]
pub struct DeviceIdentity {
    path: Vec<u8>,
}

impl View for DeviceIdentity {
    type V = Seq<u8>;

    closed spec fn view(&self) -> Seq<u8> {
        self.path@
    }
}

impl Clone for DeviceIdentity {
    fn clone(&self) -> (copy: DeviceIdentity)
        ensures
            copy@ == self@,
    {
        let path = self.path.clone();
        assert(path@ =~= self.path@);
        DeviceIdentity { path }
    }
}

impl DeviceIdentity {
    /// The identity with the given path bytes.
    pub fn new(path: Vec<u8>) -> (identity: DeviceIdentity)
        ensures
            identity@ == path@,
    {
        DeviceIdentity { path }
    }

    /// The bytes of the path.
    pub fn as_bytes(&self) -> (bytes: &Vec<u8>)
        ensures
            bytes@ == self@,
    {
        &self.path
    }

    /// Gives the path bytes back.
    pub fn into_bytes(self) -> (bytes: Vec<u8>)
        ensures
            bytes@ == self@,
    {
        self.path
    }
}

/// What a hotplug record reports about its device.
#[derive(Clone, Copy, Debug, PartialEq, Eq, Structural)]
pub enum HotplugAction {
    /// The device appeared.
    Added,
    /// The device disappeared.
    Removed,
    /// The device changed.
    Changed,
    /// Any other notification.
    Other,
}

/// A decoded hotplug notification. It is not changed once produced.
#[derive(Debug)]
pub struct HotplugRecord {
    /// What happened to the device.
    pub action: HotplugAction,
    /// The registry key of the device.
    pub identity: DeviceIdentity,
    /// The node that the device's events are read from, if it has one.
    pub devnode: Option<Vec<u8>>,
    /// Whether the device carries the tag that is monitored.
    pub tag_match: bool,
}

impl HotplugRecord {
    /// Whether this record announces a tagged device that appeared: the only
    /// kind of record that is acted upon.
    pub open spec fn announces_device(&self) -> bool {
        self.action == HotplugAction::Added && self.tag_match
    }

    /// A record with the given parts.
    pub fn new(
        action: HotplugAction,
        identity: DeviceIdentity,
        devnode: Option<Vec<u8>>,
        tag_match: bool,
    ) -> (record: HotplugRecord)
        ensures
            record.action == action,
            record.identity == identity,
            record.devnode == devnode,
            record.tag_match == tag_match,
    {
        HotplugRecord { action, identity, devnode, tag_match }
    }

    /// Computes [`HotplugRecord::announces_device`].
    pub fn is_announcement(&self) -> (announces: bool)
        ensures
            announces == self.announces_device(),
    {
        self.tag_match && matches!(self.action, HotplugAction::Added)
    }
}

} // verus!
