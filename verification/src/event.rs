//! Input events and the set of keys that trigger the command.

use vstd::prelude::*;

verus! {

/// Event type of key and button events.
pub const EV_KEY: u16 = 1;

/// Key code of the power key.
pub const KEY_POWER: u16 = 116;

/// Key code of the sleep key.
pub const KEY_SLEEP: u16 = 142;

/// Key code of the suspend key.
pub const KEY_SUSPEND: u16 = 205;

/// Value of a key event that reports the release of the key. Any other value
/// reports a press or an automatic repeat.
pub const RELEASED: i32 = 0;

/// One event read from an input device. It is consumed once.
#[derive(Clone, Copy, Debug, PartialEq, Eq, Structural)]
pub struct InputEvent {
    /// Kind of event; [`EV_KEY`] for keys.
    pub event_type: u16,
    /// For a key event, the code of the key.
    pub code: u16,
    /// For a key event, [`RELEASED`] on release.
    pub value: i32,
}

impl InputEvent {
    /// Whether the event reports a key, whatever its transition.
    pub open spec fn reports_key(&self) -> bool {
        self.event_type == EV_KEY
    }

    /// Whether the event's value denotes the release transition.
    pub open spec fn reports_release(&self) -> bool {
        self.value == RELEASED
    }

    /// The event with the given parts.
    pub fn new(event_type: u16, code: u16, value: i32) -> (event: InputEvent)
        ensures
            event.event_type == event_type,
            event.code == code,
            event.value == value,
    {
        InputEvent { event_type, code, value }
    }

    /// A key event for `code` with the given value.
    pub fn key(code: u16, value: i32) -> (event: InputEvent)
        ensures
            event.event_type == EV_KEY,
            event.code == code,
            event.value == value,
    {
        InputEvent { event_type: EV_KEY, code, value }
    }

    /// Computes [`InputEvent::reports_key`].
    pub fn is_key(&self) -> (key: bool)
        ensures
            key == self.reports_key(),
    {
        self.event_type == EV_KEY
    }

    /// Computes [`InputEvent::reports_release`].
    pub fn is_release(&self) -> (release: bool)
        ensures
            release == self.reports_release(),
    {
        self.value == RELEASED
    }
}

/// The key codes that are power-relevant. The set is fixed when it is made.
#[derive(Debug)]
pub struct TargetKeySet {
    codes: Vec<u16>,
}

impl View for TargetKeySet {
    type V = Set<u16>;

    closed spec fn view(&self) -> Set<u16> {
        self.codes@.to_set()
    }
}

/// Whether some code is both in `targets` and among `reported`.
pub open spec fn reports_any(targets: Set<u16>, reported: Seq<u16>) -> bool {
    exists|i: int| 0 <= i < reported.len() && targets.contains(#[trigger] reported[i])
}

/// Whether a device with the given key capabilities is worth listening to:
/// it reports at least one target key. A device that reports no key
/// capabilities at all reports none of them.
pub open spec fn capable(targets: Set<u16>, reported: Option<Seq<u16>>) -> bool {
    match reported {
        Some(codes) => reports_any(targets, codes),
        None => false,
    }
}

/// The key capabilities that a device reported, as plain codes: `None` where
/// the device reports no key capabilities at all.
pub open spec fn reported_codes(reported: Option<Vec<u16>>) -> Option<Seq<u16>> {
    match reported {
        Some(codes) => Some(codes@),
        None => None,
    }
}

/// Whether `event` asks for the command to run: a key event, for a target
/// key, on its release.
pub open spec fn triggers(targets: Set<u16>, event: InputEvent) -> bool {
    event.reports_key() && targets.contains(event.code) && event.reports_release()
}

impl TargetKeySet {
    /// The set of the given codes. A code listed twice counts once.
    pub fn new(codes: Vec<u16>) -> (targets: TargetKeySet)
        ensures
            targets@ == codes@.to_set(),
    {
        TargetKeySet { codes }
    }

    /// The sleep, suspend and power keys.
    pub fn power_keys() -> (targets: TargetKeySet)
        ensures
            targets@ == set![KEY_SLEEP, KEY_SUSPEND, KEY_POWER],
    {
        let mut codes: Vec<u16> = Vec::new();
        codes.push(KEY_SLEEP);
        codes.push(KEY_SUSPEND);
        codes.push(KEY_POWER);
        proof {
            let expected = set![KEY_SLEEP, KEY_SUSPEND, KEY_POWER];
            assert(codes@[0] == KEY_SLEEP && codes@[1] == KEY_SUSPEND && codes@[2] == KEY_POWER);
            assert forall|code: u16| codes@.to_set().contains(code) == expected.contains(
                code,
            ) by {
                if expected.contains(code) {
                    assert(codes@.contains(code));
                }
            }
            assert(codes@.to_set() =~= expected);
        }
        TargetKeySet { codes }
    }

    /// Whether `code` is a target key.
    pub fn contains(&self, code: u16) -> (found: bool)
        ensures
            found == self@.contains(code),
    {
        let mut i: usize = 0;
        while i < self.codes.len()
            invariant
                i <= self.codes.len(),
                forall|j: int| 0 <= j < i ==> self.codes@[j] != code,
            decreases self.codes.len() - i,
        {
            if self.codes[i] == code {
                assert(self.codes@.contains(code));
                return true;
            }
            i += 1;
        }
        assert(!self.codes@.contains(code));
        false
    }

    /// Whether one of the `reported` key codes is a target key.
    pub fn any_reported(&self, reported: &Vec<u16>) -> (found: bool)
        ensures
            found == reports_any(self@, reported@),
    {
        let mut i: usize = 0;
        while i < reported.len()
            invariant
                i <= reported.len(),
                forall|j: int| 0 <= j < i ==> !self@.contains(#[trigger] reported@[j]),
            decreases reported.len() - i,
        {
            if self.contains(reported[i]) {
                return true;
            }
            i += 1;
        }
        false
    }

    /// The capability predicate: computes [`capable`] for a device whose key
    /// capabilities are `reported`.
    pub fn supports(&self, reported: &Option<Vec<u16>>) -> (accepted: bool)
        ensures
            accepted == capable(self@, reported_codes(*reported)),
    {
        match reported {
            Some(codes) => self.any_reported(codes),
            None => false,
        }
    }

    /// Computes [`triggers`]: whether `event` is the release of a target key.
    pub fn triggered_by(&self, event: &InputEvent) -> (run: bool)
        ensures
            run == triggers(self@, *event),
    {
        event.is_key() && event.is_release() && self.contains(event.code)
    }
}

} // verus!
