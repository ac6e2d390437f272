use button_ears::event::{
    InputEvent, TargetKeySet, EV_KEY, KEY_POWER, KEY_SLEEP, KEY_SUSPEND, RELEASED,
};
use button_ears::hotplug::{DeviceIdentity, HotplugAction, HotplugRecord};

const EV_SWITCH: u16 = 5;
const KEY_ENTER: u16 = 28;

#[test]
fn key_constants_match_the_kernel() {
    assert_eq!(EV_KEY, 1);
    assert_eq!(KEY_POWER, 116);
    assert_eq!(KEY_SLEEP, 142);
    assert_eq!(KEY_SUSPEND, 205);
    assert_eq!(RELEASED, 0);
}

#[test]
fn key_constants_match_evdev() {
    assert_eq!(EV_KEY, evdev::EventType::KEY.0);
    assert_eq!(KEY_POWER, evdev::Key::KEY_POWER.code());
    assert_eq!(KEY_SLEEP, evdev::Key::KEY_SLEEP.code());
    assert_eq!(KEY_SUSPEND, evdev::Key::KEY_SUSPEND.code());
}

#[test]
fn input_event_keeps_its_parts() {
    let event = InputEvent::new(3, 7, -12);
    assert_eq!(event.event_type, 3);
    assert_eq!(event.code, 7);
    assert_eq!(event.value, -12);
    assert_eq!(event, InputEvent { event_type: 3, code: 7, value: -12 });
}

#[test]
fn key_event_has_key_type() {
    let event = InputEvent::key(KEY_POWER, 1);
    assert_eq!(event, InputEvent { event_type: EV_KEY, code: 116, value: 1 });
    assert!(event.is_key());
    assert!(!InputEvent::new(EV_SWITCH, KEY_POWER, 1).is_key());
}

#[test]
fn only_value_zero_is_a_release() {
    assert!(InputEvent::key(KEY_POWER, 0).is_release());
    assert!(!InputEvent::key(KEY_POWER, 1).is_release());
    assert!(!InputEvent::key(KEY_POWER, 2).is_release());
    assert!(!InputEvent::key(KEY_POWER, -1).is_release());
    assert!(!InputEvent::key(KEY_POWER, i32::MAX).is_release());
    assert!(!InputEvent::key(KEY_POWER, i32::MIN).is_release());
}

#[test]
fn power_keys_are_sleep_suspend_power() {
    let targets = TargetKeySet::power_keys();
    assert!(targets.contains(KEY_SLEEP));
    assert!(targets.contains(KEY_SUSPEND));
    assert!(targets.contains(KEY_POWER));
    let mut others = 0;
    for code in 0..=u16::MAX {
        if targets.contains(code) {
            others += 1;
        }
    }
    assert_eq!(others, 3);
}

#[test]
fn empty_target_set_contains_nothing() {
    let targets = TargetKeySet::new(Vec::new());
    assert!(!targets.contains(0));
    assert!(!targets.contains(KEY_POWER));
    assert!(!targets.any_reported(&vec![KEY_POWER, KEY_SLEEP]));
    assert!(!targets.supports(&Some(vec![KEY_POWER])));
    assert!(!targets.triggered_by(&InputEvent::key(KEY_POWER, 0)));
}

#[test]
fn target_set_counts_a_repeated_code_once() {
    let targets = TargetKeySet::new(vec![KEY_ENTER, KEY_ENTER, 0, u16::MAX]);
    assert!(targets.contains(KEY_ENTER));
    assert!(targets.contains(0));
    assert!(targets.contains(u16::MAX));
    assert!(!targets.contains(KEY_POWER));
}

#[test]
fn any_reported_needs_one_common_code() {
    let targets = TargetKeySet::power_keys();
    assert!(targets.any_reported(&vec![KEY_ENTER, 30, KEY_SUSPEND]));
    assert!(targets.any_reported(&vec![KEY_POWER]));
    assert!(!targets.any_reported(&vec![KEY_ENTER, 30, 31]));
    assert!(!targets.any_reported(&Vec::new()));
}

#[test]
fn device_without_key_capabilities_is_not_supported() {
    let targets = TargetKeySet::power_keys();
    assert!(!targets.supports(&None));
    assert!(!targets.supports(&Some(Vec::new())));
    assert!(!targets.supports(&Some(vec![KEY_ENTER])));
    assert!(targets.supports(&Some(vec![KEY_ENTER, KEY_SLEEP])));
}

#[test]
fn release_of_target_key_triggers() {
    let targets = TargetKeySet::power_keys();
    assert!(targets.triggered_by(&InputEvent::key(KEY_POWER, 0)));
    assert!(targets.triggered_by(&InputEvent::key(KEY_SLEEP, 0)));
    assert!(targets.triggered_by(&InputEvent::key(KEY_SUSPEND, 0)));
}

#[test]
fn press_and_repeat_do_not_trigger() {
    let targets = TargetKeySet::power_keys();
    assert!(!targets.triggered_by(&InputEvent::key(KEY_POWER, 1)));
    assert!(!targets.triggered_by(&InputEvent::key(KEY_POWER, 2)));
}

#[test]
fn other_keys_and_other_event_types_do_not_trigger() {
    let targets = TargetKeySet::power_keys();
    assert!(!targets.triggered_by(&InputEvent::key(KEY_ENTER, 0)));
    assert!(!targets.triggered_by(&InputEvent::new(EV_SWITCH, KEY_POWER, 0)));
    assert!(!targets.triggered_by(&InputEvent::new(0, KEY_POWER, 0)));
}

#[test]
fn identity_keeps_its_bytes() {
    let identity = DeviceIdentity::new(b"/devices/platform/gpio-keys/input/input3".to_vec());
    assert_eq!(identity.as_bytes().as_slice(), b"/devices/platform/gpio-keys/input/input3");
    let copy = identity.clone();
    assert_eq!(copy.as_bytes(), identity.as_bytes());
    assert_eq!(identity.into_bytes(), b"/devices/platform/gpio-keys/input/input3".to_vec());
    assert_eq!(copy.into_bytes(), b"/devices/platform/gpio-keys/input/input3".to_vec());
}

#[test]
fn identity_may_hold_any_bytes() {
    let identity = DeviceIdentity::new(vec![0xff, 0x00, 0x2f]);
    assert_eq!(identity.as_bytes(), &vec![0xff, 0x00, 0x2f]);
    assert_eq!(DeviceIdentity::new(Vec::new()).as_bytes().len(), 0);
}

#[test]
fn record_keeps_its_parts() {
    let record = HotplugRecord::new(
        HotplugAction::Changed,
        DeviceIdentity::new(b"/devices/a".to_vec()),
        Some(b"/dev/input/event4".to_vec()),
        false,
    );
    assert_eq!(record.action, HotplugAction::Changed);
    assert_eq!(record.identity.as_bytes().as_slice(), b"/devices/a");
    assert_eq!(record.devnode, Some(b"/dev/input/event4".to_vec()));
    assert!(!record.tag_match);
}

#[test]
fn only_added_and_tagged_announces_a_device() {
    let actions = [
        HotplugAction::Added,
        HotplugAction::Removed,
        HotplugAction::Changed,
        HotplugAction::Other,
    ];
    for action in actions {
        for tag_match in [false, true] {
            let record = HotplugRecord::new(
                action,
                DeviceIdentity::new(b"/devices/a".to_vec()),
                None,
                tag_match,
            );
            let expected = action == HotplugAction::Added && tag_match;
            assert_eq!(record.is_announcement(), expected);
        }
    }
}
