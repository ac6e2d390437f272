use button_ears::event::{InputEvent, TargetKeySet, KEY_POWER, KEY_SLEEP, KEY_SUSPEND};
use button_ears::hotplug::{DeviceIdentity, HotplugAction, HotplugRecord};
use button_ears::multiplex::{
    reconcile, EventDecision, HotplugDecision, LoopState, Multiplexer,
};
use button_ears::registry::{qualify, AddError};
use button_ears::streams::Polled;
use std::io;
use std::task::{Context, Waker};

fn device(path: &str) -> DeviceIdentity {
    DeviceIdentity::new(path.as_bytes().to_vec())
}

fn added(path: &str, devnode: Option<&str>) -> HotplugRecord {
    HotplugRecord::new(
        HotplugAction::Added,
        device(path),
        devnode.map(|node| node.as_bytes().to_vec()),
        true,
    )
}

fn running() -> Multiplexer {
    let mut mux = Multiplexer::new(TargetKeySet::power_keys());
    mux.run();
    mux
}

/// Feeds the items to the loop and counts how often the command is started.
fn commands_started(mux: &mut Multiplexer, from: &DeviceIdentity, events: Vec<InputEvent>) -> usize {
    let mut started = 0;
    for event in events {
        if let EventDecision::RunCommand = mux.on_device(from, Ok(event)) {
            started += 1;
        }
    }
    started
}

#[test]
fn loop_starts_in_starting_with_no_device() {
    let mux = Multiplexer::new(TargetKeySet::power_keys());
    assert_eq!(mux.current_state(), LoopState::Starting);
    assert!(mux.registry().is_empty());
    assert!(!mux.waits_for_devices());
    assert!(mux.target_keys().contains(KEY_POWER));
    assert!(mux.target_keys().contains(KEY_SLEEP));
    assert!(mux.target_keys().contains(KEY_SUSPEND));
}

#[test]
fn run_moves_from_starting_to_running() {
    let mut mux = Multiplexer::new(TargetKeySet::power_keys());
    mux.run();
    assert_eq!(mux.current_state(), LoopState::Running);
    assert!(mux.registry().is_empty());
}

#[test]
fn added_tagged_device_with_node_is_opened() {
    match reconcile(added("/devices/power", Some("/dev/input/event2"))) {
        HotplugDecision::Open { identity, devnode } => {
            assert_eq!(identity.as_bytes().as_slice(), b"/devices/power");
            assert_eq!(devnode, b"/dev/input/event2".to_vec());
        }
        _ => panic!("the device is opened"),
    }
}

#[test]
fn added_device_without_node_is_skipped() {
    match reconcile(added("/devices/power", None)) {
        HotplugDecision::Skip(error) => assert_eq!(error, AddError::NoDevnode),
        _ => panic!("the device is skipped"),
    }
}

#[test]
fn untagged_or_not_added_records_are_ignored() {
    let untagged = HotplugRecord::new(
        HotplugAction::Added,
        device("/devices/power"),
        Some(b"/dev/input/event2".to_vec()),
        false,
    );
    assert!(matches!(reconcile(untagged), HotplugDecision::Ignore));
    for action in [HotplugAction::Removed, HotplugAction::Changed, HotplugAction::Other] {
        for tag_match in [false, true] {
            let record = HotplugRecord::new(
                action,
                device("/devices/power"),
                Some(b"/dev/input/event2".to_vec()),
                tag_match,
            );
            assert!(matches!(reconcile(record), HotplugDecision::Ignore));
        }
    }
}

#[test]
fn hotplug_record_keeps_the_loop_running() {
    let mut mux = running();
    let decision = mux.on_hotplug(Ok(added("/devices/power", Some("/dev/input/event2"))));
    assert!(matches!(decision, HotplugDecision::Open { .. }));
    assert_eq!(mux.current_state(), LoopState::Running);
    let removed = HotplugRecord::new(HotplugAction::Removed, device("/devices/power"), None, true);
    assert!(matches!(mux.on_hotplug(Ok(removed)), HotplugDecision::Ignore));
    assert_eq!(mux.current_state(), LoopState::Running);
    assert!(mux.registry().is_empty());
}

#[test]
fn hotplug_failure_terminates_the_loop() {
    let mut mux = running();
    let failure = io::Error::new(io::ErrorKind::ConnectionReset, "udev monitor died");
    match mux.on_hotplug(Err(failure)) {
        HotplugDecision::Exit(error) => {
            assert_eq!(error.kind(), io::ErrorKind::ConnectionReset);
            assert_eq!(error.to_string(), "udev monitor died");
        }
        _ => panic!("the loop is left"),
    }
    assert_eq!(mux.current_state(), LoopState::Terminated);
}

#[test]
fn release_of_target_key_runs_command_once() {
    let mut mux = running();
    let from = device("/devices/power");
    let started = commands_started(&mut mux, &from, vec![InputEvent::key(KEY_POWER, 0)]);
    assert_eq!(started, 1);
    assert_eq!(mux.current_state(), LoopState::Running);
}

#[test]
fn press_of_target_key_runs_nothing() {
    let mut mux = running();
    let from = device("/devices/power");
    let started = commands_started(&mut mux, &from, vec![InputEvent::key(KEY_POWER, 1)]);
    assert_eq!(started, 0);
    assert!(matches!(
        mux.on_device(&from, Ok(InputEvent::key(KEY_POWER, 1))),
        EventDecision::Ignore
    ));
}

#[test]
fn every_qualifying_release_runs_the_command_again() {
    let mut mux = running();
    let from = device("/devices/power");
    let events = vec![
        InputEvent::key(KEY_POWER, 1),
        InputEvent::new(0, 0, 0),
        InputEvent::key(KEY_POWER, 0),
        InputEvent::new(0, 0, 0),
        InputEvent::key(KEY_SLEEP, 1),
        InputEvent::key(KEY_SLEEP, 2),
        InputEvent::key(KEY_SLEEP, 0),
        InputEvent::key(28, 0),
        InputEvent::key(KEY_SUSPEND, 0),
    ];
    assert_eq!(commands_started(&mut mux, &from, events), 3);
}

#[test]
fn read_error_removes_the_device_and_loop_goes_on() {
    let mut mux = running();
    let from = device("/devices/power");
    let failure = io::Error::new(io::ErrorKind::NotFound, "No such device");
    match mux.on_device(&from, Err(failure)) {
        EventDecision::Removed(error) => assert_eq!(error.to_string(), "No such device"),
        _ => panic!("the device is removed"),
    }
    assert!(!mux.registry().contains(&from));
    assert_eq!(mux.current_state(), LoopState::Running);
    let mut cx = Context::from_waker(Waker::noop());
    assert!(matches!(mux.poll_devices(&mut cx), Polled::Pending));
    assert!(!mux.waits_for_devices());
}

#[test]
fn unsupported_device_never_enters_the_registry() {
    let mut mux = running();
    let record = added("/devices/keyboard", Some("/dev/input/event0"));
    let (identity, devnode) = match mux.on_hotplug(Ok(record)) {
        HotplugDecision::Open { identity, devnode } => (identity, devnode),
        _ => panic!("the device is opened"),
    };
    assert_eq!(devnode, b"/dev/input/event0".to_vec());
    let reported = Some(vec![1, 28, 30, 57]);
    let outcome = qualify(identity, &reported, mux.target_keys());
    assert_eq!(outcome.err(), Some(AddError::Unsupported));
    assert!(!mux.registry().contains(&device("/devices/keyboard")));
    assert!(mux.registry().is_empty());
    assert_eq!(mux.current_state(), LoopState::Running);
    let next = mux.on_hotplug(Ok(added("/devices/power", Some("/dev/input/event1"))));
    assert!(matches!(next, HotplugDecision::Open { .. }));
}

#[test]
fn startup_goes_on_after_a_device_fails_to_open() {
    let mux_targets = TargetKeySet::power_keys();
    let mut mux = Multiplexer::new(mux_targets);
    let first = mux.found(device("/devices/broken"), Some(b"/dev/input/event0".to_vec()));
    assert!(matches!(first, HotplugDecision::Open { .. }));
    // Opening the first device fails: nothing is reported and it is skipped.
    let second = mux.found(device("/devices/power"), Some(b"/dev/input/event1".to_vec()));
    let identity = match second {
        HotplugDecision::Open { identity, devnode } => {
            assert_eq!(devnode, b"/dev/input/event1".to_vec());
            identity
        }
        _ => panic!("the second device is opened"),
    };
    let admission = qualify(identity, &Some(vec![KEY_POWER]), mux.target_keys());
    match admission {
        Ok(admission) => {
            assert_eq!(admission.identity().as_bytes().as_slice(), b"/devices/power")
        }
        Err(error) => panic!("refused: {:?}", error),
    }
    assert_eq!(mux.current_state(), LoopState::Starting);
    mux.run();
    assert_eq!(mux.current_state(), LoopState::Running);
}

#[test]
fn enumerated_device_without_node_is_skipped() {
    let mux = Multiplexer::new(TargetKeySet::power_keys());
    match mux.found(device("/devices/odd"), None) {
        HotplugDecision::Skip(error) => assert_eq!(error, AddError::NoDevnode),
        _ => panic!("the device is skipped"),
    }
}

#[test]
fn custom_target_set_decides_what_triggers() {
    let mut mux = Multiplexer::new(TargetKeySet::new(vec![28]));
    mux.run();
    let from = device("/devices/kbd");
    assert!(matches!(mux.on_device(&from, Ok(InputEvent::key(28, 0))), EventDecision::RunCommand));
    assert!(matches!(
        mux.on_device(&from, Ok(InputEvent::key(KEY_POWER, 0))),
        EventDecision::Ignore
    ));
}
