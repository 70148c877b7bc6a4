use camdev::capture::{
    capture_action, capture_cancel, capture_failure, capture_step, source_path, CaptureAction,
    CaptureConfig, CaptureSlot, CaptureState, CAPTURE_PAUSE_MILLIS, DEFAULT_CAPTURE_ITERATIONS,
    VIDIOC_DQBUF, VIDIOC_QBUF, VIDIOC_STREAMOFF, VIDIOC_STREAMON,
};
use camdev::command::CaptureCommand;
use camdev::errors::DeviceError;
use camdev::net::{
    address_to_network_order, frame_header, port_to_network_order, NetworkEndpoint, RELAY_ADDRESS,
    RELAY_PORT,
};

fn test_config(iterations: u64) -> CaptureConfig {
    let cmd = CaptureCommand {
        start_frame_number: 1,
        frame_count: 100,
        command_kind: 7,
        buffer_descriptor: 42,
    };
    CaptureConfig::from_command(&cmd, iterations, NetworkEndpoint::relay())
}

/// Drive one loop instance to completion, deciding each action's outcome
/// with `outcome`, and collect the actions in order.
fn run_loop(cfg: &CaptureConfig, outcome: impl Fn(&CaptureAction) -> bool) -> Vec<CaptureAction> {
    let mut state = CaptureState::Idle;
    let mut actions = Vec::new();
    loop {
        let action = capture_action(state, cfg);
        if action == CaptureAction::Done {
            return actions;
        }
        let ok = outcome(&action);
        actions.push(action);
        state = capture_step(state, ok, cfg);
    }
}

#[test]
fn control_codes_and_defaults_are_fixed() {
    assert_eq!(VIDIOC_STREAMON, 1074026002);
    assert_eq!(VIDIOC_STREAMOFF, 1074026003);
    assert_eq!(VIDIOC_QBUF, 3227014671);
    assert_eq!(VIDIOC_DQBUF, 3227014673);
    assert_eq!(DEFAULT_CAPTURE_ITERATIONS, 100);
    assert_eq!(CAPTURE_PAUSE_MILLIS, 25);
}

#[test]
fn successful_run_issues_the_full_sequence() {
    let cfg = test_config(2);
    let relay = NetworkEndpoint::relay();
    let actions = run_loop(&cfg, |_| true);
    let iteration = [
        CaptureAction::SendControl { code: VIDIOC_QBUF, argument: 42 },
        CaptureAction::Pause { millis: 25 },
        CaptureAction::SendControl { code: VIDIOC_DQBUF, argument: 42 },
        CaptureAction::ForwardFrame { descriptor: 42 },
    ];
    let mut expected = vec![
        CaptureAction::OpenSource,
        CaptureAction::Connect { endpoint: relay },
        CaptureAction::SendControl { code: VIDIOC_STREAMON, argument: 7 },
    ];
    expected.extend_from_slice(&iteration);
    expected.extend_from_slice(&iteration);
    expected.push(CaptureAction::SendControl { code: VIDIOC_STREAMOFF, argument: 7 });
    expected.push(CaptureAction::Release);
    assert_eq!(actions, expected);
}

#[test]
fn source_failure_aborts_before_any_control_command() {
    // Unreachable source: the loop never issues a control command and never
    // attempts the streaming-stop command.
    let cfg = test_config(2);
    assert_eq!(capture_action(CaptureState::Idle, &cfg), CaptureAction::OpenSource);
    let aborted = capture_step(CaptureState::Idle, false, &cfg);
    assert_eq!(aborted, CaptureState::Aborted);
    assert_eq!(capture_action(aborted, &cfg), CaptureAction::Done);

    let actions = run_loop(&cfg, |a| *a != CaptureAction::OpenSource);
    assert_eq!(actions, vec![CaptureAction::OpenSource]);
    assert_eq!(capture_failure(aborted), Some(DeviceError::SourceUnavailable));
}

#[test]
fn only_failed_acquisitions_report_an_error() {
    assert_eq!(capture_failure(CaptureState::Released), None);
    assert_eq!(capture_failure(CaptureState::Cancelled), None);
    assert_eq!(capture_failure(CaptureState::Idle), None);
    assert_eq!(
        capture_failure(CaptureState::Aborted),
        Some(DeviceError::SourceUnavailable)
    );
    assert_eq!(
        capture_failure(CaptureState::TransportFailed),
        Some(DeviceError::TransportUnavailable)
    );
}

#[test]
fn connect_failure_releases_source_without_control_commands() {
    let cfg = test_config(2);
    let relay = NetworkEndpoint::relay();
    let actions = run_loop(&cfg, |a| !matches!(a, CaptureAction::Connect { .. }));
    assert_eq!(
        actions,
        vec![
            CaptureAction::OpenSource,
            CaptureAction::Connect { endpoint: relay },
            CaptureAction::Release,
        ]
    );
    // A dead-transport run ends in its own terminal state, distinguishable
    // from a successful one.
    let after_open = capture_step(CaptureState::Idle, true, &cfg);
    let failed = capture_step(after_open, false, &cfg);
    assert_eq!(failed, CaptureState::ConnectFailed);
    let terminal = capture_step(failed, true, &cfg);
    assert_eq!(terminal, CaptureState::TransportFailed);
    assert_eq!(
        capture_failure(terminal),
        Some(DeviceError::TransportUnavailable)
    );
}

#[test]
fn control_failures_are_tolerated_and_stream_is_still_stopped() {
    // Every control command fails; the loop still walks the whole sequence,
    // ending with the streaming-stop command and the release.
    let cfg = test_config(1);
    let actions = run_loop(&cfg, |a| !matches!(a, CaptureAction::SendControl { .. }));
    let n = actions.len();
    assert_eq!(
        actions[n - 2],
        CaptureAction::SendControl { code: VIDIOC_STREAMOFF, argument: 7 }
    );
    assert_eq!(actions[n - 1], CaptureAction::Release);
}

#[test]
fn zero_iterations_still_stops_the_stream() {
    let cfg = test_config(0);
    let relay = NetworkEndpoint::relay();
    let actions = run_loop(&cfg, |_| true);
    assert_eq!(
        actions,
        vec![
            CaptureAction::OpenSource,
            CaptureAction::Connect { endpoint: relay },
            CaptureAction::SendControl { code: VIDIOC_STREAMON, argument: 7 },
            CaptureAction::SendControl { code: VIDIOC_STREAMOFF, argument: 7 },
            CaptureAction::Release,
        ]
    );
}

#[test]
fn two_loop_instances_run_without_coordination() {
    // Two loop instances hold no coordination between themselves: stepping
    // them alternately interleaves their streaming-start/stop commands, each
    // instance still issuing exactly its own sequence. That interleaving on
    // one source is the hazard the per-device `CaptureSlot` exists to
    // prevent at the spawn path: a second write while a loop runs is
    // answered with `DeviceBusy` instead of reaching this situation.
    let cfg = test_config(1);
    let mut a = CaptureState::Idle;
    let mut b = CaptureState::Idle;
    let mut a_actions = Vec::new();
    let mut b_actions = Vec::new();
    loop {
        let mut progressed = false;
        let action_a = capture_action(a, &cfg);
        if action_a != CaptureAction::Done {
            a_actions.push(action_a);
            a = capture_step(a, true, &cfg);
            progressed = true;
        }
        let action_b = capture_action(b, &cfg);
        if action_b != CaptureAction::Done {
            b_actions.push(action_b);
            b = capture_step(b, true, &cfg);
            progressed = true;
        }
        if !progressed {
            break;
        }
    }
    let solo = run_loop(&cfg, |_| true);
    assert_eq!(a_actions, solo);
    assert_eq!(b_actions, solo);
}

#[test]
fn endpoint_conversions_match_the_wire_order() {
    assert_eq!(RELAY_ADDRESS, 0x7f000001); // 127.0.0.1
    assert_eq!(RELAY_PORT, 8000);
    assert_eq!(port_to_network_order(RELAY_PORT), 0x401f);
    assert_eq!(address_to_network_order(RELAY_ADDRESS), 0x0100007f);
    // The conversions are their own inverses.
    assert_eq!(port_to_network_order(port_to_network_order(0x1234)), 0x1234);
    assert_eq!(
        address_to_network_order(address_to_network_order(0xdeadbeef)),
        0xdeadbeef
    );
}

#[test]
fn cancel_while_capturing_still_stops_the_stream() {
    let cfg = test_config(3);
    // Walk into the middle of the capture iterations.
    let mut state = CaptureState::Idle;
    for _ in 0..5 {
        state = capture_step(state, true, &cfg);
    }
    assert!(matches!(state, CaptureState::Capturing { .. }));
    // The cancellation routes through the streaming-stop command and the
    // release before the loop ends.
    state = capture_cancel(state);
    assert_eq!(
        capture_action(state, &cfg),
        CaptureAction::SendControl { code: VIDIOC_STREAMOFF, argument: 7 }
    );
    state = capture_step(state, true, &cfg);
    assert_eq!(capture_action(state, &cfg), CaptureAction::Release);
    state = capture_step(state, true, &cfg);
    assert_eq!(state, CaptureState::Cancelled);
    assert_eq!(capture_action(state, &cfg), CaptureAction::Done);
    assert_eq!(capture_failure(state), None);
}

#[test]
fn cancel_before_anything_is_held_ends_at_once() {
    let cfg = test_config(3);
    assert_eq!(capture_cancel(CaptureState::Idle), CaptureState::Cancelled);
    // With only the source open, the cancellation releases it without any
    // control command.
    let open = capture_step(CaptureState::Idle, true, &cfg);
    let cancelled = capture_cancel(open);
    assert_eq!(capture_action(cancelled, &cfg), CaptureAction::Release);
    assert_eq!(capture_step(cancelled, true, &cfg), CaptureState::Cancelled);
    // Cancelling twice is the same as cancelling once.
    assert_eq!(capture_cancel(cancelled), cancelled);
}

#[test]
fn capture_slot_admits_one_loop_at_a_time() {
    let mut slot = CaptureSlot::new();
    assert!(!slot.active());
    assert!(slot.try_acquire());
    assert!(slot.active());
    assert!(!slot.try_acquire());
    slot.release();
    assert!(!slot.active());
    assert!(slot.try_acquire());
}

#[test]
fn source_path_is_the_well_known_device() {
    assert_eq!(source_path(), "/dev/video2");
}

#[test]
fn frame_header_is_the_descriptor_little_endian() {
    assert_eq!(frame_header(42), vec![42u8, 0, 0, 0, 0, 0, 0, 0]);
    assert_eq!(
        frame_header(0x0102030405060708),
        vec![8u8, 7, 6, 5, 4, 3, 2, 1]
    );
}
