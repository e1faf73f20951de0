use ds4u::common::MicLedState;
use ds4u::daemon::{
    answer, dispatch, malformed_request, DaemonState, DaemonStep, DeviceOp, Pending,
};
use ds4u::dualsense::{BatteryInfo, DeviceInfo, DualSense};
use ds4u::ipc::{
    ack_reply, battery_reply, check_line, controller_info_reply, firmware_info_reply,
    frame_line, input_state_reply, is_pong, DaemonCommand, DaemonResponse, IpcError,
};

fn session(interface_number: i32) -> DualSense {
    DualSense::new(&DeviceInfo {
        vendor_id: 0x054c,
        product_id: 0x0ce6,
        serial: Some("pad".to_string()),
        interface_number,
    })
}

fn daemon_with_device() -> DaemonState {
    let mut daemon = DaemonState::new();
    assert!(daemon.wants_device());
    assert!(daemon.attach(session(3)).is_none());
    assert!(daemon.has_device());
    assert!(!daemon.wants_device());
    daemon
}

fn error(text: &str) -> DaemonStep {
    DaemonStep::Reply(DaemonResponse::Error { message: text.to_string() })
}

fn input_report() -> Vec<u8> {
    let mut r = vec![0u8; 64];
    r[0] = 0x01;
    r[53] = 0x17;
    r
}

fn all_commands() -> Vec<DaemonCommand> {
    vec![
        DaemonCommand::Ping,
        DaemonCommand::GetBattery,
        DaemonCommand::GetInputState,
        DaemonCommand::GetFirmwareInfo,
        DaemonCommand::GetControllerInfo,
        DaemonCommand::SetLightbar { r: 1, g: 2, b: 3, brightness: 4 },
        DaemonCommand::SetLightbarEnabled { enabled: true },
        DaemonCommand::SetPlayerLeds { leds: 1 },
        DaemonCommand::SetMic { enabled: true },
        DaemonCommand::SetMicLed { state: MicLedState::Pulse },
        DaemonCommand::SetTriggerOff,
        DaemonCommand::SetTriggerEffect {
            right: true,
            left: false,
            effect_type: 0x21,
            params: [1, 2, 3, 4, 5, 6, 7, 8, 9, 10],
        },
        DaemonCommand::SetVibration { rumble: 1, trigger: 2 },
        DaemonCommand::SetSpeaker { mode: "both".to_string() },
        DaemonCommand::SetVolume { volume: 9 },
    ]
}

#[test]
fn update_mode_refuses_every_other_command() {
    let mut daemon = daemon_with_device();
    assert_eq!(
        daemon.begin(DaemonCommand::SetUpdateMode { active: true }),
        DaemonStep::Reply(DaemonResponse::Done)
    );
    assert_eq!(daemon.begin(DaemonCommand::GetBattery), error("firmware update in progress"));
    assert!(daemon.update_in_progress());
    assert!(!daemon.has_device());

    assert_eq!(
        daemon.begin(DaemonCommand::SetUpdateMode { active: false }),
        DaemonStep::Reply(DaemonResponse::Done)
    );
    assert!(!daemon.update_in_progress());
    // until a controller is found again there is none
    assert_eq!(daemon.begin(DaemonCommand::GetBattery), DaemonStep::Reply(DaemonResponse::NoDevice));
    assert!(daemon.wants_device());
    assert!(daemon.attach(session(3)).is_none());
    let step = daemon.begin(DaemonCommand::GetBattery);
    assert_eq!(step, DaemonStep::Device { pending: Pending::Battery, op: DeviceOp::Read });
    assert_eq!(
        daemon.finish(Pending::Battery, Ok(input_report())),
        DaemonResponse::Battery(BatteryInfo { capacity: 75, status: "Charging".to_string() })
    );
}

#[test]
fn while_an_update_runs_nothing_succeeds_and_no_session_is_held() {
    let mut daemon = daemon_with_device();
    daemon.begin(DaemonCommand::SetUpdateMode { active: true });
    for cmd in all_commands() {
        assert_eq!(daemon.begin(cmd), error("firmware update in progress"));
        assert!(daemon.update_in_progress());
        assert!(!daemon.has_device());
        assert!(!daemon.wants_device());
    }
    // a controller that turns up is not taken
    assert!(daemon.attach(session(3)).is_some());
    assert!(!daemon.has_device());
    // what comes back from the device finds no session
    assert_eq!(daemon.finish(Pending::Write, Ok(vec![])), DaemonResponse::NoDevice);
    assert!(!daemon.has_device());
    // setting the flag again changes nothing
    daemon.begin(DaemonCommand::SetUpdateMode { active: true });
    assert!(daemon.update_in_progress() && !daemon.has_device());
}

#[test]
fn clearing_the_flag_keeps_the_session() {
    let mut daemon = daemon_with_device();
    daemon.begin(DaemonCommand::SetUpdateMode { active: false });
    assert!(daemon.has_device());
    assert!(!daemon.update_in_progress());
}

#[test]
fn without_a_controller() {
    let mut daemon = DaemonState::new();
    assert!(!daemon.update_in_progress());
    assert!(!daemon.has_device());
    assert_eq!(daemon.begin(DaemonCommand::Ping), DaemonStep::Reply(DaemonResponse::Pong));
    for cmd in all_commands().into_iter().skip(1) {
        assert_eq!(daemon.begin(cmd), DaemonStep::Reply(DaemonResponse::NoDevice));
    }
}

#[test]
fn commands_that_set_something_write_a_report() {
    let mut daemon = daemon_with_device();
    let mut reference = session(3);
    let step = daemon.begin(DaemonCommand::SetLightbar { r: 200, g: 100, b: 50, brightness: 128 });
    let expected = reference.set_lightbar(200, 100, 50, 128).unwrap();
    assert_eq!(step, DaemonStep::Device { pending: Pending::Write, op: DeviceOp::Write(expected) });
    assert_eq!(daemon.finish(Pending::Write, Ok(vec![])), DaemonResponse::Done);
    assert!(daemon.has_device());

    let step = daemon.begin(DaemonCommand::SetTriggerEffect {
        right: true,
        left: false,
        effect_type: 0x21,
        params: [1, 2, 3, 4, 5, 6, 7, 8, 9, 10],
    });
    let expected =
        reference.set_trigger_effect(false, true, 0x21, &[1, 2, 3, 4, 5, 6, 7, 8, 9, 10]).unwrap();
    assert_eq!(expected[1], 0x04);
    assert_eq!(step, DaemonStep::Device { pending: Pending::Write, op: DeviceOp::Write(expected) });

    let step = daemon.begin(DaemonCommand::SetSpeaker { mode: "internal".to_string() });
    let expected = reference.set_speaker("internal").unwrap();
    assert_eq!(step, DaemonStep::Device { pending: Pending::Write, op: DeviceOp::Write(expected) });

    let step = daemon.begin(DaemonCommand::SetTriggerOff);
    let expected = reference.set_trigger_off().unwrap();
    assert_eq!(step, DaemonStep::Device { pending: Pending::Write, op: DeviceOp::Write(expected) });
}

#[test]
fn bluetooth_sequence_runs_through_the_daemon() {
    let mut daemon = DaemonState::new();
    daemon.attach(session(-1));
    for n in 0..18u8 {
        match daemon.begin(DaemonCommand::SetVolume { volume: n }) {
            DaemonStep::Device { pending: Pending::Write, op: DeviceOp::Write(bytes) } => {
                assert_eq!(bytes.len(), 78);
                assert_eq!(bytes[1], (n % 16) << 4);
            },
            other => panic!("{:?}", other),
        }
    }
}

#[test]
fn an_error_drops_the_session() {
    let mut daemon = daemon_with_device();
    assert_eq!(daemon.begin(DaemonCommand::SetPlayerLeds { leds: 8 }), error("Invalid player number"));
    assert!(!daemon.has_device());
    assert_eq!(daemon.begin(DaemonCommand::GetBattery), DaemonStep::Reply(DaemonResponse::NoDevice));

    let mut daemon = daemon_with_device();
    daemon.begin(DaemonCommand::SetVolume { volume: 1 });
    assert_eq!(
        daemon.finish(Pending::Write, Err("broken pipe".to_string())),
        DaemonResponse::Error { message: "broken pipe".to_string() }
    );
    assert!(!daemon.has_device());
    assert!(daemon.wants_device());

    let mut daemon = daemon_with_device();
    daemon.begin(DaemonCommand::GetBattery);
    assert_eq!(
        daemon.finish(Pending::Battery, Ok(vec![])),
        DaemonResponse::Error { message: "Timeout".to_string() }
    );
    assert!(!daemon.has_device());

    let mut daemon = daemon_with_device();
    daemon.begin(DaemonCommand::GetInputState);
    assert_eq!(
        daemon.finish(Pending::InputState, Ok(vec![])),
        DaemonResponse::Error { message: "Timeout reading input state".to_string() }
    );
    assert!(!daemon.has_device());

    let mut daemon = daemon_with_device();
    daemon.begin(DaemonCommand::GetFirmwareInfo);
    assert_eq!(
        daemon.finish(Pending::FirmwareInfo, Ok(vec![0; 20])),
        DaemonResponse::Error { message: "Feature report too short: 20 bytes".to_string() }
    );
    assert!(!daemon.has_device());
}

#[test]
fn commands_that_read() {
    let mut daemon = daemon_with_device();
    assert_eq!(
        daemon.begin(DaemonCommand::GetControllerInfo),
        DaemonStep::Reply(DaemonResponse::ControllerInfo {
            serial: "pad".to_string(),
            product_id: 0x0ce6,
            is_bt: false
        })
    );
    assert_eq!(
        daemon.begin(DaemonCommand::GetInputState),
        DaemonStep::Device { pending: Pending::InputState, op: DeviceOp::Read }
    );
    match daemon.finish(Pending::InputState, Ok(input_report())) {
        DaemonResponse::InputState(state) => assert_eq!(state.dpad, 0),
        other => panic!("{:?}", other),
    }
    let mut request = vec![0u8; 64];
    request[0] = 0x20;
    assert_eq!(
        daemon.begin(DaemonCommand::GetFirmwareInfo),
        DaemonStep::Device { pending: Pending::FirmwareInfo, op: DeviceOp::Feature(request) }
    );
    let mut report = vec![0u8; 64];
    report[1..4].copy_from_slice(b"Jan");
    report[12..14].copy_from_slice(b"12");
    report[44] = 7;
    assert_eq!(
        daemon.finish(Pending::FirmwareInfo, Ok(report)),
        DaemonResponse::FirmwareInfo {
            version: 7,
            build_date: "Jan".to_string(),
            build_time: "12".to_string()
        }
    );
    assert!(daemon.has_device());
}

#[test]
fn a_second_controller_is_handed_back() {
    let mut daemon = daemon_with_device();
    let rejected = daemon.attach(session(-1)).unwrap();
    assert!(rejected.is_bluetooth());
    assert!(daemon.has_device());
    daemon.release();
    assert!(!daemon.has_device());
    assert!(daemon.attach(rejected).is_none());
}

#[test]
fn dispatch_and_answer_on_a_session() {
    let mut ds = session(3);
    let (step, keep) = dispatch(&mut ds, DaemonCommand::Ping);
    assert_eq!(step, DaemonStep::Reply(DaemonResponse::Pong));
    assert!(keep);
    let (step, keep) = dispatch(&mut ds, DaemonCommand::SetPlayerLeds { leds: 200 });
    assert_eq!(step, error("Invalid player number"));
    assert!(!keep);
    // a session in update mode writes nothing and reads nothing
    ds.set_update_mode(true);
    let (step, keep) = dispatch(&mut ds, DaemonCommand::SetMic { enabled: true });
    assert_eq!(step, DaemonStep::Reply(DaemonResponse::Done));
    assert!(keep);
    let (step, keep) = dispatch(&mut ds, DaemonCommand::GetBattery);
    assert_eq!(step, error(""));
    assert!(!keep);
    let (response, keep) = answer(&ds, Pending::Battery, &input_report());
    assert_eq!(response, DaemonResponse::Error { message: String::new() });
    assert!(!keep);
    ds.set_update_mode(false);
    let (response, keep) = answer(&ds, Pending::Write, &[]);
    assert_eq!(response, DaemonResponse::Done);
    assert!(keep);
}

#[test]
fn a_line_that_is_no_command() {
    assert_eq!(
        malformed_request("expected value at line 1 column 1".to_string()),
        DaemonResponse::Error { message: "expected value at line 1 column 1".to_string() }
    );
}

#[test]
fn lines() {
    assert_eq!(frame_line("{\"cmd\":\"Ping\"}".to_string()), "{\"cmd\":\"Ping\"}\n");
    assert_eq!(frame_line(String::new()), "\n");
    assert_eq!(check_line(""), Err(IpcError::Closed));
    assert_eq!(check_line("\n"), Ok(()));
    assert_eq!(check_line("{}"), Ok(()));
}

#[test]
fn replies_as_the_client_reads_them() {
    let battery = BatteryInfo { capacity: 40, status: "Full".to_string() };
    let failure = || DaemonResponse::Error { message: "boom".to_string() };
    let remote = IpcError::Daemon { message: "boom".to_string() };

    assert!(is_pong(&DaemonResponse::Pong));
    assert!(!is_pong(&DaemonResponse::Done));

    assert_eq!(battery_reply(DaemonResponse::Battery(battery.clone())), Ok(battery));
    assert_eq!(battery_reply(failure()), Err(remote.clone()));
    assert_eq!(battery_reply(DaemonResponse::NoDevice), Err(IpcError::Unexpected));
    assert_eq!(battery_reply(DaemonResponse::Done), Err(IpcError::Unexpected));

    assert_eq!(input_state_reply(failure()), Err(remote.clone()));
    assert_eq!(input_state_reply(DaemonResponse::Pong), Err(IpcError::Unexpected));

    assert_eq!(
        firmware_info_reply(DaemonResponse::FirmwareInfo {
            version: 3,
            build_date: "d".to_string(),
            build_time: "t".to_string()
        }),
        Ok((3, "d".to_string(), "t".to_string()))
    );
    assert_eq!(firmware_info_reply(failure()), Err(remote.clone()));
    assert_eq!(firmware_info_reply(DaemonResponse::NoDevice), Err(IpcError::Unexpected));

    assert_eq!(
        controller_info_reply(DaemonResponse::ControllerInfo {
            serial: "s".to_string(),
            product_id: 1,
            is_bt: true
        }),
        Ok(Some(("s".to_string(), 1, true)))
    );
    assert_eq!(controller_info_reply(failure()), Err(remote.clone()));
    assert_eq!(controller_info_reply(DaemonResponse::NoDevice), Err(IpcError::Unexpected));

    assert_eq!(ack_reply(DaemonResponse::Done), Ok(()));
    assert_eq!(ack_reply(DaemonResponse::NoDevice), Ok(()));
    assert_eq!(ack_reply(DaemonResponse::Pong), Ok(()));
    assert_eq!(ack_reply(failure()), Err(remote));

    assert_eq!(IpcError::Closed.message(), "Daemon closed the connection");
    assert_eq!(IpcError::Unexpected.message(), "Unexpected response");
    assert_eq!(IpcError::Daemon { message: "boom".to_string() }.message(), "boom");
}
