use sh_lib::contracts::{Commands, DeviceData, DeviceResponse, SocketData, ThermometerData};
use sh_lib::contracts::request_bytes;
use sh_lib::clock::now_millis;
use sh_lib::emulator::{demo_power_centi, emulator_handle_request, make_push_frame};
use sh_lib::errors::{ConnectError, MonitorError, ProtocolError};
use sh_lib::online::{
    apply_datagram, decode_result, listen_step, poll_step, ConnectPlan, ConnectionType,
    DatagramOutcome, ListenAction, ListenEvent, OnlineDevice, PollAction, PollEvent,
    TcpPollState, UdpListenState,
};
use sh_lib::smart_device::{OnOff, SmartDeviceType};
use sh_lib::smart_socket::SmartSocket;
use sh_lib::smart_thermometer::SmartThermometer;
use sh_lib::state::SharedState;
use sh_lib::wire::frame_payload;

fn emulator_socket_state() -> SocketData {
    SocketData {
        power_centi: 0,
        is_on: false,
        timestamp: 0,
        is_online: true,
    }
}

// The socket emulator answers the TurnOn request bytes with a frame whose
// payload decodes to success with no snapshot.
#[test]
fn scenario_turn_on_over_poll_channel() {
    let mut state = emulator_socket_state();
    let request = request_bytes(Commands::TurnOn);
    assert_eq!(request, vec![0u8, 0, 0, 1]);

    let frame = emulator_handle_request(&mut state, &request, demo_power_centi(), now_millis());

    assert!(state.is_on);
    let payload = frame_payload(&frame).unwrap();
    let response = DeviceResponse::decode(&payload).unwrap();
    assert!(response.success);
    assert_eq!(response.data, None);
    assert_eq!(response.error, None);
}

// The socket emulator answers the GetStatus request bytes with a snapshot
// whose timestamp is within a few seconds of now.
#[test]
fn scenario_get_status_over_poll_channel() {
    let mut state = emulator_socket_state();
    let request = request_bytes(Commands::GetStatus);
    assert_eq!(request, vec![0u8, 0, 0, 3]);

    let frame = emulator_handle_request(&mut state, &request, demo_power_centi(), now_millis());

    let payload = frame_payload(&frame).unwrap();
    let response = DeviceResponse::decode(&payload).unwrap();
    assert!(response.success);
    match response.data {
        Some(DeviceData::Socket(s)) => {
            assert!(70000 <= s.power_centi && s.power_centi <= 200000);
            let now = chrono::Utc::now().timestamp_millis();
            let age = now - s.timestamp as i64;
            assert!(-1000 < age && age < 5000, "snapshot timestamp is stale");
        },
        other => panic!("expected a socket snapshot, got {:?}", other),
    }
}

// The socket emulator reports an unknown command as a failure.
#[test]
fn scenario_unknown_command_is_reported() {
    let mut state = emulator_socket_state();
    let request = vec![0u8, 0, 0, 99];

    let frame = emulator_handle_request(&mut state, &request, demo_power_centi(), now_millis());

    assert_eq!(state, emulator_socket_state());
    let payload = frame_payload(&frame).unwrap();
    match decode_result(payload) {
        Err(MonitorError::Remote(message)) => assert_eq!(message, "Unknown command"),
        other => panic!("expected a remote failure, got {:?}", other),
    }
}

// A well-formed thermometer frame updates the shared cell's reading.
#[test]
fn scenario_push_updates_thermometer_cell() {
    let initial = ThermometerData {
        temp_centi: 0,
        timestamp: 0,
        is_online: false,
    };
    let cell = SharedState::new(DeviceData::Thermometer(initial));
    let reading = ThermometerData {
        temp_centi: 2345,
        timestamp: 1700000000789,
        is_online: true,
    };

    let datagram = make_push_frame(reading);
    let outcome = apply_datagram(&cell, &datagram);

    assert_eq!(outcome, DatagramOutcome::Updated(DeviceData::Thermometer(reading)));
    match cell.read_snapshot() {
        DeviceData::Thermometer(t) => {
            assert_eq!(t.temp_centi, 2345);
            assert!(t.is_online);
        },
        DeviceData::Socket(_) => panic!("a thermometer cell held a socket snapshot"),
    }
}

// A truncated or corrupt datagram is dropped without panicking and without
// altering the shared cell.
#[test]
fn scenario_corrupt_datagram_is_dropped() {
    let initial = ThermometerData {
        temp_centi: 1111,
        timestamp: 42,
        is_online: true,
    };
    let cell = SharedState::new(DeviceData::Thermometer(initial));
    let reading = ThermometerData {
        temp_centi: 2345,
        timestamp: 1700000000789,
        is_online: true,
    };

    let whole = make_push_frame(reading);
    let truncated = &whole[..whole.len() - 3];
    assert!(matches!(apply_datagram(&cell, truncated), DatagramOutcome::Dropped(_)));

    let mut corrupt = whole.clone();
    corrupt[9] = 0xff;
    assert!(matches!(apply_datagram(&cell, &corrupt), DatagramOutcome::Dropped(_)));

    assert_eq!(cell.read_snapshot(), DeviceData::Thermometer(initial));
}

// The listener, not the peer, maintains the online flag: a valid frame marks
// the device online even if the peer claimed otherwise, and tearing the task
// down marks it offline again.
#[test]
fn online_flag_is_maintained_by_the_listener() {
    let initial = ThermometerData {
        temp_centi: 0,
        timestamp: 0,
        is_online: false,
    };
    let cell = SharedState::new(DeviceData::Thermometer(initial));
    let reading = ThermometerData {
        temp_centi: 1999,
        timestamp: 5,
        is_online: false,
    };

    let datagram = make_push_frame(reading);
    apply_datagram(&cell, &datagram);
    match cell.read_snapshot() {
        DeviceData::Thermometer(t) => {
            assert_eq!(t.temp_centi, 1999);
            assert!(t.is_online);
        },
        DeviceData::Socket(_) => panic!("a thermometer cell held a socket snapshot"),
    }

    sh_lib::online::mark_offline(&cell);
    match cell.read_snapshot() {
        DeviceData::Thermometer(t) => {
            assert_eq!(t.temp_centi, 1999);
            assert!(!t.is_online);
        },
        DeviceData::Socket(_) => panic!("a thermometer cell held a socket snapshot"),
    }
}

// A snapshot of the wrong kind never lands in a cell.
#[test]
fn push_of_wrong_kind_is_not_stored() {
    let initial = SocketData {
        power_centi: 5,
        is_on: true,
        timestamp: 7,
        is_online: true,
    };
    let cell = SharedState::new(DeviceData::Socket(initial));
    let reading = ThermometerData {
        temp_centi: 2345,
        timestamp: 1,
        is_online: true,
    };

    let datagram = make_push_frame(reading);
    let outcome = apply_datagram(&cell, &datagram);

    assert_eq!(outcome, DatagramOutcome::WrongKind(DeviceData::Thermometer(reading)));
    assert_eq!(cell.read_snapshot(), DeviceData::Socket(initial));
}

// A failed dial surfaces ConnectError::Unreachable and never enters
// Monitoring, so no task is spawned.
#[test]
fn scenario_unreachable_dial_gives_connect_error() {
    let (next, action) = poll_step(
        TcpPollState::Connecting,
        PollEvent::Dialed(Err(String::from("connection refused"))),
    );
    assert_eq!(next, TcpPollState::Disconnected);
    assert_eq!(
        action,
        PollAction::GiveUp(ConnectError::Unreachable(String::from("connection refused")))
    );
}

#[test]
fn poll_channel_lifecycle() {
    let (next, action) = poll_step(TcpPollState::Disconnected, PollEvent::Start);
    assert_eq!((next, action), (TcpPollState::Connecting, PollAction::Dial));

    let (next, action) = poll_step(TcpPollState::Connecting, PollEvent::Dialed(Ok(())));
    assert_eq!((next, action), (TcpPollState::Monitoring, PollAction::SendStatusRequest));

    let snapshot = DeviceData::Socket(emulator_socket_state());
    let payload = DeviceResponse {
        data: Some(snapshot),
        success: true,
        error: None,
    }
    .encode();
    let (next, action) = poll_step(TcpPollState::Monitoring, PollEvent::ResponseFrame(payload));
    assert_eq!((next, action), (TcpPollState::Monitoring, PollAction::StoreSnapshot(snapshot)));

    let (next, action) = poll_step(
        TcpPollState::Monitoring,
        PollEvent::IoFailure(String::from("timed out")),
    );
    assert_eq!(next, TcpPollState::Monitoring);
    assert_eq!(action, PollAction::Backoff(MonitorError::Io(String::from("timed out"))));

    let (next, action) = poll_step(TcpPollState::Monitoring, PollEvent::Cancel);
    assert_eq!((next, action), (TcpPollState::Terminated, PollAction::Stop));
}

#[test]
fn poll_channel_backs_off_on_malformed_frame() {
    let (next, action) = poll_step(
        TcpPollState::Monitoring,
        PollEvent::ResponseFrame(vec![9, 9, 9]),
    );
    assert_eq!(next, TcpPollState::Monitoring);
    assert_eq!(
        action,
        PollAction::Backoff(MonitorError::Protocol(ProtocolError::Malformed))
    );
}

#[test]
fn listener_lifecycle_and_bind_failure() {
    let (next, action) = listen_step(UdpListenState::Disconnected, ListenEvent::Start);
    assert_eq!((next, action), (UdpListenState::Disconnected, ListenAction::Bind));

    let (next, action) = listen_step(
        UdpListenState::Disconnected,
        ListenEvent::BoundSocket(Err(String::from("address in use"))),
    );
    assert_eq!(next, UdpListenState::Disconnected);
    assert_eq!(
        action,
        ListenAction::GiveUp(ConnectError::BindFailed(String::from("address in use")))
    );

    let (next, action) = listen_step(
        UdpListenState::Disconnected,
        ListenEvent::BoundSocket(Ok(())),
    );
    assert_eq!((next, action), (UdpListenState::Bound, ListenAction::SpawnListener));

    let (next, action) = listen_step(UdpListenState::Bound, ListenEvent::ListenerSpawned);
    assert_eq!((next, action), (UdpListenState::Listening, ListenAction::AwaitDatagram));

    let (next, action) = listen_step(
        UdpListenState::Listening,
        ListenEvent::Datagram(vec![1, 2, 3]),
    );
    assert_eq!((next, action), (UdpListenState::Listening, ListenAction::Apply(vec![1, 2, 3])));

    let (next, action) = listen_step(UdpListenState::Listening, ListenEvent::Cancel);
    assert_eq!((next, action), (UdpListenState::Terminated, ListenAction::Stop));
}

#[test]
fn connect_classifies_the_connection() {
    let socket = SmartSocket::new_with_connection(
        String::from("Розетка"),
        100000,
        OnOff::Off,
        ConnectionType::tcp(String::from("127.0.0.1"), 3001),
    );
    let device = SmartDeviceType::Socket(socket);
    assert_eq!(
        device.connect(),
        Ok(ConnectPlan::DialTcp {
            ip: String::from("127.0.0.1"),
            port: 3001,
        })
    );

    let thermometer = SmartThermometer::new_with_connection(
        String::from("Термометр"),
        2000,
        ConnectionType::udp(String::from("127.0.0.1"), 4001),
    );
    let device = SmartDeviceType::Thermometer(thermometer);
    assert_eq!(
        device.connect(),
        Ok(ConnectPlan::BindUdp {
            bind_ip: String::from("127.0.0.1"),
            bind_port: 4001,
        })
    );
}

#[test]
fn connect_without_options_is_refused() {
    let device = SmartDeviceType::Socket(SmartSocket::new(
        String::from("Розетка"),
        100000,
        OnOff::Off,
    ));
    assert_eq!(device.connect(), Err(ConnectError::NoConnectionOptions));
}

#[test]
fn decode_result_interprets_the_three_outcomes() {
    let snapshot = DeviceData::Socket(emulator_socket_state());
    let good = DeviceResponse {
        data: Some(snapshot),
        success: true,
        error: None,
    }
    .encode();
    assert_eq!(decode_result(good), Ok(Some(snapshot)));

    let remote_failure = DeviceResponse {
        data: None,
        success: false,
        error: Some(String::from("boom")),
    }
    .encode();
    assert_eq!(
        decode_result(remote_failure),
        Err(MonitorError::Remote(String::from("boom")))
    );

    assert_eq!(
        decode_result(vec![0xde, 0xad]),
        Err(MonitorError::Protocol(ProtocolError::Malformed))
    );
}

// Readers of a cell always see a complete snapshot of the cell's own kind
// while the writer replaces it wholesale.
#[test]
fn cell_readers_see_whole_snapshots() {
    let first = SocketData {
        power_centi: 1,
        is_on: false,
        timestamp: 10,
        is_online: false,
    };
    let second = SocketData {
        power_centi: 2,
        is_on: true,
        timestamp: 20,
        is_online: true,
    };
    let cell = SharedState::new(DeviceData::Socket(first));
    assert_eq!(cell.read_snapshot(), DeviceData::Socket(first));
    cell.store(DeviceData::Socket(second));
    let seen = cell.read_snapshot();
    assert!(seen == DeviceData::Socket(first) || seen == DeviceData::Socket(second));
    assert_eq!(seen, DeviceData::Socket(second));
}

#[test]
fn now_millis_reads_the_clock() {
    // would fail if the clock wrapper handed back a constant zero
    assert!(now_millis() > 1_600_000_000_000);
}

#[test]
fn demo_power_is_in_range() {
    for _ in 0..100 {
        let p = demo_power_centi();
        assert!(70000 <= p && p <= 200000);
    }
}

#[test]
fn connection_addr_round_trips() {
    let c = ConnectionType::tcp(String::from("10.0.0.1"), 8080);
    let (host, port) = c.get_addr();
    assert_eq!(host, "10.0.0.1");
    assert_eq!(port, 8080);
}
