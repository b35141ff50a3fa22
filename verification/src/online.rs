//! The device connectivity layer: how a remote device's frames become
//! snapshot updates.
//!
//! A socket device is polled over one persistent TCP connection; a
//! thermometer device pushes unsolicited datagrams over UDP.  Either way the
//! transport work itself — dialing, binding, reading, writing, sleeping — is
//! done by an unverified runner outside this crate.  Everything the runner
//! decides is decided here: each state machine is a pure step function from
//! state and event to next state and action, and each received byte string
//! is turned into a snapshot update (or dropped) by a function with an exact
//! contract.  No input, however corrupt, can make these functions panic.

use vstd::prelude::*;

use crate::contracts::{spec_decode_response, DeviceData, DeviceResponse, SocketData, ThermometerData};
use crate::errors::{ConnectError, MonitorError, ProtocolError};
use crate::state::SharedState;
use crate::wire::{spec_u64_from_be_bytes, frame_payload};

verus! {

/// How a device reaches its peer: the remote address a TCP poller dials, or
/// the local address a UDP listener binds.  Immutable once set on a device;
/// decides which monitoring strategy is spawned.
#[derive(Clone, Debug)]
pub enum ConnectionType {
    Tcp { ip: String, port: u16 },
    Udp { bind_ip: String, bind_port: u16 },
}

impl ConnectionType {
    /// A TCP polling connection to a remote address.
    pub fn tcp(ip: String, port: u16) -> (c: ConnectionType)
        ensures
            c == (ConnectionType::Tcp { ip, port }),
    {
        ConnectionType::Tcp { ip, port }
    }

    /// A UDP push listener on a local address.
    pub fn udp(bind_ip: String, bind_port: u16) -> (c: ConnectionType)
        ensures
            c == (ConnectionType::Udp { bind_ip, bind_port }),
    {
        ConnectionType::Udp { bind_ip, bind_port }
    }

    /// The host text of the connection's address.
    pub open spec fn spec_host(&self) -> Seq<char> {
        match self {
            ConnectionType::Tcp { ip, .. } => ip@,
            ConnectionType::Udp { bind_ip, .. } => bind_ip@,
        }
    }

    /// The port of the connection's address.
    pub open spec fn spec_port(&self) -> u16 {
        match self {
            ConnectionType::Tcp { port, .. } => *port,
            ConnectionType::Udp { bind_port, .. } => *bind_port,
        }
    }

    /// The address the connection uses: host and port.
    pub fn get_addr(&self) -> (r: (String, u16))
        ensures
            r.0@ == self.spec_host(),
            r.1 == self.spec_port(),
    {
        match self {
            ConnectionType::Tcp { ip, port } => (ip.as_str().to_owned(), *port),
            ConnectionType::Udp { bind_ip, bind_port } => (bind_ip.as_str().to_owned(), *bind_port),
        }
    }
}

/// What one response payload means to the monitoring task.
pub enum PayloadMeaning {
    /// A successful response, carrying its optional snapshot.
    Snapshot(Option<DeviceData>),
    /// A response with `success == false`, carrying the peer's message.
    RemoteFailure(Option<Seq<char>>),
    /// Bytes that do not decode to any well-formed response.
    Undecodable,
}

/// What a payload means: the snapshot of a successful response, the message
/// of a failed one, or nothing when the bytes do not decode.
pub open spec fn spec_result_of_payload(payload: Seq<u8>) -> PayloadMeaning {
    match spec_decode_response(payload) {
        Some(m) => if m.success {
            PayloadMeaning::Snapshot(m.data)
        } else {
            PayloadMeaning::RemoteFailure(m.error)
        },
        None => PayloadMeaning::Undecodable,
    }
}

/// Interpret one decoded response: a successful response yields its optional
/// snapshot; a failed one surfaces the peer's message as a remote error; a
/// payload that does not decode is a protocol error.
pub fn decode_result(message: Vec<u8>) -> (r: Result<Option<DeviceData>, MonitorError>)
    ensures
        match r {
            Ok(data) => spec_result_of_payload(message@) == PayloadMeaning::Snapshot(data),
            Err(MonitorError::Protocol(p)) => p == ProtocolError::Malformed
                && spec_result_of_payload(message@) == PayloadMeaning::Undecodable,
            Err(MonitorError::Remote(e)) => spec_result_of_payload(message@)
                == PayloadMeaning::RemoteFailure(Some(e@)),
            Err(MonitorError::Io(_)) => false,
        },
{
    match DeviceResponse::decode(message.as_slice()) {
        Err(p) => Err(MonitorError::Protocol(p)),
        Ok(response) => {
            if response.success {
                Ok(response.data)
            } else {
                match response.error {
                    Some(e) => Err(MonitorError::Remote(e)),
                    None => {
                        proof {
                            assert(response.wf());
                        }
                        unreached()
                    },
                }
            }
        },
    }
}

/// What one UDP datagram means to a cell of the given kind: the snapshot to
/// store, if the datagram is a whole frame whose payload decodes to a
/// successful response carrying a snapshot of that kind; nothing otherwise.
pub open spec fn spec_datagram_snapshot(datagram: Seq<u8>, kind_socket: bool) -> Option<
    DeviceData,
> {
    if datagram.len() >= 8 && spec_u64_from_be_bytes(datagram.subrange(0, 8)) <= datagram.len()
        - 8 {
        let announced = spec_u64_from_be_bytes(datagram.subrange(0, 8));
        let payload = datagram.subrange(8, 8 + announced);
        match spec_result_of_payload(payload) {
            PayloadMeaning::Snapshot(Some(d)) => if (d is Socket) == kind_socket {
                Some(d)
            } else {
                None
            },
            _ => None,
        }
    } else {
        None
    }
}

/// A pushed reading always lands: the datagram a thermometer emulator builds
/// for a reading yields exactly that reading to a thermometer cell, and
/// nothing to a socket cell.
pub proof fn lemma_push_frame_snapshot(reading: crate::contracts::ThermometerData)
    ensures
        ({
            let m = crate::contracts::ResponseModel {
                data: Some(DeviceData::Thermometer(reading)),
                success: true,
                error: None,
            };
            let datagram = crate::wire::spec_frame(crate::contracts::spec_response_bytes(m));
            &&& spec_datagram_snapshot(datagram, false) == Some(DeviceData::Thermometer(reading))
            &&& spec_datagram_snapshot(datagram, true) is None
        }),
{
    let m = crate::contracts::ResponseModel {
        data: Some(DeviceData::Thermometer(reading)),
        success: true,
        error: None,
    };
    crate::contracts::lemma_response_round_trip(m);
    let payload = crate::contracts::spec_response_bytes(m);
    let datagram = crate::wire::spec_frame(payload);
    crate::wire::lemma_u64_be_bytes_round_trip(payload.len() as u64);
    assert(datagram.subrange(0, 8) =~= crate::wire::spec_u64_to_be_bytes(payload.len() as u64));
    assert(datagram.subrange(8, 8 + payload.len() as int) =~= payload);
}

/// A snapshot with its online flag set as the monitoring task maintains it:
/// the flag is not taken from the peer but flipped here — true whenever a
/// valid frame was received, false when the task is torn down.
pub open spec fn spec_set_online(d: DeviceData, online: bool) -> DeviceData {
    match d {
        DeviceData::Socket(s) => DeviceData::Socket(
            SocketData {
                power_centi: s.power_centi,
                is_on: s.is_on,
                timestamp: s.timestamp,
                is_online: online,
            },
        ),
        DeviceData::Thermometer(t) => DeviceData::Thermometer(
            ThermometerData {
                temp_centi: t.temp_centi,
                timestamp: t.timestamp,
                is_online: online,
            },
        ),
    }
}

fn set_online(d: DeviceData, online: bool) -> (r: DeviceData)
    ensures
        r == spec_set_online(d, online),
{
    match d {
        DeviceData::Socket(s) => DeviceData::Socket(
            SocketData {
                power_centi: s.power_centi,
                is_on: s.is_on,
                timestamp: s.timestamp,
                is_online: online,
            },
        ),
        DeviceData::Thermometer(t) => DeviceData::Thermometer(
            ThermometerData {
                temp_centi: t.temp_centi,
                timestamp: t.timestamp,
                is_online: online,
            },
        ),
    }
}

/// Mark the device offline: its monitoring task gave up or was cancelled, so
/// the snapshot keeps its last readings but stops claiming a live peer.
pub fn mark_offline(cell: &SharedState) {
    let current = cell.read_snapshot();
    cell.store(set_online(current, false));
}

/// What became of one received datagram.
#[derive(Clone, Debug, PartialEq, Eq)]
pub enum DatagramOutcome {
    /// The frame decoded to a snapshot and the cell was overwritten with it.
    Updated(DeviceData),
    /// The response was fine but carried no snapshot; the cell is untouched.
    NoSnapshot,
    /// The snapshot was of the other device kind; the cell is untouched.
    WrongKind(DeviceData),
    /// The frame was truncated, corrupt, or a reported failure; the cell is
    /// untouched.
    Dropped(MonitorError),
}

/// Apply one received UDP datagram to a device's shared cell, defensively:
/// the whole frame — length prefix and payload — is reassembled from the one
/// buffer, and anything that does not yield a usable snapshot of the cell's
/// kind is dropped without touching the cell and without panicking.
pub fn apply_datagram(cell: &SharedState, datagram: &[u8]) -> (r: DatagramOutcome)
    ensures
        match r {
            DatagramOutcome::Updated(d) => (spec_datagram_snapshot(
                datagram@,
                cell.holds_socket(),
            ) matches Some(raw) && d == spec_set_online(raw, true)),
            _ => spec_datagram_snapshot(datagram@, cell.holds_socket()) is None,
        },
{
    let payload = match frame_payload(datagram) {
        Some(p) => p,
        None => {
            return DatagramOutcome::Dropped(MonitorError::Protocol(ProtocolError::Malformed));
        },
    };
    proof {
        let announced = spec_u64_from_be_bytes(datagram@.subrange(0, 8));
        assert(payload@ =~= datagram@.subrange(8, 8 + announced));
    }
    match decode_result(payload) {
        Ok(Some(d)) => {
            let is_socket_data = match d {
                DeviceData::Socket(_) => true,
                DeviceData::Thermometer(_) => false,
            };
            if is_socket_data == cell.is_socket_cell() {
                let stored = set_online(d, true);
                cell.store(stored);
                DatagramOutcome::Updated(stored)
            } else {
                DatagramOutcome::WrongKind(d)
            }
        },
        Ok(None) => DatagramOutcome::NoSnapshot,
        Err(e) => DatagramOutcome::Dropped(e),
    }
}

/// Apply one polled response payload to a socket device's shared cell: the
/// same interpretation as a datagram's, on a payload whose frame the runner
/// has already read byte-exactly from the TCP stream.
pub fn apply_poll_response(cell: &SharedState, payload: Vec<u8>) -> (r: DatagramOutcome)
    ensures
        match r {
            DatagramOutcome::Updated(d) => (spec_result_of_payload(payload@)
                matches PayloadMeaning::Snapshot(Some(raw)) && d == spec_set_online(raw, true)
                && ((d is Socket) == cell.holds_socket())),
            DatagramOutcome::WrongKind(d) => spec_result_of_payload(payload@)
                == PayloadMeaning::Snapshot(Some(d)) && ((d is Socket) != cell.holds_socket()),
            DatagramOutcome::NoSnapshot => spec_result_of_payload(payload@)
                == PayloadMeaning::Snapshot(None::<DeviceData>),
            DatagramOutcome::Dropped(e) => match e {
                MonitorError::Protocol(_) => spec_result_of_payload(payload@)
                    == PayloadMeaning::Undecodable,
                MonitorError::Remote(msg) => spec_result_of_payload(payload@)
                    == PayloadMeaning::RemoteFailure(Some(msg@)),
                MonitorError::Io(_) => false,
            },
        },
{
    match decode_result(payload) {
        Ok(Some(d)) => {
            let is_socket_data = match d {
                DeviceData::Socket(_) => true,
                DeviceData::Thermometer(_) => false,
            };
            if is_socket_data == cell.is_socket_cell() {
                let stored = set_online(d, true);
                cell.store(stored);
                DatagramOutcome::Updated(stored)
            } else {
                DatagramOutcome::WrongKind(d)
            }
        },
        Ok(None) => DatagramOutcome::NoSnapshot,
        Err(e) => DatagramOutcome::Dropped(e),
    }
}

/// The transport step `connect` asks the runner to perform on success.
#[derive(Debug, Clone, PartialEq, Eq)]
pub enum ConnectPlan {
    /// Dial this remote address over TCP and run the poll channel on it.
    DialTcp { ip: String, port: u16 },
    /// Bind this local address over UDP and run the push listener on it.
    BindUdp { bind_ip: String, bind_port: u16 },
}

/// A device that can be connected to the remote peer it was configured with.
pub trait OnlineDevice {
    /// The connection the device was built with.
    spec fn connection_view(&self) -> Option<ConnectionType>;

    /// Whether the device's kind fits its connection: sockets poll over TCP,
    /// thermometers listen over UDP.
    spec fn connection_compatible(&self) -> bool;

    /// Classify the device's connection and say which transport step the
    /// runner must perform; a device built without connection options gets
    /// `NoConnectionOptions` instead, and no task is ever spawned for it.
    fn connect(&self) -> (r: Result<ConnectPlan, ConnectError>)
        requires
            self.connection_compatible(),
        ensures
            match self.connection_view() {
                None => r == Err::<ConnectPlan, _>(ConnectError::NoConnectionOptions),
                Some(c) => match c {
                    ConnectionType::Tcp { ip, port } => (r matches Ok(ConnectPlan::DialTcp {
                        ip: plan_ip,
                        port: plan_port,
                    }) && plan_ip@ == ip@ && plan_port == port),
                    ConnectionType::Udp { bind_ip, bind_port } => (r matches Ok(
                        ConnectPlan::BindUdp { bind_ip: plan_ip, bind_port: plan_port },
                    ) && plan_ip@ == bind_ip@ && plan_port == bind_port),
                },
            },
    ;
}

impl OnlineDevice for crate::smart_device::SmartDeviceType {
    open spec fn connection_view(&self) -> Option<ConnectionType> {
        self.spec_connection()
    }

    open spec fn connection_compatible(&self) -> bool {
        match self.spec_connection() {
            None => true,
            Some(ConnectionType::Tcp { .. }) => self is Socket,
            Some(ConnectionType::Udp { .. }) => self is Thermometer,
        }
    }

    fn connect(&self) -> (r: Result<ConnectPlan, ConnectError>) {
        match self.get_connection() {
            None => Err(ConnectError::NoConnectionOptions),
            Some(ConnectionType::Tcp { ip, port }) => Ok(
                ConnectPlan::DialTcp { ip: ip.as_str().to_owned(), port: *port },
            ),
            Some(ConnectionType::Udp { bind_ip, bind_port }) => Ok(
                ConnectPlan::BindUdp { bind_ip: bind_ip.as_str().to_owned(), bind_port: *bind_port },
            ),
        }
    }
}

/// The TCP poll channel's state.
#[derive(Clone, Copy, Debug, PartialEq, Eq, Structural)]
pub enum TcpPollState {
    Disconnected,
    Connecting,
    Monitoring,
    Terminated,
}

/// What the runner reports to the poll channel.
#[derive(Debug, PartialEq, Eq)]
pub enum PollEvent {
    /// The caller asked to connect.
    Start,
    /// The dial finished, well or with the given reason.
    Dialed(Result<(), String>),
    /// One response frame's payload was read from the stream.
    ResponseFrame(Vec<u8>),
    /// A write or read failed, or the time-bounded read timed out.
    IoFailure(String),
    /// The owning device is going away.
    Cancel,
}

/// What the poll channel asks the runner to do next.
#[derive(Debug, PartialEq, Eq)]
pub enum PollAction {
    /// Dial the configured remote address.
    Dial,
    /// Write a `GetStatus` request and read one response frame, with a
    /// bounded timeout.
    SendStatusRequest,
    /// Store the snapshot in the shared cell, then sleep the poll interval
    /// and poll again.
    StoreSnapshot(DeviceData),
    /// Nothing to store; sleep the poll interval and poll again.
    SkipPoll,
    /// Log the failure, sleep the backoff interval, and poll again on the
    /// same connection.
    Backoff(MonitorError),
    /// Surface the failure to the caller of `connect`; no task is spawned.
    GiveUp(ConnectError),
    /// Tear the channel down and mark the cell offline.
    Stop,
    /// The event does not apply in this state; do nothing.
    Ignore,
}

/// One step of the TCP poll channel: `Disconnected → Connecting →
/// Monitoring → Terminated`.  A failed dial is surfaced synchronously and
/// never enters `Monitoring`; every failure inside `Monitoring` is contained
/// there, and only cancellation terminates the channel.
pub fn poll_step(state: TcpPollState, event: PollEvent) -> (r: (TcpPollState, PollAction))
    ensures
        ({
            let (next, action) = r;
            match (state, event) {
                (_, PollEvent::Cancel) => next == TcpPollState::Terminated && action
                    == PollAction::Stop,
                (TcpPollState::Disconnected, PollEvent::Start) => next == TcpPollState::Connecting
                    && action == PollAction::Dial,
                (TcpPollState::Connecting, PollEvent::Dialed(Ok(()))) => next
                    == TcpPollState::Monitoring && action == PollAction::SendStatusRequest,
                (TcpPollState::Connecting, PollEvent::Dialed(Err(reason))) => next
                    == TcpPollState::Disconnected && action == PollAction::GiveUp(
                    ConnectError::Unreachable(reason),
                ),
                (TcpPollState::Monitoring, PollEvent::ResponseFrame(payload)) => next
                    == TcpPollState::Monitoring && match spec_result_of_payload(payload@) {
                    PayloadMeaning::Snapshot(Some(d)) => action == PollAction::StoreSnapshot(d),
                    PayloadMeaning::Snapshot(None) => action == PollAction::SkipPoll,
                    PayloadMeaning::RemoteFailure(_) => action matches PollAction::Backoff(
                        MonitorError::Remote(_),
                    ),
                    PayloadMeaning::Undecodable => action == PollAction::Backoff(
                        MonitorError::Protocol(ProtocolError::Malformed),
                    ),
                },
                (TcpPollState::Monitoring, PollEvent::IoFailure(reason)) => next
                    == TcpPollState::Monitoring && action == PollAction::Backoff(MonitorError::Io(
                    reason,
                )),
                _ => next == state && action == PollAction::Ignore,
            }
        }),
{
    match event {
        PollEvent::Cancel => (TcpPollState::Terminated, PollAction::Stop),
        PollEvent::Start => match state {
            TcpPollState::Disconnected => (TcpPollState::Connecting, PollAction::Dial),
            _ => (state, PollAction::Ignore),
        },
        PollEvent::Dialed(outcome) => match state {
            TcpPollState::Connecting => match outcome {
                Ok(()) => (TcpPollState::Monitoring, PollAction::SendStatusRequest),
                Err(reason) => (
                    TcpPollState::Disconnected,
                    PollAction::GiveUp(ConnectError::Unreachable(reason)),
                ),
            },
            _ => (state, PollAction::Ignore),
        },
        PollEvent::ResponseFrame(payload) => match state {
            TcpPollState::Monitoring => match decode_result(payload) {
                Ok(Some(d)) => (TcpPollState::Monitoring, PollAction::StoreSnapshot(d)),
                Ok(None) => (TcpPollState::Monitoring, PollAction::SkipPoll),
                Err(e) => (TcpPollState::Monitoring, PollAction::Backoff(e)),
            },
            _ => (state, PollAction::Ignore),
        },
        PollEvent::IoFailure(reason) => match state {
            TcpPollState::Monitoring => (
                TcpPollState::Monitoring,
                PollAction::Backoff(MonitorError::Io(reason)),
            ),
            _ => (state, PollAction::Ignore),
        },
    }
}

/// The UDP push listener's state.
#[derive(Clone, Copy, Debug, PartialEq, Eq, Structural)]
pub enum UdpListenState {
    Disconnected,
    Bound,
    Listening,
    Terminated,
}

/// What the runner reports to the push listener.
#[derive(Debug, PartialEq, Eq)]
pub enum ListenEvent {
    /// The caller asked to connect.
    Start,
    /// The bind finished, well or with the given reason.
    BoundSocket(Result<(), String>),
    /// The listening task is running.
    ListenerSpawned,
    /// One datagram arrived.
    Datagram(Vec<u8>),
    /// The owning device is going away.
    Cancel,
}

/// What the push listener asks the runner to do next.
#[derive(Debug, PartialEq, Eq)]
pub enum ListenAction {
    /// Bind the configured local address.
    Bind,
    /// Spawn the listening task on the bound socket.
    SpawnListener,
    /// Block on the socket for the next datagram.
    AwaitDatagram,
    /// Hand the datagram to `apply_datagram`, then await the next one.
    Apply(Vec<u8>),
    /// Surface the failure to the caller of `connect`; no task is spawned.
    GiveUp(ConnectError),
    /// Tear the listener down and mark the cell offline.
    Stop,
    /// The event does not apply in this state; do nothing.
    Ignore,
}

/// One step of the UDP push listener: `Disconnected → Bound → Listening →
/// Terminated`.  A failed bind is surfaced synchronously; no request is ever
/// sent, and a received datagram only ever feeds `apply_datagram`, which
/// drops anything malformed without stopping the listener.
pub fn listen_step(state: UdpListenState, event: ListenEvent) -> (r: (UdpListenState, ListenAction))
    ensures
        ({
            let (next, action) = r;
            match (state, event) {
                (_, ListenEvent::Cancel) => next == UdpListenState::Terminated && action
                    == ListenAction::Stop,
                (UdpListenState::Disconnected, ListenEvent::Start) => next
                    == UdpListenState::Disconnected && action == ListenAction::Bind,
                (UdpListenState::Disconnected, ListenEvent::BoundSocket(Ok(()))) => next
                    == UdpListenState::Bound && action == ListenAction::SpawnListener,
                (UdpListenState::Disconnected, ListenEvent::BoundSocket(Err(reason))) => next
                    == UdpListenState::Disconnected && action == ListenAction::GiveUp(
                    ConnectError::BindFailed(reason),
                ),
                (UdpListenState::Bound, ListenEvent::ListenerSpawned) => next
                    == UdpListenState::Listening && action == ListenAction::AwaitDatagram,
                (UdpListenState::Listening, ListenEvent::Datagram(bytes)) => next
                    == UdpListenState::Listening && action == ListenAction::Apply(bytes),
                _ => next == state && action == ListenAction::Ignore,
            }
        }),
{
    match event {
        ListenEvent::Cancel => (UdpListenState::Terminated, ListenAction::Stop),
        ListenEvent::Start => match state {
            UdpListenState::Disconnected => (UdpListenState::Disconnected, ListenAction::Bind),
            _ => (state, ListenAction::Ignore),
        },
        ListenEvent::BoundSocket(outcome) => match state {
            UdpListenState::Disconnected => match outcome {
                Ok(()) => (UdpListenState::Bound, ListenAction::SpawnListener),
                Err(reason) => (
                    UdpListenState::Disconnected,
                    ListenAction::GiveUp(ConnectError::BindFailed(reason)),
                ),
            },
            _ => (state, ListenAction::Ignore),
        },
        ListenEvent::ListenerSpawned => match state {
            UdpListenState::Bound => (UdpListenState::Listening, ListenAction::AwaitDatagram),
            _ => (state, ListenAction::Ignore),
        },
        ListenEvent::Datagram(bytes) => match state {
            UdpListenState::Listening => (UdpListenState::Listening, ListenAction::Apply(bytes)),
            _ => (state, ListenAction::Ignore),
        },
    }
}

} // verus!
