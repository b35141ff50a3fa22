//! What the emulator peers do with each request: the socket emulator's
//! command dispatch and the thermometer emulator's pushed reading.
//!
//! The emulators stand in for physical hardware and speak the same wire
//! format as the client side: a socket emulator reads 4 request bytes,
//! mutates its local state, and answers one length-prefixed response frame;
//! a thermometer emulator pushes one such frame per interval, unsolicited.
//! The accept/read/write loops live with the runner; every decision and
//! every byte of a reply is produced here.

use vstd::prelude::*;

use crate::clock::now_millis;
use crate::contracts::{
    command_from_bytes, spec_command_of_wire, spec_response_bytes, Commands, DeviceData,
    DeviceResponse, ResponseModel, SocketData, ThermometerData,
};
use crate::wire::{make_frame, spec_frame};

verus! {

use vstd::string::StringExecFns;

/// Relies on rand's `random_range`: a value drawn uniformly from the given
/// inclusive range.  It panics on an empty range, which the bound rules out;
/// the draw is random, so no more is promised of it.
#[verifier::external_body]
fn random_in_range(lo: u64, hi: u64) -> (r: u64)
    requires
        lo <= hi,
    ensures
        lo <= r <= hi,
{
    rand::random_range(lo..=hi)
}

/// A demonstration power draw: 700 to 2000 watts, in hundredths.
pub fn demo_power_centi() -> (r: u64)
    ensures
        70000 <= r <= 200000,
{
    random_in_range(70000, 200000)
}

/// A demonstration temperature: 18 to 25 degrees, in hundredths.
pub fn demo_temp_centi() -> (r: i64)
    ensures
        1800 <= r <= 2500,
{
    random_in_range(1800, 2500) as i64
}

/// The socket emulator's state after a command: `TurnOn` and `TurnOff` set
/// the flag; `GetStatus` demonstrates a changing device by toggling the flag
/// and taking a fresh power draw and timestamp; anything else changes
/// nothing.
pub open spec fn spec_emulator_next_state(
    s: SocketData,
    cmd: Commands,
    demo_power: u64,
    now: u64,
) -> SocketData {
    match cmd {
        Commands::TurnOn => SocketData {
            power_centi: s.power_centi,
            is_on: true,
            timestamp: s.timestamp,
            is_online: s.is_online,
        },
        Commands::TurnOff => SocketData {
            power_centi: s.power_centi,
            is_on: false,
            timestamp: s.timestamp,
            is_online: s.is_online,
        },
        Commands::GetStatus => SocketData {
            power_centi: demo_power,
            is_on: !s.is_on,
            timestamp: now,
            is_online: s.is_online,
        },
        Commands::Unknown => s,
    }
}

/// The socket emulator's answer to a command: success with no snapshot for
/// the switch commands, success carrying the fresh snapshot for `GetStatus`,
/// and a reported failure for an unknown command.
pub open spec fn spec_emulator_response(
    s: SocketData,
    cmd: Commands,
    demo_power: u64,
    now: u64,
) -> ResponseModel {
    match cmd {
        Commands::Unknown => ResponseModel {
            data: None,
            success: false,
            error: Some("Unknown command"@),
        },
        Commands::GetStatus => ResponseModel {
            data: Some(DeviceData::Socket(spec_emulator_next_state(s, cmd, demo_power, now))),
            success: true,
            error: None,
        },
        _ => ResponseModel { data: None, success: true, error: None },
    }
}

/// Dispatch one command against the emulator's socket state.
pub fn handle_command(state: &mut SocketData, cmd: Commands, demo_power: u64, now: u64) -> (resp:
    DeviceResponse)
    ensures
        *final(state) == spec_emulator_next_state(*old(state), cmd, demo_power, now),
        resp@ == spec_emulator_response(*old(state), cmd, demo_power, now),
{
    match cmd {
        Commands::TurnOn => {
            state.is_on = true;
            DeviceResponse { data: None, success: true, error: None }
        },
        Commands::TurnOff => {
            state.is_on = false;
            DeviceResponse { data: None, success: true, error: None }
        },
        Commands::GetStatus => {
            state.power_centi = demo_power;
            state.is_on = !state.is_on;
            state.timestamp = now;
            DeviceResponse { data: Some(DeviceData::Socket(*state)), success: true, error: None }
        },
        Commands::Unknown => {
            DeviceResponse {
                data: None,
                success: false,
                error: Some(String::from_str("Unknown command")),
            }
        },
    }
}

/// Serve one polled request: read the command out of the 4 request bytes,
/// dispatch it, and wrap the encoded response in its frame, ready to write
/// back on the stream.
pub fn emulator_handle_request(
    state: &mut SocketData,
    request: &[u8],
    demo_power: u64,
    now: u64,
) -> (frame: Vec<u8>)
    requires
        request@.len() == 4,
    ensures
        *final(state) == spec_emulator_next_state(
            *old(state),
            spec_command_of_wire(request@),
            demo_power,
            now,
        ),
        frame@ == spec_frame(
            spec_response_bytes(
                spec_emulator_response(
                    *old(state),
                    spec_command_of_wire(request@),
                    demo_power,
                    now,
                ),
            ),
        ),
{
    let cmd = command_from_bytes(request);
    let resp = handle_command(state, cmd, demo_power, now);
    make_frame(&resp.encode())
}

/// The emulator's reply means what the emulator meant: for every state and
/// every command — the switch commands, `GetStatus`, and unknown codes alike
/// — the reply is a well-formed response whose payload decodes back to
/// exactly `spec_emulator_response`.
pub proof fn lemma_emulator_reply_decodes(s: SocketData, cmd: Commands, demo_power: u64, now: u64)
    ensures
        ({
            let m = spec_emulator_response(s, cmd, demo_power, now);
            let payload = spec_response_bytes(m);
            &&& m.wf()
            &&& spec_frame(payload).len() == 8 + payload.len()
            &&& spec_frame(payload).subrange(8, spec_frame(payload).len() as int) == payload
            &&& crate::contracts::spec_decode_response(payload) == Some(m)
        }),
{
    let m = spec_emulator_response(s, cmd, demo_power, now);
    if cmd is Unknown {
        reveal_strlit("Unknown command");
        assert(vstd::utf8::is_ascii_chars("Unknown command"@));
        vstd::utf8::is_ascii_chars_encode_utf8("Unknown command"@);
    }
    assert(m.wf());
    crate::contracts::lemma_response_round_trip(m);
    let payload = spec_response_bytes(m);
    assert(spec_frame(payload).subrange(8, spec_frame(payload).len() as int) =~= payload);
}

/// A fresh demonstration reading for the thermometer emulator, timestamped
/// now and marked online.
pub fn demo_thermometer_reading() -> (t: ThermometerData)
    ensures
        1800 <= t.temp_centi <= 2500,
        t.is_online,
{
    ThermometerData { temp_centi: demo_temp_centi(), timestamp: now_millis(), is_online: true }
}

/// The one datagram the thermometer emulator pushes per interval: a frame
/// whose payload encodes a successful response carrying the reading.
pub fn make_push_frame(reading: ThermometerData) -> (datagram: Vec<u8>)
    ensures
        datagram@ == spec_frame(
            spec_response_bytes(
                ResponseModel {
                    data: Some(DeviceData::Thermometer(reading)),
                    success: true,
                    error: None,
                },
            ),
        ),
{
    let resp = DeviceResponse {
        data: Some(DeviceData::Thermometer(reading)),
        success: true,
        error: None,
    };
    make_frame(&resp.encode())
}

} // verus!
