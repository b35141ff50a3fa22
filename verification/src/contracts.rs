//! The tagged-union payload carried inside a response frame: a device
//! snapshot, a success flag, and an optional error text.
//!
//! The encoding is deterministic, versionless and self-describing: one byte
//! per option tag and per variant tag, fixed-width big-endian integers, and
//! the error text as an 8-byte length followed by its UTF-8 bytes.  Power and
//! temperature travel as fixed-point values in hundredths of a unit.
//! Decoding is exact: it accepts a byte string if and only if it is the
//! encoding of a well-formed response, so the two directions invert each
//! other.

use vstd::prelude::*;

use crate::errors::ProtocolError;
use crate::wire::{
    push_u64_be, read_u64_be, spec_u64_from_be_bytes, spec_u64_to_be_bytes,
    lemma_u64_be_bytes_round_trip, lemma_u64_be_bytes_canonical,
};

verus! {

use vstd::utf8::{encode_utf8, decode_utf8, valid_utf8};
use vstd::string::StringSliceAdditionalSpecFns;

/// Latest known state of a socket device, as pushed by its peer.  `power_centi`
/// is the drawn power in hundredths of a watt; it holds the raw remote value
/// even while `is_on` is false — deriving the effective power is left to the
/// presentation layer.
#[derive(Clone, Copy, Debug, PartialEq, Eq, Structural)]
pub struct SocketData {
    pub power_centi: u64,
    pub is_on: bool,
    pub timestamp: u64,
    pub is_online: bool,
}

/// Latest known state of a thermometer device.  `temp_centi` is the
/// temperature in hundredths of a degree and may be negative.
#[derive(Clone, Copy, Debug, PartialEq, Eq, Structural)]
pub struct ThermometerData {
    pub temp_centi: i64,
    pub timestamp: u64,
    pub is_online: bool,
}

/// One device snapshot, of either kind.
#[derive(Clone, Copy, Debug, PartialEq, Eq, Structural)]
pub enum DeviceData {
    Socket(SocketData),
    Thermometer(ThermometerData),
}

impl DeviceData {
    /// Replace the snapshot wholesale.
    pub fn update(&mut self, data: DeviceData)
        ensures
            *final(self) == data,
    {
        *self = data;
    }

    /// The socket snapshot held inside; only for values known to be sockets.
    pub fn as_socket(&self) -> (s: SocketData)
        requires
            self is Socket,
        ensures
            *self == DeviceData::Socket(s),
    {
        match self {
            DeviceData::Socket(s) => *s,
            DeviceData::Thermometer(_) => unreached(),
        }
    }

    /// The thermometer snapshot held inside; only for values known to be
    /// thermometers.
    pub fn as_thermometer(self) -> (t: ThermometerData)
        requires
            self is Thermometer,
        ensures
            self == DeviceData::Thermometer(t),
    {
        match self {
            DeviceData::Thermometer(t) => t,
            DeviceData::Socket(_) => unreached(),
        }
    }
}

/// The closed set of commands a socket peer understands.  On the wire a
/// command is its integer code as 4 big-endian bytes, with no length prefix.
#[derive(Clone, Copy, Debug, PartialEq, Eq, Structural)]
pub enum Commands {
    Unknown,
    TurnOn,
    TurnOff,
    GetStatus,
}

/// The command an integer code denotes: 1, 2 and 3 name the real commands;
/// every other value, negative ones included, denotes `Unknown`.
pub open spec fn spec_command_of(value: i32) -> Commands {
    if value == 1 {
        Commands::TurnOn
    } else if value == 2 {
        Commands::TurnOff
    } else if value == 3 {
        Commands::GetStatus
    } else {
        Commands::Unknown
    }
}

impl Commands {
    /// The integer code the command is sent as.
    pub open spec fn spec_code(self) -> i32 {
        match self {
            Commands::Unknown => 0,
            Commands::TurnOn => 1,
            Commands::TurnOff => 2,
            Commands::GetStatus => 3,
        }
    }

    /// The integer code the command is sent as.
    pub fn code(self) -> (c: i32)
        ensures
            c == self.spec_code(),
    {
        match self {
            Commands::Unknown => 0,
            Commands::TurnOn => 1,
            Commands::TurnOff => 2,
            Commands::GetStatus => 3,
        }
    }
}

impl core::convert::From<i32> for Commands {
    /// The command a received code denotes.
    fn from(value: i32) -> (r: Commands) {
        if value == 1 {
            Commands::TurnOn
        } else if value == 2 {
            Commands::TurnOff
        } else if value == 3 {
            Commands::GetStatus
        } else {
            Commands::Unknown
        }
    }
}

impl vstd::std_specs::convert::FromSpecImpl<i32> for Commands {
    open spec fn obeys_from_spec() -> bool {
        true
    }

    open spec fn from_spec(value: i32) -> Commands {
        spec_command_of(value)
    }
}

/// The 4 request bytes that carry a command.
pub open spec fn spec_request_bytes(cmd: Commands) -> Seq<u8> {
    crate::wire::spec_u32_to_be_bytes(cmd.spec_code() as u32)
}

/// Encode a command as the 4 request bytes: its code, big-endian.
pub fn request_bytes(cmd: Commands) -> (r: Vec<u8>)
    ensures
        r@ == spec_request_bytes(cmd),
{
    let mut out: Vec<u8> = Vec::new();
    let code = cmd.code();
    crate::wire::push_u32_be(&mut out, code as u32);
    out
}

/// Read the command carried by 4 request bytes.
pub fn command_from_bytes(b: &[u8]) -> (c: Commands)
    requires
        b@.len() == 4,
    ensures
        c == spec_command_of_wire(b@),
{
    let value = crate::wire::read_u32_be(b, 0);
    proof {
        assert(b@.subrange(0, 4) =~= b@);
    }
    if value == 1 {
        Commands::TurnOn
    } else if value == 2 {
        Commands::TurnOff
    } else if value == 3 {
        Commands::GetStatus
    } else {
        Commands::Unknown
    }
}

/// The command denoted by 4 wire bytes.
pub open spec fn spec_command_of_wire(b: Seq<u8>) -> Commands
    recommends
        b.len() == 4,
{
    let value = crate::wire::spec_u32_from_be_bytes(b);
    if value == 1 {
        Commands::TurnOn
    } else if value == 2 {
        Commands::TurnOff
    } else if value == 3 {
        Commands::GetStatus
    } else {
        Commands::Unknown
    }
}

/// Command mapping, over the wire: the 4 bytes carrying any integer code
/// decode to the command that code denotes — `TurnOn`, `TurnOff` and
/// `GetStatus` for 1, 2 and 3, and `Unknown` for everything else.
pub proof fn lemma_command_wire_mapping(value: i32)
    ensures
        spec_command_of_wire(crate::wire::spec_u32_to_be_bytes(value as u32)) == spec_command_of(
            value,
        ),
{
    crate::wire::lemma_u32_be_bytes_round_trip(value as u32);
    assert((value as u32 == 1u32) == (value == 1i32) && (value as u32 == 2u32) == (value == 2i32)
        && (value as u32 == 3u32) == (value == 3i32)) by (bit_vector);
}

/// Sending a command and reading it back yields the command again, for the
/// whole command set.
pub proof fn lemma_command_round_trip(cmd: Commands)
    ensures
        spec_command_of_wire(spec_request_bytes(cmd)) == cmd,
{
    lemma_command_wire_mapping(cmd.spec_code());
}

/// What one response means, with the error text abstracted to its characters.
pub struct ResponseModel {
    pub data: Option<DeviceData>,
    pub success: bool,
    pub error: Option<Seq<char>>,
}

impl ResponseModel {
    /// The invariant of a response: a failure always carries an error text,
    /// and a snapshot is only ever carried by a success.  The error text's
    /// UTF-8 form must fit the 8-byte length field.
    pub open spec fn wf(self) -> bool {
        &&& !self.success ==> self.error is Some
        &&& self.data is Some ==> self.success
        &&& match self.error {
            Some(e) => encode_utf8(e).len() <= u64::MAX,
            None => true,
        }
    }
}

/// One decoded response from a device peer.
#[derive(Clone, Debug, PartialEq, Eq)]
pub struct DeviceResponse {
    pub data: Option<DeviceData>,
    pub success: bool,
    pub error: Option<String>,
}

impl View for DeviceResponse {
    type V = ResponseModel;

    open spec fn view(&self) -> ResponseModel {
        ResponseModel {
            data: self.data,
            success: self.success,
            error: match self.error {
                Some(e) => Some(e@),
                None => None,
            },
        }
    }
}

impl DeviceResponse {
    /// The response invariant, on the value itself.
    pub open spec fn wf(self) -> bool {
        self@.wf()
    }
}

/// The byte a boolean takes on the wire.
pub open spec fn spec_bool_byte(b: bool) -> u8 {
    if b {
        1u8
    } else {
        0u8
    }
}

/// A signed value on the wire: a sign byte (1 for negative), then the
/// magnitude big-endian, with a negative value's magnitude stored as is.
pub open spec fn spec_i64_bytes(v: i64) -> Seq<u8> {
    if v >= 0 {
        seq![0u8] + spec_u64_to_be_bytes(v as u64)
    } else {
        seq![1u8] + spec_u64_to_be_bytes((-(v as int)) as u64)
    }
}

/// The wire form of a socket snapshot.
pub open spec fn spec_socket_bytes(s: SocketData) -> Seq<u8> {
    spec_u64_to_be_bytes(s.power_centi) + seq![spec_bool_byte(s.is_on)] + spec_u64_to_be_bytes(
        s.timestamp,
    ) + seq![spec_bool_byte(s.is_online)]
}

/// The wire form of a thermometer snapshot.
pub open spec fn spec_thermometer_bytes(t: ThermometerData) -> Seq<u8> {
    spec_i64_bytes(t.temp_centi) + spec_u64_to_be_bytes(t.timestamp) + seq![spec_bool_byte(
        t.is_online,
    )]
}

/// The wire form of a snapshot: a variant tag, then the variant's fields.
pub open spec fn spec_data_bytes(d: DeviceData) -> Seq<u8> {
    match d {
        DeviceData::Socket(s) => seq![0u8] + spec_socket_bytes(s),
        DeviceData::Thermometer(t) => seq![1u8] + spec_thermometer_bytes(t),
    }
}

/// The leading part of a response: its optional snapshot.
pub open spec fn spec_data_part(data: Option<DeviceData>) -> Seq<u8> {
    match data {
        None => seq![0u8],
        Some(d) => seq![1u8] + spec_data_bytes(d),
    }
}

/// The trailing part of a response: its optional error text, as an 8-byte
/// length followed by the text's UTF-8 bytes.
pub open spec fn spec_error_part(error: Option<Seq<char>>) -> Seq<u8> {
    match error {
        None => seq![0u8],
        Some(e) => seq![1u8] + spec_u64_to_be_bytes(encode_utf8(e).len() as u64) + encode_utf8(e),
    }
}

/// The wire form of a whole response: the optional snapshot, the success
/// byte, then the optional error text.
pub open spec fn spec_response_bytes(m: ResponseModel) -> Seq<u8> {
    spec_data_part(m.data) + seq![spec_bool_byte(m.success)] + spec_error_part(m.error)
}

/// Parse one boolean byte at `i`: only `0` and `1` are accepted.
pub open spec fn spec_parse_bool(b: Seq<u8>, i: int) -> Option<(bool, int)> {
    if 0 <= i < b.len() {
        if b[i] == 0u8 {
            Some((false, i + 1))
        } else if b[i] == 1u8 {
            Some((true, i + 1))
        } else {
            None
        }
    } else {
        None
    }
}

/// Parse a big-endian `u64` at `i`.
pub open spec fn spec_parse_u64(b: Seq<u8>, i: int) -> Option<(u64, int)> {
    if 0 <= i && i + 8 <= b.len() {
        Some((spec_u64_from_be_bytes(b.subrange(i, i + 8)), i + 8))
    } else {
        None
    }
}

/// Parse a signed value at `i`: a sign byte then the magnitude, with the
/// magnitude of a non-negative value bounded by `i64::MAX` and that of a
/// negative value in `1 ..= 2^63`, so every value has exactly one form.
pub open spec fn spec_parse_i64(b: Seq<u8>, i: int) -> Option<(i64, int)> {
    if 0 <= i < b.len() {
        match spec_parse_u64(b, i + 1) {
            Some((magnitude, j)) => if b[i] == 0u8 {
                if magnitude <= i64::MAX {
                    Some((magnitude as i64, j))
                } else {
                    None
                }
            } else if b[i] == 1u8 {
                if 1 <= magnitude <= 0x8000_0000_0000_0000u64 {
                    Some(((-(magnitude as int)) as i64, j))
                } else {
                    None
                }
            } else {
                None
            },
            None => None,
        }
    } else {
        None
    }
}

/// Parse a socket snapshot's fields at `i`.
pub open spec fn spec_parse_socket(b: Seq<u8>, i: int) -> Option<(SocketData, int)> {
    match spec_parse_u64(b, i) {
        Some((power_centi, i1)) => match spec_parse_bool(b, i1) {
            Some((is_on, i2)) => match spec_parse_u64(b, i2) {
                Some((timestamp, i3)) => match spec_parse_bool(b, i3) {
                    Some((is_online, i4)) => Some(
                        (SocketData { power_centi, is_on, timestamp, is_online }, i4),
                    ),
                    None => None,
                },
                None => None,
            },
            None => None,
        },
        None => None,
    }
}

/// Parse a thermometer snapshot's fields at `i`.
pub open spec fn spec_parse_thermometer(b: Seq<u8>, i: int) -> Option<(ThermometerData, int)> {
    match spec_parse_i64(b, i) {
        Some((temp_centi, i1)) => match spec_parse_u64(b, i1) {
            Some((timestamp, i2)) => match spec_parse_bool(b, i2) {
                Some((is_online, i3)) => Some(
                    (ThermometerData { temp_centi, timestamp, is_online }, i3),
                ),
                None => None,
            },
            None => None,
        },
        None => None,
    }
}

/// Parse the optional snapshot at `i`: an option tag, then a variant tag and
/// the variant's fields.
pub open spec fn spec_parse_data_part(b: Seq<u8>, i: int) -> Option<(Option<DeviceData>, int)> {
    if 0 <= i < b.len() {
        if b[i] == 0u8 {
            Some((None, i + 1))
        } else if b[i] == 1u8 {
            if i + 1 < b.len() {
                if b[i + 1] == 0u8 {
                    match spec_parse_socket(b, i + 2) {
                        Some((s, j)) => Some((Some(DeviceData::Socket(s)), j)),
                        None => None,
                    }
                } else if b[i + 1] == 1u8 {
                    match spec_parse_thermometer(b, i + 2) {
                        Some((t, j)) => Some((Some(DeviceData::Thermometer(t)), j)),
                        None => None,
                    }
                } else {
                    None
                }
            } else {
                None
            }
        } else {
            None
        }
    } else {
        None
    }
}

/// Parse the optional error text at `i`: an option tag, then a byte length
/// and that many bytes, which must be valid UTF-8.
pub open spec fn spec_parse_error_part(b: Seq<u8>, i: int) -> Option<(Option<Seq<char>>, int)> {
    if 0 <= i < b.len() {
        if b[i] == 0u8 {
            Some((None, i + 1))
        } else if b[i] == 1u8 {
            match spec_parse_u64(b, i + 1) {
                Some((len, j)) => if j + len <= b.len() {
                    if valid_utf8(b.subrange(j, j + len)) {
                        Some((Some(decode_utf8(b.subrange(j, j + len))), j + len))
                    } else {
                        None
                    }
                } else {
                    None
                },
                None => None,
            }
        } else {
            None
        }
    } else {
        None
    }
}

/// Decode a whole payload: the three parts in order, consuming every byte,
/// with the response invariant enforced.
pub open spec fn spec_decode_response(b: Seq<u8>) -> Option<ResponseModel> {
    match spec_parse_data_part(b, 0) {
        Some((data, i)) => match spec_parse_bool(b, i) {
            Some((success, j)) => match spec_parse_error_part(b, j) {
                Some((error, k)) => if k == b.len() && (success || error is Some) && (
                data is Some ==> success) {
                    Some(ResponseModel { data, success, error })
                } else {
                    None
                },
                None => None,
            },
            None => None,
        },
        None => None,
    }
}

proof fn lemma_piece_subrange(b: Seq<u8>, i: int, piece: Seq<u8>, lo: int, hi: int)
    requires
        0 <= i,
        i + piece.len() <= b.len(),
        b.subrange(i, i + piece.len()) == piece,
        0 <= lo <= hi <= piece.len(),
    ensures
        b.subrange(i + lo, i + hi) == piece.subrange(lo, hi),
{
    assert forall|k: int| 0 <= k < hi - lo implies b.subrange(i + lo, i + hi)[k] == piece.subrange(
        lo,
        hi,
    )[k] by {
        assert(b.subrange(i, i + piece.len())[lo + k] == piece[lo + k]);
    }
    assert(b.subrange(i + lo, i + hi) =~= piece.subrange(lo, hi));
}

proof fn lemma_piece_byte(b: Seq<u8>, i: int, piece: Seq<u8>, k: int)
    requires
        0 <= i,
        i + piece.len() <= b.len(),
        b.subrange(i, i + piece.len()) == piece,
        0 <= k < piece.len(),
    ensures
        b[i + k] == piece[k],
{
    assert(b.subrange(i, i + piece.len())[k] == piece[k]);
}

proof fn lemma_parse_bool_at(b: Seq<u8>, i: int, v: bool)
    requires
        0 <= i < b.len(),
        b[i] == spec_bool_byte(v),
    ensures
        spec_parse_bool(b, i) == Some((v, i + 1)),
{
}

proof fn lemma_parse_u64_at(b: Seq<u8>, i: int, x: u64)
    requires
        0 <= i,
        i + 8 <= b.len(),
        b.subrange(i, i + 8) == spec_u64_to_be_bytes(x),
    ensures
        spec_parse_u64(b, i) == Some((x, i + 8)),
{
    lemma_u64_be_bytes_round_trip(x);
}

proof fn lemma_parse_i64_at(b: Seq<u8>, i: int, v: i64)
    requires
        0 <= i,
        i + 9 <= b.len(),
        b.subrange(i, i + 9) == spec_i64_bytes(v),
    ensures
        spec_parse_i64(b, i) == Some((v, i + 9)),
{
    let piece = spec_i64_bytes(v);
    lemma_piece_byte(b, i, piece, 0);
    lemma_piece_subrange(b, i, piece, 1, 9);
    if v >= 0 {
        assert(piece.subrange(1, 9) =~= spec_u64_to_be_bytes(v as u64));
        lemma_parse_u64_at(b, i + 1, v as u64);
    } else {
        let magnitude = (-(v as int)) as u64;
        assert(piece.subrange(1, 9) =~= spec_u64_to_be_bytes(magnitude));
        lemma_parse_u64_at(b, i + 1, magnitude);
        assert(1 <= magnitude <= 0x8000_0000_0000_0000u64);
        assert((-(magnitude as int)) as i64 == v);
    }
}

proof fn lemma_parse_socket_at(b: Seq<u8>, i: int, s: SocketData)
    requires
        0 <= i,
        i + 18 <= b.len(),
        b.subrange(i, i + 18) == spec_socket_bytes(s),
    ensures
        spec_parse_socket(b, i) == Some((s, i + 18)),
{
    let piece = spec_socket_bytes(s);
    lemma_piece_subrange(b, i, piece, 0, 8);
    assert(piece.subrange(0, 8) =~= spec_u64_to_be_bytes(s.power_centi));
    lemma_parse_u64_at(b, i, s.power_centi);
    lemma_piece_byte(b, i, piece, 8);
    lemma_parse_bool_at(b, i + 8, s.is_on);
    lemma_piece_subrange(b, i, piece, 9, 17);
    assert(piece.subrange(9, 17) =~= spec_u64_to_be_bytes(s.timestamp));
    lemma_parse_u64_at(b, i + 9, s.timestamp);
    lemma_piece_byte(b, i, piece, 17);
    lemma_parse_bool_at(b, i + 17, s.is_online);
}

proof fn lemma_parse_thermometer_at(b: Seq<u8>, i: int, t: ThermometerData)
    requires
        0 <= i,
        i + 18 <= b.len(),
        b.subrange(i, i + 18) == spec_thermometer_bytes(t),
    ensures
        spec_parse_thermometer(b, i) == Some((t, i + 18)),
{
    let piece = spec_thermometer_bytes(t);
    lemma_piece_subrange(b, i, piece, 0, 9);
    assert(piece.subrange(0, 9) =~= spec_i64_bytes(t.temp_centi));
    lemma_parse_i64_at(b, i, t.temp_centi);
    lemma_piece_subrange(b, i, piece, 9, 17);
    assert(piece.subrange(9, 17) =~= spec_u64_to_be_bytes(t.timestamp));
    lemma_parse_u64_at(b, i + 9, t.timestamp);
    lemma_piece_byte(b, i, piece, 17);
    lemma_parse_bool_at(b, i + 17, t.is_online);
}

proof fn lemma_parse_data_part_at(b: Seq<u8>, i: int, data: Option<DeviceData>)
    requires
        0 <= i,
        i + spec_data_part(data).len() <= b.len(),
        b.subrange(i, i + spec_data_part(data).len()) == spec_data_part(data),
    ensures
        spec_parse_data_part(b, i) == Some((data, i + spec_data_part(data).len())),
{
    let piece = spec_data_part(data);
    lemma_piece_byte(b, i, piece, 0);
    match data {
        None => {
            assert(b[i] == 0u8);
        },
        Some(d) => {
            assert(b[i] == 1u8);
            lemma_piece_byte(b, i, piece, 1);
            lemma_piece_subrange(b, i, piece, 2, 20);
            match d {
                DeviceData::Socket(s) => {
                    assert(piece.subrange(2, 20) =~= spec_socket_bytes(s));
                    lemma_parse_socket_at(b, i + 2, s);
                },
                DeviceData::Thermometer(t) => {
                    assert(piece.subrange(2, 20) =~= spec_thermometer_bytes(t));
                    lemma_parse_thermometer_at(b, i + 2, t);
                },
            }
        },
    }
}

proof fn lemma_parse_error_part_at(b: Seq<u8>, i: int, error: Option<Seq<char>>)
    requires
        0 <= i,
        i + spec_error_part(error).len() <= b.len(),
        b.subrange(i, i + spec_error_part(error).len()) == spec_error_part(error),
        match error {
            Some(e) => encode_utf8(e).len() <= u64::MAX,
            None => true,
        },
    ensures
        spec_parse_error_part(b, i) == Some((error, i + spec_error_part(error).len())),
{
    let piece = spec_error_part(error);
    lemma_piece_byte(b, i, piece, 0);
    match error {
        None => {
            assert(b[i] == 0u8);
        },
        Some(e) => {
            let bytes = encode_utf8(e);
            let n = bytes.len() as int;
            assert(piece.len() == 9 + n);
            assert(b[i] == 1u8);
            lemma_piece_subrange(b, i, piece, 1, 9);
            assert(piece.subrange(1, 9) =~= spec_u64_to_be_bytes(bytes.len() as u64));
            lemma_parse_u64_at(b, i + 1, bytes.len() as u64);
            lemma_piece_subrange(b, i, piece, 9, 9 + n);
            assert(piece.subrange(9, 9 + n) =~= bytes);
            broadcast use vstd::utf8::encode_utf8_valid_utf8, vstd::utf8::encode_utf8_decode_utf8;

            assert(valid_utf8(b.subrange(i + 9, i + 9 + n)));
            assert(decode_utf8(b.subrange(i + 9, i + 9 + n)) == e);
        },
    }
}

/// Round trip: every well-formed response decodes back from its own
/// encoding.  This holds for both snapshot variants, with and without a
/// snapshot, and for success and failure responses alike.
pub proof fn lemma_response_round_trip(m: ResponseModel)
    requires
        m.wf(),
    ensures
        spec_decode_response(spec_response_bytes(m)) == Some(m),
{
    let b = spec_response_bytes(m);
    let dlen = spec_data_part(m.data).len() as int;
    let elen = spec_error_part(m.error).len() as int;
    assert(b.len() == dlen + 1 + elen);
    assert(b.subrange(0, dlen) =~= spec_data_part(m.data));
    lemma_parse_data_part_at(b, 0, m.data);
    assert(b[dlen] == spec_bool_byte(m.success));
    lemma_parse_bool_at(b, dlen, m.success);
    assert(b.subrange(dlen + 1, dlen + 1 + elen) =~= spec_error_part(m.error));
    lemma_parse_error_part_at(b, dlen + 1, m.error);
}

proof fn lemma_parse_bool_canonical(b: Seq<u8>, i: int, v: bool, j: int)
    requires
        spec_parse_bool(b, i) == Some((v, j)),
    ensures
        j == i + 1,
        0 <= i < b.len(),
        b[i] == spec_bool_byte(v),
{
}

proof fn lemma_parse_u64_canonical(b: Seq<u8>, i: int, x: u64, j: int)
    requires
        spec_parse_u64(b, i) == Some((x, j)),
    ensures
        j == i + 8,
        0 <= i && i + 8 <= b.len(),
        b.subrange(i, i + 8) == spec_u64_to_be_bytes(x),
{
    lemma_u64_be_bytes_canonical(b.subrange(i, i + 8));
}

proof fn lemma_parse_i64_canonical(b: Seq<u8>, i: int, v: i64, j: int)
    requires
        spec_parse_i64(b, i) == Some((v, j)),
    ensures
        j == i + 9,
        0 <= i && i + 9 <= b.len(),
        b.subrange(i, i + 9) == spec_i64_bytes(v),
{
    let (magnitude, _) = spec_parse_u64(b, i + 1)->Some_0;
    lemma_parse_u64_canonical(b, i + 1, magnitude, i + 9);
    if b[i] == 0u8 {
        assert(v == magnitude as i64 && v >= 0);
        assert(v as u64 == magnitude);
    } else {
        assert(v == (-(magnitude as int)) as i64 && v < 0);
        assert((-(v as int)) as u64 == magnitude);
    }
    assert(b.subrange(i, i + 9) =~= spec_i64_bytes(v));
}

proof fn lemma_parse_socket_canonical(b: Seq<u8>, i: int, s: SocketData, j: int)
    requires
        spec_parse_socket(b, i) == Some((s, j)),
    ensures
        j == i + 18,
        0 <= i && i + 18 <= b.len(),
        b.subrange(i, i + 18) == spec_socket_bytes(s),
{
    lemma_parse_u64_canonical(b, i, s.power_centi, i + 8);
    lemma_parse_bool_canonical(b, i + 8, s.is_on, i + 9);
    lemma_parse_u64_canonical(b, i + 9, s.timestamp, i + 17);
    lemma_parse_bool_canonical(b, i + 17, s.is_online, i + 18);
    assert(b.subrange(i, i + 18) =~= spec_socket_bytes(s));
}

proof fn lemma_parse_thermometer_canonical(b: Seq<u8>, i: int, t: ThermometerData, j: int)
    requires
        spec_parse_thermometer(b, i) == Some((t, j)),
    ensures
        j == i + 18,
        0 <= i && i + 18 <= b.len(),
        b.subrange(i, i + 18) == spec_thermometer_bytes(t),
{
    lemma_parse_i64_canonical(b, i, t.temp_centi, i + 9);
    lemma_parse_u64_canonical(b, i + 9, t.timestamp, i + 17);
    lemma_parse_bool_canonical(b, i + 17, t.is_online, i + 18);
    assert(b.subrange(i, i + 18) =~= spec_thermometer_bytes(t));
}

proof fn lemma_parse_data_part_canonical(b: Seq<u8>, i: int, data: Option<DeviceData>, j: int)
    requires
        spec_parse_data_part(b, i) == Some((data, j)),
    ensures
        j == i + spec_data_part(data).len(),
        0 <= i && i + spec_data_part(data).len() <= b.len(),
        b.subrange(i, j) == spec_data_part(data),
{
    match data {
        None => {
            assert(b.subrange(i, j) =~= spec_data_part(data));
        },
        Some(d) => {
            match d {
                DeviceData::Socket(s) => {
                    lemma_parse_socket_canonical(b, i + 2, s, j);
                },
                DeviceData::Thermometer(t) => {
                    lemma_parse_thermometer_canonical(b, i + 2, t, j);
                },
            }
            assert(b.subrange(i, j) =~= spec_data_part(data));
        },
    }
}

proof fn lemma_parse_error_part_canonical(b: Seq<u8>, i: int, error: Option<Seq<char>>, j: int)
    requires
        spec_parse_error_part(b, i) == Some((error, j)),
    ensures
        j == i + spec_error_part(error).len(),
        0 <= i && i + spec_error_part(error).len() <= b.len(),
        b.subrange(i, j) == spec_error_part(error),
        match error {
            Some(e) => encode_utf8(e).len() <= u64::MAX,
            None => true,
        },
{
    match error {
        None => {
            assert(b.subrange(i, j) =~= spec_error_part(error));
        },
        Some(e) => {
            let (len, k) = spec_parse_u64(b, i + 1)->Some_0;
            lemma_parse_u64_canonical(b, i + 1, len, k);
            let text_bytes = b.subrange(k, k + len);
            vstd::utf8::decode_utf8_encode_utf8(text_bytes);
            assert(encode_utf8(e) == text_bytes);
            assert(b.subrange(i, j) =~= spec_error_part(error));
        },
    }
}

/// Canonicity: the decoder accepts a byte string only if it is exactly the
/// encoding of the well-formed response it returns.  Together with
/// [`lemma_response_round_trip`] this makes the codec a bijection between
/// well-formed responses and their wire payloads.
pub proof fn lemma_response_codec_canonical(b: Seq<u8>, m: ResponseModel)
    requires
        spec_decode_response(b) == Some(m),
    ensures
        m.wf(),
        spec_response_bytes(m) == b,
{
    let (data, i) = spec_parse_data_part(b, 0)->Some_0;
    let (success, j) = spec_parse_bool(b, i)->Some_0;
    let (error, k) = spec_parse_error_part(b, j)->Some_0;
    lemma_parse_data_part_canonical(b, 0, data, i);
    lemma_parse_bool_canonical(b, i, success, j);
    lemma_parse_error_part_canonical(b, j, error, k);
    assert(spec_response_bytes(m) =~= b);
}

fn push_bool(out: &mut Vec<u8>, b: bool)
    ensures
        final(out)@ == old(out)@ + seq![spec_bool_byte(b)],
{
    if b {
        out.push(1u8);
    } else {
        out.push(0u8);
    }
}

fn push_i64(out: &mut Vec<u8>, v: i64)
    ensures
        final(out)@ == old(out)@ + spec_i64_bytes(v),
{
    if v >= 0 {
        out.push(0u8);
        push_u64_be(out, v as u64);
    } else {
        out.push(1u8);
        let magnitude: u64 = ((-(v + 1)) as u64) + 1;
        assert(magnitude == (-(v as int)) as u64);
        push_u64_be(out, magnitude);
    }
    assert(final(out)@ =~= old(out)@ + spec_i64_bytes(v));
}

/// Relies on std's str::from_utf8: it accepts exactly the byte strings that
/// are valid UTF-8 and yields the characters they encode.
#[verifier::external_body]
fn utf8_to_string(bytes: &[u8]) -> (r: Option<String>)
    ensures
        r is Some <==> valid_utf8(bytes@),
        match r {
            Some(s) => s@ == decode_utf8(bytes@),
            None => true,
        },
{
    match std::str::from_utf8(bytes) {
        Ok(s) => Some(s.to_string()),
        Err(_) => None,
    }
}

fn parse_bool(b: &[u8], i: usize) -> (r: Option<(bool, usize)>)
    ensures
        match r {
            Some(v) => spec_parse_bool(b@, i as int) == Some((v.0, v.1 as int)),
            None => spec_parse_bool(b@, i as int) is None,
        },
{
    if i < b.len() {
        let byte = b[i];
        if byte == 0 {
            Some((false, i + 1))
        } else if byte == 1 {
            Some((true, i + 1))
        } else {
            None
        }
    } else {
        None
    }
}

fn parse_u64(b: &[u8], i: usize) -> (r: Option<(u64, usize)>)
    ensures
        match r {
            Some(v) => spec_parse_u64(b@, i as int) == Some((v.0, v.1 as int)),
            None => spec_parse_u64(b@, i as int) is None,
        },
{
    if b.len() >= 8 && i <= b.len() - 8 {
        let x = read_u64_be(b, i);
        Some((x, i + 8))
    } else {
        None
    }
}

fn parse_i64(b: &[u8], i: usize) -> (r: Option<(i64, usize)>)
    ensures
        match r {
            Some(v) => spec_parse_i64(b@, i as int) == Some((v.0, v.1 as int)),
            None => spec_parse_i64(b@, i as int) is None,
        },
{
    if i >= b.len() {
        return None;
    }
    let sign = b[i];
    if sign > 1 {
        return None;
    }
    match parse_u64(b, i + 1) {
        None => None,
        Some((magnitude, j)) => {
            if sign == 0 {
                if magnitude <= i64::MAX as u64 {
                    Some((magnitude as i64, j))
                } else {
                    None
                }
            } else {
                if 1 <= magnitude && magnitude <= 0x8000_0000_0000_0000u64 {
                    let v: i64 = if magnitude == 0x8000_0000_0000_0000u64 {
                        i64::MIN
                    } else {
                        -(magnitude as i64)
                    };
                    assert(v == (-(magnitude as int)) as i64);
                    Some((v, j))
                } else {
                    None
                }
            }
        },
    }
}

fn parse_socket(b: &[u8], i: usize) -> (r: Option<(SocketData, usize)>)
    ensures
        match r {
            Some(v) => spec_parse_socket(b@, i as int) == Some((v.0, v.1 as int)),
            None => spec_parse_socket(b@, i as int) is None,
        },
{
    match parse_u64(b, i) {
        None => None,
        Some((power_centi, i1)) => match parse_bool(b, i1) {
            None => None,
            Some((is_on, i2)) => match parse_u64(b, i2) {
                None => None,
                Some((timestamp, i3)) => match parse_bool(b, i3) {
                    None => None,
                    Some((is_online, i4)) => Some(
                        (SocketData { power_centi, is_on, timestamp, is_online }, i4),
                    ),
                },
            },
        },
    }
}

fn parse_thermometer(b: &[u8], i: usize) -> (r: Option<(ThermometerData, usize)>)
    ensures
        match r {
            Some(v) => spec_parse_thermometer(b@, i as int) == Some((v.0, v.1 as int)),
            None => spec_parse_thermometer(b@, i as int) is None,
        },
{
    match parse_i64(b, i) {
        None => None,
        Some((temp_centi, i1)) => match parse_u64(b, i1) {
            None => None,
            Some((timestamp, i2)) => match parse_bool(b, i2) {
                None => None,
                Some((is_online, i3)) => Some(
                    (ThermometerData { temp_centi, timestamp, is_online }, i3),
                ),
            },
        },
    }
}

fn parse_data_part(b: &[u8], i: usize) -> (r: Option<(Option<DeviceData>, usize)>)
    ensures
        match r {
            Some(v) => spec_parse_data_part(b@, i as int) == Some((v.0, v.1 as int)),
            None => spec_parse_data_part(b@, i as int) is None,
        },
{
    if i >= b.len() {
        return None;
    }
    let tag = b[i];
    if tag == 0 {
        Some((None, i + 1))
    } else if tag == 1 {
        if i + 1 < b.len() {
            let variant = b[i + 1];
            if variant == 0 {
                match parse_socket(b, i + 2) {
                    Some((s, j)) => Some((Some(DeviceData::Socket(s)), j)),
                    None => None,
                }
            } else if variant == 1 {
                match parse_thermometer(b, i + 2) {
                    Some((t, j)) => Some((Some(DeviceData::Thermometer(t)), j)),
                    None => None,
                }
            } else {
                None
            }
        } else {
            None
        }
    } else {
        None
    }
}

/// The characters of an optional error text.
pub open spec fn spec_opt_text(e: Option<String>) -> Option<Seq<char>> {
    match e {
        Some(s) => Some(s@),
        None => None,
    }
}

fn parse_error_part(b: &[u8], i: usize) -> (r: Option<(Option<String>, usize)>)
    ensures
        match r {
            Some(v) => spec_parse_error_part(b@, i as int) == Some((spec_opt_text(v.0), v.1 as int)),
            None => spec_parse_error_part(b@, i as int) is None,
        },
{
    if i >= b.len() {
        return None;
    }
    let tag = b[i];
    if tag == 0 {
        Some((None, i + 1))
    } else if tag == 1 {
        match parse_u64(b, i + 1) {
            None => None,
            Some((len, j)) => {
                if len <= (b.len() - j) as u64 {
                    let n = len as usize;
                    let text_bytes = vstd::slice::slice_subrange(b, j, j + n);
                    match utf8_to_string(text_bytes) {
                        Some(s) => Some((Some(s), j + n)),
                        None => None,
                    }
                } else {
                    None
                }
            },
        }
    } else {
        None
    }
}

impl DeviceResponse {
    /// Decode a wire payload.  Exact in both directions: on success the
    /// returned response is well-formed and re-encodes to the given bytes;
    /// on failure no well-formed response at all encodes to them.
    pub fn decode(bytes: &[u8]) -> (r: Result<DeviceResponse, ProtocolError>)
        ensures
            match r {
                Ok(resp) => {
                    &&& resp.wf()
                    &&& spec_response_bytes(resp@) == bytes@
                    &&& spec_decode_response(bytes@) == Some(resp@)
                },
                Err(e) => {
                    &&& e == ProtocolError::Malformed
                    &&& spec_decode_response(bytes@) is None
                    &&& forall|m: ResponseModel| m.wf() ==> spec_response_bytes(m) != bytes@
                },
            },
    {
        let parsed = Self::decode_parts(bytes);
        match parsed {
            Some(resp) => {
                proof {
                    lemma_response_codec_canonical(bytes@, resp@);
                }
                Ok(resp)
            },
            None => {
                proof {
                    assert forall|m: ResponseModel| m.wf() implies spec_response_bytes(m)
                        != bytes@ by {
                        if spec_response_bytes(m) == bytes@ {
                            lemma_response_round_trip(m);
                        }
                    }
                }
                Err(ProtocolError::Malformed)
            },
        }
    }

    fn decode_parts(bytes: &[u8]) -> (r: Option<DeviceResponse>)
        ensures
            match r {
                Some(resp) => spec_decode_response(bytes@) == Some(resp@),
                None => spec_decode_response(bytes@) is None,
            },
    {
        match parse_data_part(bytes, 0) {
            None => None,
            Some((data, i)) => match parse_bool(bytes, i) {
                None => None,
                Some((success, j)) => match parse_error_part(bytes, j) {
                    None => None,
                    Some((error, k)) => {
                        if k == bytes.len() && (success || error.is_some()) && (data.is_none()
                            || success) {
                            Some(DeviceResponse { data, success, error })
                        } else {
                            None
                        }
                    },
                },
            },
        }
    }

    /// Encode the response into its wire payload.
    pub fn encode(&self) -> (r: Vec<u8>)
        ensures
            r@ == spec_response_bytes(self@),
    {
        let mut out: Vec<u8> = Vec::new();
        match &self.data {
            None => {
                out.push(0u8);
                assert(out@ =~= spec_data_part(self@.data));
            },
            Some(d) => {
                out.push(1u8);
                match d {
                    DeviceData::Socket(s) => {
                        out.push(0u8);
                        push_u64_be(&mut out, s.power_centi);
                        push_bool(&mut out, s.is_on);
                        push_u64_be(&mut out, s.timestamp);
                        push_bool(&mut out, s.is_online);
                        assert(out@ =~= spec_data_part(self@.data));
                    },
                    DeviceData::Thermometer(t) => {
                        out.push(1u8);
                        push_i64(&mut out, t.temp_centi);
                        push_u64_be(&mut out, t.timestamp);
                        push_bool(&mut out, t.is_online);
                        assert(out@ =~= spec_data_part(self@.data));
                    },
                }
            },
        }
        push_bool(&mut out, self.success);
        let ghost head = spec_data_part(self@.data) + seq![spec_bool_byte(self@.success)];
        assert(out@ =~= head);
        match &self.error {
            None => {
                out.push(0u8);
                assert(out@ =~= head + spec_error_part(self@.error));
            },
            Some(e) => {
                out.push(1u8);
                let bytes = e.as_str().as_bytes();
                push_u64_be(&mut out, bytes.len() as u64);
                out.extend_from_slice(bytes);
                assert(out@ =~= head + spec_error_part(self@.error));
            },
        }
        assert(out@ =~= spec_response_bytes(self@));
        out
    }
}

} // verus!

