//! The error taxonomy of the connectivity layer and of the home model.
//!
//! `ConnectError` is the only error a caller of `connect` ever sees; it is
//! returned synchronously when dialing or binding fails.  Everything that
//! happens later inside a monitoring task — transport failures, frames that
//! do not decode, failures reported by the peer — is transient: it is logged
//! by the task and the loop continues, so those kinds never reach callers.

use vstd::prelude::*;

verus! {

use vstd::string::StringExecFns;

/// The code and message of one home-model error.
pub struct ErrorInfo {
    pub code: String,
    pub message: String,
}

/// Errors of the home model's lookups.
pub enum SmartHomeErrors {
    RoomNotFound(ErrorInfo),
    DeviceNotFound(ErrorInfo),
}

impl SmartHomeErrors {
    /// The error for a room that is not in the home.
    pub fn room_not_found(name: &str) -> (e: SmartHomeErrors)
        ensures
            e matches SmartHomeErrors::RoomNotFound(info) && info.code@ == "1001"@ && info.message@
                == "Комната \""@ + name@ + "\" не найдена"@,
    {
        let mut message = String::from_str("Комната \"");
        message.append(name);
        message.append("\" не найдена");
        proof {
            assert(message@ =~= "Комната \""@ + name@ + "\" не найдена"@);
        }
        SmartHomeErrors::RoomNotFound(ErrorInfo { code: String::from_str("1001"), message })
    }

    /// The error for a device that is not in the room.
    pub fn device_not_found(name: &str) -> (e: SmartHomeErrors)
        ensures
            e matches SmartHomeErrors::DeviceNotFound(info) && info.code@ == "1002"@
                && info.message@ == "Устройство '"@ + name@ + "' не найдено"@,
    {
        let mut message = String::from_str("Устройство '");
        message.append(name);
        message.append("' не найдено");
        proof {
            assert(message@ =~= "Устройство '"@ + name@ + "' не найдено"@);
        }
        SmartHomeErrors::DeviceNotFound(ErrorInfo { code: String::from_str("1002"), message })
    }

    /// The error's code and message as one line of text.
    pub fn to_text(&self) -> (r: String)
        ensures
            ({
                let info = match self {
                    SmartHomeErrors::RoomNotFound(info) => info,
                    SmartHomeErrors::DeviceNotFound(info) => info,
                };
                r@ == "ERR["@ + info.code@ + "]: "@ + info.message@
            }),
    {
        let info = match self {
            SmartHomeErrors::RoomNotFound(info) => info,
            SmartHomeErrors::DeviceNotFound(info) => info,
        };
        let mut out = String::from_str("ERR[");
        out.append(info.code.as_str());
        out.append("]: ");
        out.append(info.message.as_str());
        proof {
            assert(out@ =~= "ERR["@ + info.code@ + "]: "@ + info.message@);
            assert(out@ == "ERR["@ + info.code@ + "]: "@ + info.message@);
        }
        out
    }
}

/// A payload that does not parse into the tagged-union shape.
#[derive(Clone, Copy, Debug, PartialEq, Eq, Structural)]
pub enum ProtocolError {
    Malformed,
}

/// Failure of the synchronous connection step, surfaced to the caller of
/// `connect`.  No monitoring task exists when one of these is returned.
#[derive(Clone, Debug, PartialEq, Eq)]
pub enum ConnectError {
    /// The device was built without connection options.
    NoConnectionOptions,
    /// Dialing the remote TCP address failed; the text is the dial error.
    Unreachable(String),
    /// Binding the local UDP address failed; the text is the bind error.
    BindFailed(String),
}

/// A transient failure inside a monitoring task.  Never surfaced to callers:
/// the task logs it and keeps its loop running.
#[derive(Clone, Debug, PartialEq, Eq)]
pub enum MonitorError {
    /// A transport read or write failed, or timed out.
    Io(String),
    /// A frame was received but its payload did not decode.
    Protocol(ProtocolError),
    /// The peer answered with `success == false`; the text is its message.
    Remote(String),
}

} // verus!
