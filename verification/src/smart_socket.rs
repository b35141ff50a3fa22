//! The socket device: a named switch with a configured power draw, plus the
//! shared snapshot cell its monitoring task keeps current.

use vstd::prelude::*;

use crate::contracts::{DeviceData, SocketData};
use crate::online::ConnectionType;
use crate::state::SharedState;
use crate::Report;

verus! {

use vstd::string::StringExecFns;

use crate::smart_device::OnOff;
use crate::text::{centi_to_string, spec_centi_text};

/// A smart socket.  `power_centi` is its configured draw in hundredths of a
/// watt; the shared cell holds the last snapshot pushed by its remote peer.
pub struct SmartSocket {
    name: String,
    power_centi: u64,
    is_on: OnOff,
    value: SharedState,
    connection: Option<ConnectionType>,
}

impl SmartSocket {
    /// The device's name.
    pub closed spec fn spec_name(&self) -> Seq<char> {
        self.name@
    }

    /// The configured power draw, in hundredths of a watt.
    pub closed spec fn spec_power_centi(&self) -> u64 {
        self.power_centi
    }

    /// Whether the switch is on.
    pub closed spec fn spec_is_on(&self) -> bool {
        self.is_on is On
    }

    /// The connection the device was built with.
    pub closed spec fn spec_connection(&self) -> Option<ConnectionType> {
        self.connection
    }

    #[verifier::type_invariant]
    closed spec fn wf(&self) -> bool {
        self.value.holds_socket()
    }

    /// A socket with no remote peer.
    pub fn new(name: String, power_centi: u64, is_on: OnOff) -> (s: SmartSocket)
        ensures
            s.spec_name() == name@,
            s.spec_power_centi() == power_centi,
            s.spec_is_on() == (is_on is On),
            s.spec_connection() is None,
    {
        let initial = DeviceData::Socket(
            SocketData {
                power_centi,
                is_on: matches!(is_on, OnOff::On),
                timestamp: 0,
                is_online: false,
            },
        );
        SmartSocket { name, power_centi, is_on, value: SharedState::new(initial), connection: None }
    }

    /// A socket backed by a remote emulator at the given connection.
    pub fn new_with_connection(
        name: String,
        power_centi: u64,
        is_on: OnOff,
        connection: ConnectionType,
    ) -> (s: SmartSocket)
        ensures
            s.spec_name() == name@,
            s.spec_power_centi() == power_centi,
            s.spec_is_on() == (is_on is On),
            s.spec_connection() == Some(connection),
    {
        let initial = DeviceData::Socket(
            SocketData {
                power_centi,
                is_on: matches!(is_on, OnOff::On),
                timestamp: 0,
                is_online: false,
            },
        );
        SmartSocket {
            name,
            power_centi,
            is_on,
            value: SharedState::new(initial),
            connection: Some(connection),
        }
    }

    /// Switch the socket on.
    pub fn turn_on(&mut self)
        ensures
            final(self).spec_is_on(),
            final(self).spec_name() == old(self).spec_name(),
            final(self).spec_power_centi() == old(self).spec_power_centi(),
            final(self).spec_connection() == old(self).spec_connection(),
    {
        proof {
            use_type_invariant(&*self);
        }
        self.is_on = OnOff::On;
    }

    /// Switch the socket off.
    pub fn turn_off(&mut self)
        ensures
            !final(self).spec_is_on(),
            final(self).spec_name() == old(self).spec_name(),
            final(self).spec_power_centi() == old(self).spec_power_centi(),
            final(self).spec_connection() == old(self).spec_connection(),
    {
        proof {
            use_type_invariant(&*self);
        }
        self.is_on = OnOff::Off;
    }

    /// Whether the switch is on.
    pub fn is_on(&self) -> (r: bool)
        ensures
            r == self.spec_is_on(),
    {
        matches!(self.is_on, OnOff::On)
    }

    /// The power the socket draws: its configured draw while on, zero while
    /// off.
    pub fn get_power(&self) -> (r: u64)
        ensures
            r == if self.spec_is_on() {
                self.spec_power_centi()
            } else {
                0u64
            },
    {
        match self.is_on {
            OnOff::On => self.power_centi,
            OnOff::Off => 0,
        }
    }

    /// The device's name.
    pub fn get_name(&self) -> (r: &String)
        ensures
            r@ == self.spec_name(),
    {
        &self.name
    }

    /// The connection the device was built with.
    pub fn get_connection(&self) -> (r: Option<&ConnectionType>)
        ensures
            match r {
                Some(c) => self.spec_connection() == Some(*c),
                None => self.spec_connection() is None,
            },
    {
        self.connection.as_ref()
    }

    /// The shared cell this device's monitoring task writes.
    pub fn state_cell(&self) -> (c: &SharedState)
        ensures
            c.holds_socket(),
    {
        proof {
            use_type_invariant(self);
        }
        &self.value
    }

    /// The last snapshot pushed by the remote peer.
    pub fn get_data(&self) -> (d: SocketData) {
        proof {
            use_type_invariant(self);
        }
        self.value.read_snapshot().as_socket()
    }
}

/// The status line of a socket: its name, then its on/off state and, while
/// on, the configured power draw.
pub open spec fn spec_socket_report(name: Seq<char>, power_centi: u64, is_on: bool) -> Seq<char> {
    if is_on {
        name + ": Вкл, "@ + spec_centi_text(power_centi as nat) + " Вт"@
    } else {
        name + ": Выкл"@
    }
}

impl Report for SmartSocket {
    open spec fn report_matches(&self, text: Seq<char>) -> bool {
        text == spec_socket_report(self.spec_name(), self.spec_power_centi(), self.spec_is_on())
    }

    fn get_status_report(&self) -> (r: String) {
        let mut out = String::from_str(self.name.as_str());
        match self.is_on {
            OnOff::On => {
                out.append(": Вкл, ");
                out.append(centi_to_string(self.power_centi).as_str());
                out.append(" Вт");
                assert(out@ =~= spec_socket_report(
                    self.spec_name(),
                    self.spec_power_centi(),
                    self.spec_is_on(),
                ));
            },
            OnOff::Off => {
                out.append(": Выкл");
                assert(out@ =~= spec_socket_report(
                    self.spec_name(),
                    self.spec_power_centi(),
                    self.spec_is_on(),
                ));
            },
        }
        proof {
            assert(out@ == spec_socket_report(
                self.spec_name(),
                self.spec_power_centi(),
                self.spec_is_on(),
            ));
            assert(self.report_matches(out@));
        }
        out
    }
}

} // verus!
