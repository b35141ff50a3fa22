//! The device taxonomy: a device is a socket or a thermometer.

use vstd::prelude::*;

use crate::online::ConnectionType;
use crate::smart_socket::SmartSocket;
use crate::smart_thermometer::SmartThermometer;
use crate::state::SharedState;
use crate::Report;

verus! {

use crate::smart_socket::spec_socket_report;
use crate::smart_thermometer::spec_thermometer_report;

/// Whether a switchable device is on or off.
#[derive(Clone, Copy, Debug, PartialEq, Eq, Structural)]
pub enum OnOff {
    On,
    Off,
}

/// A device of either kind.
pub enum SmartDeviceType {
    Thermometer(SmartThermometer),
    Socket(SmartSocket),
}

/// What every device offers: a name.
pub trait SmartDevice {
    /// The device's name.
    spec fn spec_name(&self) -> Seq<char>;

    /// The device's name.
    fn get_name(&self) -> (r: &String)
        ensures
            r@ == self.spec_name(),
    ;
}

impl SmartDevice for SmartDeviceType {
    open spec fn spec_name(&self) -> Seq<char> {
        match self {
            SmartDeviceType::Thermometer(t) => t.spec_name(),
            SmartDeviceType::Socket(s) => s.spec_name(),
        }
    }

    fn get_name(&self) -> (r: &String) {
        match self {
            SmartDeviceType::Thermometer(t) => t.get_name(),
            SmartDeviceType::Socket(s) => s.get_name(),
        }
    }
}

impl SmartDeviceType {
    /// The connection the device was built with.
    pub open spec fn spec_connection(&self) -> Option<ConnectionType> {
        match self {
            SmartDeviceType::Thermometer(t) => t.spec_connection(),
            SmartDeviceType::Socket(s) => s.spec_connection(),
        }
    }

    /// The connection the device was built with.
    pub fn get_connection(&self) -> (r: Option<&ConnectionType>)
        ensures
            match r {
                Some(c) => self.spec_connection() == Some(*c),
                None => self.spec_connection() is None,
            },
    {
        match self {
            SmartDeviceType::Thermometer(t) => t.get_connection(),
            SmartDeviceType::Socket(s) => s.get_connection(),
        }
    }

    /// The device's shared snapshot cell: the one its monitoring task writes
    /// and `read_snapshot` reads.  A socket's cell holds socket snapshots, a
    /// thermometer's holds thermometer snapshots.
    pub fn state_cell(&self) -> (c: &SharedState)
        ensures
            c.holds_socket() == (self is Socket),
    {
        match self {
            SmartDeviceType::Thermometer(t) => t.state_cell(),
            SmartDeviceType::Socket(s) => s.state_cell(),
        }
    }
}

impl Report for SmartDeviceType {
    open spec fn report_matches(&self, text: Seq<char>) -> bool {
        match self {
            SmartDeviceType::Thermometer(t) => exists|temp_centi: i64|
                text == spec_thermometer_report(t.spec_name(), temp_centi),
            SmartDeviceType::Socket(s) => text == spec_socket_report(
                s.spec_name(),
                s.spec_power_centi(),
                s.spec_is_on(),
            ),
        }
    }

    fn get_status_report(&self) -> (r: String) {
        match self {
            SmartDeviceType::Thermometer(t) => t.get_status_report(),
            SmartDeviceType::Socket(s) => s.get_status_report(),
        }
    }
}

} // verus!
