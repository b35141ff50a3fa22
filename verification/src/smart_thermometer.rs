//! The thermometer device: a named sensor whose readings arrive as pushed
//! telemetry and live in its shared snapshot cell.

use vstd::prelude::*;

use crate::clock::now_millis;
use crate::contracts::{DeviceData, ThermometerData};
use crate::online::ConnectionType;
use crate::state::SharedState;
use crate::Report;

verus! {

use vstd::string::StringExecFns;

use crate::text::{centi_signed_to_string, spec_centi_text_signed};

impl ThermometerData {
    /// A fresh reading, timestamped now, not yet reported online.
    pub fn new(temp_centi: i64) -> (t: ThermometerData)
        ensures
            t.temp_centi == temp_centi,
            !t.is_online,
    {
        ThermometerData { temp_centi, timestamp: now_millis(), is_online: false }
    }
}

/// A smart thermometer.  Its latest reading, in hundredths of a degree,
/// lives in the shared cell; the monitoring task is the cell's only writer.
pub struct SmartThermometer {
    name: String,
    value: SharedState,
    connection: Option<ConnectionType>,
}

impl SmartThermometer {
    /// The device's name.
    pub closed spec fn spec_name(&self) -> Seq<char> {
        self.name@
    }

    /// The connection the device was built with.
    pub closed spec fn spec_connection(&self) -> Option<ConnectionType> {
        self.connection
    }

    #[verifier::type_invariant]
    closed spec fn wf(&self) -> bool {
        !self.value.holds_socket()
    }

    /// A thermometer with no remote peer, starting from the given reading.
    pub fn new(name: String, temp_centi: i64) -> (t: SmartThermometer)
        ensures
            t.spec_name() == name@,
            t.spec_connection() is None,
    {
        let initial = DeviceData::Thermometer(ThermometerData::new(temp_centi));
        SmartThermometer { name, value: SharedState::new(initial), connection: None }
    }

    /// A thermometer fed by a remote emulator through the given connection.
    pub fn new_with_connection(name: String, temp_centi: i64, connection: ConnectionType) -> (t:
        SmartThermometer)
        ensures
            t.spec_name() == name@,
            t.spec_connection() == Some(connection),
    {
        let initial = DeviceData::Thermometer(ThermometerData::new(temp_centi));
        SmartThermometer { name, value: SharedState::new(initial), connection: Some(connection) }
    }

    /// The latest reading, in hundredths of a degree.
    pub fn get_temp(&self) -> i64 {
        self.read_data().temp_centi
    }

    /// Overwrite the reading by hand, timestamped now.
    pub fn set_temp(&self, temp_centi: i64) {
        proof {
            use_type_invariant(self);
        }
        let current = self.read_data();
        let updated = ThermometerData {
            temp_centi,
            timestamp: now_millis(),
            is_online: current.is_online,
        };
        self.value.store(DeviceData::Thermometer(updated));
    }

    /// The latest snapshot.
    pub fn get_data(&self) -> (d: DeviceData)
        ensures
            d is Thermometer,
    {
        proof {
            use_type_invariant(self);
        }
        self.value.read_snapshot()
    }

    /// Replace the snapshot with one pushed by the peer; thermometers only
    /// ever hold thermometer snapshots.
    pub fn update(&self, data: DeviceData)
        requires
            data is Thermometer,
    {
        proof {
            use_type_invariant(self);
        }
        self.value.store(data);
    }

    /// The device's name.
    pub fn get_name(&self) -> (r: &String)
        ensures
            r@ == self.spec_name(),
    {
        &self.name
    }

    /// The connection the device was built with.
    pub fn get_connection(&self) -> (r: Option<&ConnectionType>)
        ensures
            match r {
                Some(c) => self.spec_connection() == Some(*c),
                None => self.spec_connection() is None,
            },
    {
        self.connection.as_ref()
    }

    /// The shared cell this device's monitoring task writes.
    pub fn state_cell(&self) -> (c: &SharedState)
        ensures
            !c.holds_socket(),
    {
        proof {
            use_type_invariant(self);
        }
        &self.value
    }

    fn read_data(&self) -> (t: ThermometerData) {
        proof {
            use_type_invariant(self);
        }
        self.value.read_snapshot().as_thermometer()
    }
}

/// The status line of a thermometer: its name, then a reading in degrees.
pub open spec fn spec_thermometer_report(name: Seq<char>, temp_centi: i64) -> Seq<char> {
    name + ": "@ + spec_centi_text_signed(temp_centi as int) + " C°"@
}

impl Report for SmartThermometer {
    open spec fn report_matches(&self, text: Seq<char>) -> bool {
        exists|temp_centi: i64| text == spec_thermometer_report(self.spec_name(), temp_centi)
    }

    fn get_status_report(&self) -> (r: String) {
        let temp_centi = self.get_temp();
        let mut out = String::from_str(self.name.as_str());
        out.append(": ");
        out.append(centi_signed_to_string(temp_centi).as_str());
        out.append(" C°");
        proof {
            assert(out@ =~= spec_thermometer_report(self.spec_name(), temp_centi));
            assert(out@ == spec_thermometer_report(self.spec_name(), temp_centi));
            assert(self.report_matches(out@));
        }
        out
    }
}

} // verus!
