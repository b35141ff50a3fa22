//! A room: a named collection of devices.

use vstd::prelude::*;

use crate::smart_device::SmartDeviceType;
use crate::smart_socket::SmartSocket;
use crate::smart_thermometer::SmartThermometer;
use crate::Report;

verus! {

use vstd::string::StringExecFns;

use crate::text::{dec_to_string, spec_dec_text};

/// A room and the devices in it.
pub struct SmartRoom {
    name: String,
    devices: Vec<SmartDeviceType>,
}

impl SmartRoom {
    /// The room's name.
    pub closed spec fn spec_name(&self) -> Seq<char> {
        self.name@
    }

    /// The devices in the room, in insertion order.
    pub closed spec fn spec_devices(&self) -> Seq<SmartDeviceType> {
        self.devices@
    }

    /// A room with the given devices.
    pub fn new(name: String, devices: Vec<SmartDeviceType>) -> (r: SmartRoom)
        ensures
            r.spec_name() == name@,
            r.spec_devices() == devices@,
    {
        SmartRoom { name, devices }
    }

    /// The device at an index.
    pub fn get_device(&self, index: usize) -> (d: &SmartDeviceType)
        requires
            index < self.spec_devices().len(),
        ensures
            *d == self.spec_devices()[index as int],
    {
        &self.devices[index]
    }

    /// The device at an index, for mutation.
    pub fn get_device_mut(&mut self, index: usize) -> (d: &mut SmartDeviceType)
        requires
            index < old(self).spec_devices().len(),
        ensures
            *d == old(self).spec_devices()[index as int],
            final(self).spec_name() == old(self).spec_name(),
            final(self).spec_devices() == old(self).spec_devices().update(
                index as int,
                *final(d),
            ),
    {
        &mut self.devices[index]
    }

    /// The room's device store.
    pub fn get_devices(&self) -> (d: &Vec<SmartDeviceType>)
        ensures
            d@ == self.spec_devices(),
    {
        &self.devices
    }

    /// The room's device store, for mutation.
    pub fn get_devices_mut(&mut self) -> (d: &mut Vec<SmartDeviceType>)
        ensures
            (*d)@ == old(self).spec_devices(),
            final(self).spec_name() == old(self).spec_name(),
            final(self).spec_devices() == final(d)@,
    {
        &mut self.devices
    }

    /// The lines of the room's status report: a header, then one numbered
    /// line per device with that device's own status line after the number.
    pub fn status_report_lines(&self, indent_size: u8) -> (lines: Vec<String>)
        ensures
            lines@.len() == 1 + self.spec_devices().len(),
            forall|k: int|
                0 <= k < self.spec_devices().len() ==> spec_report_line_ok(
                    #[trigger] self.spec_devices()[k],
                    lines@[k + 1]@,
                    indent_size as nat,
                    k,
                ),
    {
        let indent = make_indent(indent_size);
        let mut lines: Vec<String> = Vec::new();
        let mut header = String::from_str(indent.as_str());
        header.append("== Отчет по комнате \"");
        header.append(self.name.as_str());
        header.append("\" ==");
        lines.push(header);
        let mut i: usize = 0;
        while i < self.devices.len()
            invariant
                i <= self.devices@.len(),
                lines@.len() == 1 + i,
                indent@ == spec_indent(indent_size as nat),
                forall|k: int|
                    0 <= k < i ==> spec_report_line_ok(
                        #[trigger] self.spec_devices()[k],
                        lines@[k + 1]@,
                        indent_size as nat,
                        k,
                    ),
            decreases self.devices@.len() - i,
        {
            let device_report = self.devices[i].get_status_report();
            let mut line = String::from_str(indent.as_str());
            line.append(indent.as_str());
            line.append(dec_to_string((i as u64) + 1).as_str());
            line.append(": ");
            line.append(device_report.as_str());
            lines.push(line);
            proof {
                let prefix = spec_indent(indent_size as nat) + spec_indent(indent_size as nat)
                    + spec_dec_text((i + 1) as nat) + ": "@;
                let t = device_report@;
                assert(line@ == prefix + t);
                assert((prefix + t).subrange(0, prefix.len() as int) =~= prefix);
                assert((prefix + t).skip(prefix.len() as int) =~= t);
                assert(spec_report_line_ok(
                    self.spec_devices()[i as int],
                    lines@[i + 1]@,
                    indent_size as nat,
                    i as int,
                ));
            }
            i = i + 1;
        }
        lines
    }
}

/// A run of spaces.
pub open spec fn spec_indent(n: nat) -> Seq<char> {
    Seq::new(n, |i: int| ' ')
}

/// The shape of one device line in a room report: twice the indent, the
/// one-based device number and a separator, then a valid status line of the
/// device itself.
pub open spec fn spec_report_line_ok(
    device: SmartDeviceType,
    line: Seq<char>,
    indent: nat,
    k: int,
) -> bool {
    let prefix = spec_indent(indent) + spec_indent(indent) + spec_dec_text((k + 1) as nat) + ": "@;
    &&& prefix.is_prefix_of(line)
    &&& device.report_matches(line.skip(prefix.len() as int))
}

fn make_indent(n: u8) -> (r: String)
    ensures
        r@ == spec_indent(n as nat),
{
    let mut out = String::new();
    let mut i: u8 = 0;
    while i < n
        invariant
            i <= n,
            out@ == spec_indent(i as nat),
        decreases n - i,
    {
        out.append(" ");
        i = i + 1;
        proof {
            reveal_strlit(" ");
            assert(out@ =~= spec_indent(i as nat));
        }
    }
    out
}

/// Adding a device of some concrete kind to a room.
pub trait AddDevice<T> {
    /// The device, as the room will hold it.
    spec fn spec_wrapped(device: T) -> SmartDeviceType;

    /// Add the device at the end of the room's store.
    fn add_device(&mut self, device: T);
}

impl AddDevice<SmartSocket> for SmartRoom {
    open spec fn spec_wrapped(device: SmartSocket) -> SmartDeviceType {
        SmartDeviceType::Socket(device)
    }

    fn add_device(&mut self, device: SmartSocket)
        ensures
            final(self).spec_name() == old(self).spec_name(),
            final(self).spec_devices() == old(self).spec_devices().push(
                SmartDeviceType::Socket(device),
            ),
    {
        self.devices.push(SmartDeviceType::Socket(device));
    }
}

impl AddDevice<SmartThermometer> for SmartRoom {
    open spec fn spec_wrapped(device: SmartThermometer) -> SmartDeviceType {
        SmartDeviceType::Thermometer(device)
    }

    fn add_device(&mut self, device: SmartThermometer)
        ensures
            final(self).spec_name() == old(self).spec_name(),
            final(self).spec_devices() == old(self).spec_devices().push(
                SmartDeviceType::Thermometer(device),
            ),
    {
        self.devices.push(SmartDeviceType::Thermometer(device));
    }
}

} // verus!
