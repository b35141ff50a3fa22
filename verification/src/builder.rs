//! Builders that assemble a home room by room and device by device.

use vstd::prelude::*;

use crate::smart_device::SmartDeviceType;
use crate::smart_home::SmartHome;
use crate::smart_room::SmartRoom;

verus! {

use vstd::string::StringExecFns;

/// Collects finished rooms for the home being built.
pub struct HomeBuilder {
    rooms: Vec<SmartRoom>,
}

impl HomeBuilder {
    /// The rooms finished so far.
    pub closed spec fn spec_rooms(&self) -> Seq<SmartRoom> {
        self.rooms@
    }

    /// A builder with no rooms yet.
    pub fn new() -> (b: HomeBuilder)
        ensures
            b.spec_rooms() == Seq::<SmartRoom>::empty(),
    {
        HomeBuilder { rooms: Vec::new() }
    }

    /// Start building a room with the given name.
    pub fn add_room(self, room_name: String) -> (b: RoomBuilder)
        ensures
            b.spec_home_rooms() == self.spec_rooms(),
            b.spec_name() == room_name@,
            b.spec_devices() == Seq::<SmartDeviceType>::empty(),
    {
        RoomBuilder::new(self, room_name)
    }
}

/// Builds one room while remembering the home built so far.
pub struct RoomBuilder {
    name: String,
    devices: Vec<SmartDeviceType>,
    home_builder: HomeBuilder,
}

impl RoomBuilder {
    /// The rooms already finished before this one.
    pub closed spec fn spec_home_rooms(&self) -> Seq<SmartRoom> {
        self.home_builder.rooms@
    }

    /// The name of the room being built.
    pub closed spec fn spec_name(&self) -> Seq<char> {
        self.name@
    }

    /// The devices of the room being built, in insertion order.
    pub closed spec fn spec_devices(&self) -> Seq<SmartDeviceType> {
        self.devices@
    }

    /// Start a room with the given name inside a home being built.
    pub fn new(home_builder: HomeBuilder, name: String) -> (b: RoomBuilder)
        ensures
            b.spec_home_rooms() == home_builder.spec_rooms(),
            b.spec_name() == name@,
            b.spec_devices() == Seq::<SmartDeviceType>::empty(),
    {
        RoomBuilder { name, devices: Vec::new(), home_builder }
    }

    /// Finish this room and start the next one.
    pub fn add_room(self, room_name: String) -> (b: RoomBuilder)
        ensures
            b.spec_home_rooms().len() == self.spec_home_rooms().len() + 1,
            b.spec_home_rooms().take(self.spec_home_rooms().len() as int)
                == self.spec_home_rooms(),
            b.spec_home_rooms().last().spec_name() == self.spec_name(),
            b.spec_home_rooms().last().spec_devices() == self.spec_devices(),
            b.spec_name() == room_name@,
            b.spec_devices() == Seq::<SmartDeviceType>::empty(),
    {
        let RoomBuilder { name, devices, mut home_builder } = self;
        let room = SmartRoom::new(name, devices);
        home_builder.rooms.push(room);
        proof {
            assert(home_builder.rooms@.take(home_builder.rooms@.len() - 1) =~= self.spec_home_rooms());
        }
        home_builder.add_room(room_name)
    }

    /// Add one device to the room being built.
    pub fn add_device(self, device: SmartDeviceType) -> (b: RoomBuilder)
        ensures
            b.spec_home_rooms() == self.spec_home_rooms(),
            b.spec_name() == self.spec_name(),
            b.spec_devices() == self.spec_devices().push(device),
    {
        let RoomBuilder { name, mut devices, home_builder } = self;
        devices.push(device);
        RoomBuilder { name, devices, home_builder }
    }

    /// Finish the last room and the home.  The home carries every finished
    /// room, this one at the end.
    pub fn build(self) -> (home: SmartHome)
        ensures
            home.spec_name() == "Дом"@,
            home.spec_rooms().len() == self.spec_home_rooms().len() + 1,
            home.spec_rooms().take(self.spec_home_rooms().len() as int) == self.spec_home_rooms(),
            home.spec_rooms().last().spec_name() == self.spec_name(),
            home.spec_rooms().last().spec_devices() == self.spec_devices(),
    {
        let RoomBuilder { name, devices, mut home_builder } = self;
        let room = SmartRoom::new(name, devices);
        home_builder.rooms.push(room);
        proof {
            assert(home_builder.rooms@.take(home_builder.rooms@.len() - 1) =~= self.spec_home_rooms());
        }
        SmartHome::new(String::from_str("Дом"), home_builder.rooms)
    }
}

} // verus!
