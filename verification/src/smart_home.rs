//! A home: a named collection of rooms.

use vstd::prelude::*;

use crate::smart_device::SmartDeviceType;
use crate::smart_room::SmartRoom;

verus! {

/// A home and the rooms in it.
pub struct SmartHome {
    name: String,
    rooms: Vec<SmartRoom>,
}

impl SmartHome {
    /// The home's name.
    pub closed spec fn spec_name(&self) -> Seq<char> {
        self.name@
    }

    /// The rooms of the home, in insertion order.
    pub closed spec fn spec_rooms(&self) -> Seq<SmartRoom> {
        self.rooms@
    }

    /// A home with the given rooms.
    pub fn new(name: String, rooms: Vec<SmartRoom>) -> (h: SmartHome)
        ensures
            h.spec_name() == name@,
            h.spec_rooms() == rooms@,
    {
        SmartHome { name, rooms }
    }

    /// The room at an index.
    pub fn get_room(&self, index: usize) -> (r: &SmartRoom)
        requires
            index < self.spec_rooms().len(),
        ensures
            *r == self.spec_rooms()[index as int],
    {
        &self.rooms[index]
    }

    /// The room at an index, for mutation.
    pub fn get_room_mut(&mut self, index: usize) -> (r: &mut SmartRoom)
        requires
            index < old(self).spec_rooms().len(),
        ensures
            *r == old(self).spec_rooms()[index as int],
            final(self).spec_name() == old(self).spec_name(),
            final(self).spec_rooms() == old(self).spec_rooms().update(index as int, *final(r)),
    {
        &mut self.rooms[index]
    }

    /// Add a room at the end of the home's store.
    pub fn add_room(&mut self, room: SmartRoom)
        ensures
            final(self).spec_name() == old(self).spec_name(),
            final(self).spec_rooms() == old(self).spec_rooms().push(room),
    {
        self.rooms.push(room);
    }

    /// The home's room store.
    pub fn get_rooms(&self) -> (r: &Vec<SmartRoom>)
        ensures
            r@ == self.spec_rooms(),
    {
        &self.rooms
    }

    /// The home's room store, for mutation.
    pub fn get_rooms_mut(&mut self) -> (r: &mut Vec<SmartRoom>)
        ensures
            (*r)@ == old(self).spec_rooms(),
            final(self).spec_name() == old(self).spec_name(),
            final(self).spec_rooms() == final(r)@,
    {
        &mut self.rooms
    }
}

/// How one device looks after every socket was switched off: a socket keeps
/// its name, draw and connection but is off; a thermometer is untouched.
pub open spec fn spec_socket_off(before: SmartDeviceType, after: SmartDeviceType) -> bool {
    match before {
        SmartDeviceType::Socket(s) => match after {
            SmartDeviceType::Socket(s2) => {
                &&& s2.spec_name() == s.spec_name()
                &&& s2.spec_power_centi() == s.spec_power_centi()
                &&& s2.spec_connection() == s.spec_connection()
                &&& !s2.spec_is_on()
            },
            SmartDeviceType::Thermometer(_) => false,
        },
        SmartDeviceType::Thermometer(_) => after == before,
    }
}

/// How one room looks after every socket in it was switched off.
pub open spec fn spec_room_sockets_off(before: SmartRoom, after: SmartRoom) -> bool {
    &&& after.spec_name() == before.spec_name()
    &&& after.spec_devices().len() == before.spec_devices().len()
    &&& forall|j: int|
        0 <= j < before.spec_devices().len() ==> spec_socket_off(
            before.spec_devices()[j],
            #[trigger] after.spec_devices()[j],
        )
}

/// Switch every socket in the home off, leaving everything else as it was.
pub fn turn_off_all_sockets(home: &mut SmartHome)
    ensures
        final(home).spec_name() == old(home).spec_name(),
        final(home).spec_rooms().len() == old(home).spec_rooms().len(),
        forall|i: int|
            0 <= i < old(home).spec_rooms().len() ==> spec_room_sockets_off(
                old(home).spec_rooms()[i],
                #[trigger] final(home).spec_rooms()[i],
            ),
{
    let rooms = home.get_rooms_mut();
    let room_count = rooms.len();
    let mut i: usize = 0;
    while i < room_count
        invariant
            room_count == rooms@.len(),
            i <= room_count,
            rooms@.len() == old(home).spec_rooms().len(),
            forall|k: int|
                i <= k < room_count ==> #[trigger] rooms@[k] == old(home).spec_rooms()[k],
            forall|k: int|
                0 <= k < i ==> spec_room_sockets_off(
                    old(home).spec_rooms()[k],
                    #[trigger] rooms@[k],
                ),
        decreases room_count - i,
    {
        let room = &mut rooms[i];
        let ghost room_before = *room;
        let devices = room.get_devices_mut();
        let device_count = devices.len();
        let mut j: usize = 0;
        while j < device_count
            invariant
                device_count == devices@.len(),
                j <= device_count,
                devices@.len() == room_before.spec_devices().len(),
                forall|k: int|
                    j <= k < device_count ==> #[trigger] devices@[k]
                        == room_before.spec_devices()[k],
                forall|k: int|
                    0 <= k < j ==> spec_socket_off(
                        room_before.spec_devices()[k],
                        #[trigger] devices@[k],
                    ),
            decreases device_count - j,
        {
            let device = &mut devices[j];
            match device {
                SmartDeviceType::Socket(s) => {
                    s.turn_off();
                },
                SmartDeviceType::Thermometer(_) => {},
            }
            j = j + 1;
        }
        i = i + 1;
    }
}

} // verus!
