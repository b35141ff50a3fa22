//! The shared snapshot cell of one device.
//!
//! Ownership is shared between the device handle, which only reads, and the
//! device's monitoring task, which is the sole writer.  A reader–writer lock
//! guards the cell, so any number of concurrent readers observe a complete,
//! consistent snapshot — never a torn one — while the writer replaces it
//! wholesale.  The cell's invariant is that every value it ever holds is a
//! snapshot of the device's own kind.

use vstd::prelude::*;

use crate::contracts::DeviceData;

verus! {

use vstd::rwlock::RwLock;

/// The invariant of a cell: it holds socket snapshots or thermometer
/// snapshots, fixed when the device is constructed.
pub open spec fn cell_pred(kind_socket: bool) -> spec_fn(DeviceData) -> bool {
    |v: DeviceData| (v is Socket <==> kind_socket)
}

/// One device's shared snapshot cell.
pub struct SharedState {
    lock: RwLock<DeviceData, spec_fn(DeviceData) -> bool>,
    kind_socket: bool,
}

impl SharedState {
    /// Whether this cell belongs to a socket device (else a thermometer).
    pub closed spec fn holds_socket(&self) -> bool {
        self.kind_socket
    }

    #[verifier::type_invariant]
    closed spec fn wf(&self) -> bool {
        self.lock.pred() == cell_pred(self.kind_socket)
    }

    /// Whether a snapshot may be stored in this cell.
    pub open spec fn accepts(&self, d: DeviceData) -> bool {
        (d is Socket) <==> self.holds_socket()
    }

    /// Create the cell with an initial snapshot; the cell keeps that
    /// snapshot's kind for its whole life.
    pub fn new(initial: DeviceData) -> (s: SharedState)
        ensures
            s.holds_socket() == (initial is Socket),
    {
        let kind_socket = match initial {
            DeviceData::Socket(_) => true,
            DeviceData::Thermometer(_) => false,
        };
        let lock = RwLock::new(initial, Ghost(cell_pred(kind_socket)));
        SharedState { lock, kind_socket }
    }

    /// Whether this cell belongs to a socket device (else a thermometer).
    pub fn is_socket_cell(&self) -> (r: bool)
        ensures
            r == self.holds_socket(),
    {
        self.kind_socket
    }

    /// Read the latest snapshot.  Never blocks on other readers, never
    /// fails, and may return stale data; the value is always one complete
    /// snapshot of the device's own kind.
    pub fn read_snapshot(&self) -> (d: DeviceData)
        ensures
            self.accepts(d),
    {
        proof {
            use_type_invariant(self);
        }
        let handle = self.lock.acquire_read();
        let d = *handle.borrow();
        handle.release_read();
        d
    }

    /// Replace the snapshot wholesale.  Only a device's own monitoring task
    /// calls this; the snapshot must be of the cell's kind.
    pub fn store(&self, d: DeviceData)
        requires
            self.accepts(d),
    {
        proof {
            use_type_invariant(self);
        }
        let (_, handle) = self.lock.acquire_write();
        handle.release_write(d);
    }
}

} // verus!
