use vstd::prelude::*;

use crate::client::{ClientError, ClientId, Fixed, MsgParserError, WlSeatError};

verus! {

/// The protocol id of a `wl_data_device`.
#[derive(Debug, Clone, Copy, PartialEq, Eq, Structural)]
pub struct WlDataDeviceId(pub u32);

/// The protocol id of a `wl_data_offer`.
#[derive(Debug, Clone, Copy, PartialEq, Eq, Structural)]
pub struct WlDataOfferId(pub u32);

/// The protocol id of a `wl_surface`.
#[derive(Debug, Clone, Copy, PartialEq, Eq, Structural)]
pub struct WlSurfaceId(pub u32);

/// The data-device manager through which the device was created, and the
/// client that owns it.
#[derive(Debug, Clone, Copy, PartialEq, Eq, Structural)]
pub struct WlDataDeviceManager {
    pub client: ClientId,
}

/// The seat that a data device belongs to.
#[derive(Debug, Clone, Copy, PartialEq, Eq, Structural)]
pub struct WlSeat {
    pub id: u32,
}

/// A client's `wl_data_device`: its id, the manager (and so the client) it
/// belongs to, and its seat.
#[derive(Debug, Clone, Copy, PartialEq, Eq, Structural)]
pub struct WlDataDevice {
    pub id: WlDataDeviceId,
    pub manager: WlDataDeviceManager,
    pub seat: WlSeat,
}

/// The events of a `wl_data_device`, ready to be written to its client.
#[derive(Debug, Clone, Copy, PartialEq, Eq, Structural)]
pub enum WlDataDeviceEvent {
    DataOffer { self_id: WlDataDeviceId, id: WlDataOfferId },
    Enter { self_id: WlDataDeviceId, serial: u32, surface: WlSurfaceId, x: Fixed, y: Fixed, id: WlDataOfferId },
    Leave { self_id: WlDataDeviceId },
    Motion { self_id: WlDataDeviceId, time: u32, x: Fixed, y: Fixed },
    Drop { self_id: WlDataDeviceId },
    Selection { self_id: WlDataDeviceId, id: WlDataOfferId },
}

impl WlDataDevice {
    /// A data device with the given id for the manager's client on `seat`.
    pub fn new(id: WlDataDeviceId, manager: &WlDataDeviceManager, seat: &WlSeat) -> (r: Self)
        ensures
            r == (WlDataDevice { id, manager: *manager, seat: *seat }),
    {
        WlDataDevice { id, manager: *manager, seat: *seat }
    }

    /// The client that receives this device's events.
    pub fn client(&self) -> (r: ClientId)
        ensures
            r == self.manager.client,
    {
        self.manager.client
    }

    /// Introduces a new data offer.
    pub fn send_data_offer(&self, id: WlDataOfferId) -> (r: WlDataDeviceEvent)
        ensures
            r == (WlDataDeviceEvent::DataOffer { self_id: self.id, id }),
    {
        WlDataDeviceEvent::DataOffer { self_id: self.id, id }
    }

    /// Announces the offer that holds the current selection.
    pub fn send_selection(&self, id: WlDataOfferId) -> (r: WlDataDeviceEvent)
        ensures
            r == (WlDataDeviceEvent::Selection { self_id: self.id, id }),
    {
        WlDataDeviceEvent::Selection { self_id: self.id, id }
    }

    /// The drag left the client's surface.
    pub fn send_leave(&self) -> (r: WlDataDeviceEvent)
        ensures
            r == (WlDataDeviceEvent::Leave { self_id: self.id }),
    {
        WlDataDeviceEvent::Leave { self_id: self.id }
    }

    /// A drag entered `surface` at (`x`, `y`) carrying `offer`; the serial is
    /// always zero.
    pub fn send_enter(&self, surface: WlSurfaceId, x: Fixed, y: Fixed, offer: WlDataOfferId) -> (r: WlDataDeviceEvent)
        ensures
            r == (WlDataDeviceEvent::Enter { self_id: self.id, serial: 0, surface, x, y, id: offer }),
    {
        WlDataDeviceEvent::Enter { self_id: self.id, serial: 0, surface, x, y, id: offer }
    }

    /// The drag moved to (`x`, `y`); the time is always zero.
    pub fn send_motion(&self, x: Fixed, y: Fixed) -> (r: WlDataDeviceEvent)
        ensures
            r == (WlDataDeviceEvent::Motion { self_id: self.id, time: 0, x, y }),
    {
        WlDataDeviceEvent::Motion { self_id: self.id, time: 0, x, y }
    }

    /// The drag was dropped on the client's surface.
    pub fn send_drop(&self) -> (r: WlDataDeviceEvent)
        ensures
            r == (WlDataDeviceEvent::Drop { self_id: self.id }),
    {
        WlDataDeviceEvent::Drop { self_id: self.id }
    }
}

/// Errors of a `wl_data_device`.
#[derive(Debug, Clone, Copy, PartialEq, Eq, Structural)]
pub enum WlDataDeviceError {
    ClientError(ClientError),
    StartDragError(StartDragError),
    SetSelectionError(SetSelectionError),
    ReleaseError(ReleaseError),
}

/// Errors of the `start_drag` request.
#[derive(Debug, Clone, Copy, PartialEq, Eq, Structural)]
pub enum StartDragError {
    ParseFailed(MsgParserError),
    ClientError(ClientError),
    WlSeatError(WlSeatError),
}

/// Errors of the `set_selection` request.
#[derive(Debug, Clone, Copy, PartialEq, Eq, Structural)]
pub enum SetSelectionError {
    ParseFailed(MsgParserError),
    ClientError(ClientError),
    WlSeatError(WlSeatError),
}

/// Errors of the `release` request.
#[derive(Debug, Clone, Copy, PartialEq, Eq, Structural)]
pub enum ReleaseError {
    ParseFailed(MsgParserError),
    ClientError(ClientError),
}

} // verus!
