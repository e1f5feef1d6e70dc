//! A placeholder low-level transport handle for the device.

use vstd::prelude::*;

verus! {

/// Why a raw transport exchange failed.
#[derive(Clone, Debug, PartialEq, Eq)]
pub enum TransportError {
    /// The network failed, with the transport's message.
    Network(String),
    /// The peer broke the wire protocol.
    Protocol(String),
}

pub type TransportResult<T> = Result<T, TransportError>;

/// A handle on the device's address.
pub struct PixooTransport {
    device_addr: String,
}

impl PixooTransport {
    /// The address this transport talks to.
    pub closed spec fn addr(self) -> Seq<char> {
        self.device_addr@
    }

    pub fn new(device_addr: String) -> (r: PixooTransport)
        ensures
            r.addr() == device_addr@,
    {
        PixooTransport { device_addr }
    }

    /// The device address, for the network edge to dial.
    pub fn device_addr(&self) -> (r: &str)
        ensures
            r@ == self.addr(),
    {
        self.device_addr.as_str()
    }
}

} // verus!
