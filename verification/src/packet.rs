//! The normalized radio packet that travels between the forwarder side and
//! the upstream side of the gateway.

use vstd::prelude::*;

verus! {

/// Identity of a physical gateway: the eight-byte identifier that a packet
/// forwarder announces itself with.
#[derive(Clone, Copy, Debug, PartialEq, Eq, Hash)]
pub struct MacAddress {
    pub bytes: [u8; 8],
}

impl MacAddress {
    pub fn new(bytes: [u8; 8]) -> (mac: MacAddress)
        ensures
            mac.bytes == bytes,
    {
        MacAddress { bytes }
    }
}

/// The encoding that a received frame was classified as.
#[derive(Clone, Copy, Debug, PartialEq, Eq, Structural)]
pub enum Encoding {
    /// A frame of the forwarder protocol's own payload format.
    Lorawan,
    /// A frame of the competing encoding that shares the channel. Such a
    /// frame is never forwarded upstream.
    Longfi,
}

/// A received frame after conversion, not yet bound to a gateway.
///
/// `packet` is the normalized packet itself (payload and receive metadata);
/// the gateway carries it and never looks inside.
#[derive(Debug, PartialEq, Eq)]
pub struct RxFrame<P> {
    pub encoding: Encoding,
    pub packet: P,
}

/// One radio frame in either direction, bound to the gateway that received
/// it (uplink) or that is to transmit it (downlink).
#[derive(Debug, PartialEq, Eq)]
pub struct LinkPacket<P> {
    pub gateway_mac: MacAddress,
    pub encoding: Encoding,
    pub packet: P,
}

impl<P> LinkPacket<P> {
    /// The packet that `frame` becomes once it is bound to `gateway_mac`.
    pub open spec fn tagged(frame: RxFrame<P>, gateway_mac: MacAddress) -> LinkPacket<P> {
        LinkPacket { gateway_mac, encoding: frame.encoding, packet: frame.packet }
    }

    /// Whether the packet is of the competing encoding.
    pub open spec fn longfi(&self) -> bool {
        self.encoding == Encoding::Longfi
    }

    /// A packet of the forwarder protocol's own format, bound to
    /// `gateway_mac`. This is how upstream describes a downlink.
    pub fn new(gateway_mac: MacAddress, packet: P) -> (link: LinkPacket<P>)
        ensures
            link == (LinkPacket { gateway_mac, encoding: Encoding::Lorawan, packet }),
    {
        LinkPacket { gateway_mac, encoding: Encoding::Lorawan, packet }
    }

    /// Binds a converted frame to the gateway that received it.
    pub fn from_push_data(frame: RxFrame<P>, gateway_mac: MacAddress) -> (link: LinkPacket<P>)
        ensures
            link == Self::tagged(frame, gateway_mac),
    {
        LinkPacket { gateway_mac, encoding: frame.encoding, packet: frame.packet }
    }

    /// Whether the packet is of the competing encoding.
    pub fn is_longfi(&self) -> (longfi: bool)
        ensures
            longfi == self.longfi(),
    {
        match self.encoding {
            Encoding::Longfi => true,
            Encoding::Lorawan => false,
        }
    }
}

} // verus!
