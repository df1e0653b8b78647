//! What the gateway is told and what it asks for.
//!
//! The gateway itself performs no input or output. A driver waits on the
//! shutdown signal, the network runtime and the downlink channel, renders and
//! transmits frames, and reports each outcome as an [`Event`]; the gateway
//! answers with a [`Step`] that names the next thing to do.

use vstd::prelude::*;
use crate::packet::{LinkPacket, MacAddress, RxFrame};

verus! {

/// The two receive windows that follow an uplink.
#[derive(Clone, Copy, Debug, PartialEq, Eq, Structural)]
pub enum Window {
    Rx1,
    Rx2,
}

impl Window {
    /// Whether a downlink for this window is rendered in its late variant.
    pub open spec fn late(self) -> bool {
        self == Window::Rx2
    }

    /// Whether a downlink for this window is rendered in its late variant.
    pub fn is_late(self) -> (late: bool)
        ensures
            late == self.late(),
    {
        match self {
            Window::Rx1 => false,
            Window::Rx2 => true,
        }
    }
}

/// Why a transmit attempt did not succeed.
#[derive(Clone, Copy, Debug, PartialEq, Eq, Structural)]
pub enum TransmitError {
    /// The forwarder rejected the frame as too far ahead of its window.
    TooEarly,
    /// The forwarder rejected the frame as already past its window.
    TooLate,
    /// The attempt neither succeeded nor failed within its bound.
    Timeout,
    /// Any other transport or protocol failure.
    Transport,
}

impl TransmitError {
    /// Whether the failure is a timing rejection, the only kind that
    /// justifies a second attempt in the next window.
    pub open spec fn timing_rejection(self) -> bool {
        self == TransmitError::TooEarly || self == TransmitError::TooLate
    }

    /// Whether the failure is a timing rejection.
    pub fn is_timing_rejection(self) -> (timing: bool)
        ensures
            timing == self.timing_rejection(),
    {
        match self {
            TransmitError::TooEarly => true,
            TransmitError::TooLate => true,
            TransmitError::Timeout => false,
            TransmitError::Transport => false,
        }
    }
}

/// A frame that the network runtime passed on without interpreting it.
#[derive(Clone, Copy, Debug, PartialEq, Eq)]
pub enum RawFrame {
    /// A push-data frame from `gateway_mac` that holds `uplinks` received
    /// packets.
    PushData { gateway_mac: MacAddress, uplinks: usize },
    /// Any other frame of the forwarder protocol.
    Other,
}

/// An event of the network runtime.
#[derive(Debug, PartialEq, Eq)]
pub enum UdpEvent<P> {
    /// A datagram arrived that is no frame of the forwarder protocol.
    UnableToParseUdpFrame,
    /// A forwarder client was seen for the first time.
    NewClient(MacAddress),
    /// A known forwarder client was seen at a new address.
    UpdateClient(MacAddress),
    /// A forwarder client delivered a received packet. The first field is
    /// the converted frame, or `None` where the conversion failed.
    PacketReceived(Option<RxFrame<P>>, MacAddress),
    /// A downlink was addressed to a gateway that has no registered client.
    NoClientWithMac(MacAddress),
    /// A frame passed on for diagnostics.
    RawPacket(RawFrame),
}

/// What moves a downlink dispatch forward.
#[derive(Debug, PartialEq, Eq)]
pub enum DownlinkEvent<P, F, E> {
    /// A downlink arrived from upstream.
    Received(LinkPacket<P>),
    /// The rendering that was asked for has ended: with a frame, with
    /// nothing to send, or with a structural failure.
    Rendered(Result<Option<F>, E>),
    /// The transmit attempt that was asked for has ended.
    Transmitted(Result<(), TransmitError>),
}

/// Everything a driver can report to the gateway.
#[derive(Debug, PartialEq, Eq)]
pub enum Event<P, F, E> {
    /// The shutdown signal fired.
    Shutdown,
    /// The network runtime produced an event.
    Udp(UdpEvent<P>),
    /// The downlink channel produced a packet, or `None` once it is closed.
    Downlink(Option<LinkPacket<P>>),
    /// The rendering that was asked for has ended.
    Rendered(Result<Option<F>, E>),
    /// The transmit attempt that was asked for has ended.
    Transmitted(Result<(), TransmitError>),
}

/// How loudly a notice is logged.
#[derive(Clone, Copy, Debug, PartialEq, Eq, Structural)]
pub enum Severity {
    Debug,
    Info,
    Warn,
}

/// What the operator is told about a step.
#[derive(Clone, Copy, Debug, PartialEq, Eq)]
pub enum Notice {
    /// The loop ends on the shutdown signal.
    ShuttingDown,
    /// The downlink channel is closed and is ignored.
    DownlinksClosed,
    /// A datagram that did not parse is ignored.
    UnparsedFrame,
    /// A new forwarder client.
    NewClient,
    /// A forwarder client changed its address.
    UpdatedClient,
    /// A packet of the competing encoding is ignored.
    IgnoredLongfi,
    /// A received packet that did not convert is ignored.
    IgnoredPushData,
    /// A downlink for a gateway without a client is ignored.
    UnknownMac,
    /// A raw push-data frame held `count` uplinks; one line for each, for
    /// diagnostics.
    RawUplinks { count: usize },
    /// A raw frame of another kind.
    RawFrame,
    /// A frame goes out in the first window.
    Rx1Downlink,
    /// A frame goes out in the second window.
    Rx2Downlink,
    /// The attempt in the first window failed and is ignored.
    Rx1Error,
    /// The attempt in the second window failed and is ignored.
    Rx2Error,
}

impl Notice {
    /// The level the notice is logged at.
    pub open spec fn level(self) -> Severity {
        match self {
            Notice::DownlinksClosed => Severity::Warn,
            Notice::IgnoredPushData => Severity::Warn,
            Notice::Rx1Error => Severity::Warn,
            Notice::Rx2Error => Severity::Warn,
            Notice::RawUplinks { .. } => Severity::Debug,
            Notice::RawFrame => Severity::Debug,
            _ => Severity::Info,
        }
    }

    /// The level the notice is logged at.
    pub fn severity(self) -> (level: Severity)
        ensures
            level == self.level(),
    {
        match self {
            Notice::DownlinksClosed => Severity::Warn,
            Notice::IgnoredPushData => Severity::Warn,
            Notice::Rx1Error => Severity::Warn,
            Notice::Rx2Error => Severity::Warn,
            Notice::RawUplinks { .. } => Severity::Debug,
            Notice::RawFrame => Severity::Debug,
            _ => Severity::Info,
        }
    }
}

/// How a downlink dispatch ended.
#[derive(Clone, Copy, Debug, PartialEq, Eq, Structural)]
pub enum Resolution {
    /// A frame was accepted for transmission, or there was nothing to send.
    Success,
    /// The frame was not transmitted. The failure is absorbed.
    Fail,
}

/// What the driver does next.
#[derive(Debug, PartialEq, Eq)]
pub enum Action<P, F, E> {
    /// Wait for whichever of the shutdown signal, the network runtime and
    /// the downlink channel is ready first, and report it.
    Select,
    /// Offer the packet to the uplink channel without waiting; a full or
    /// closed channel drops it. Then proceed as for `Select`.
    Enqueue(LinkPacket<P>),
    /// Render the downlink in dispatch for `window`, in the late variant for
    /// the second window, and report the result. Before the first window is
    /// rendered, allocate two empty transmit slots, one for each window,
    /// both bound to `gateway_mac`.
    Render { window: Window, gateway_mac: MacAddress },
    /// Put `frame` into the slot of `window`, dispatch it to `gateway_mac`
    /// and wait at most `timeout_secs` seconds for the result; report it.
    Transmit { window: Window, gateway_mac: MacAddress, frame: F, timeout_secs: u64 },
    /// Leave the loop with this result.
    Exit(Result<(), E>),
}

/// The gateway's answer to one event.
#[derive(Debug, PartialEq, Eq)]
pub struct Step<P, F, E> {
    /// What to log, if anything.
    pub notice: Option<Notice>,
    /// How the downlink dispatch ended, where this step ended one.
    pub resolved: Option<Resolution>,
    /// What to do next.
    pub action: Action<P, F, E>,
}

/// The gateway's answer to one event of the network runtime.
#[derive(Debug, PartialEq, Eq)]
pub struct Handled<P> {
    /// What to log, if anything.
    pub notice: Option<Notice>,
    /// The packet to offer to the uplink channel, if any.
    pub uplink: Option<LinkPacket<P>>,
}

} // verus!
