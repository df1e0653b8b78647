//! The gateway: one event loop that merges the shutdown signal, the network
//! runtime and the downlink channel, forwards uplinks, and sends each
//! downlink in the first receive window with a single fallback to the
//! second.
//!
//! The loop is written as a state machine. [`step`] is its mathematical
//! definition; [`Gateway::run`] computes it.

use vstd::prelude::*;
use crate::event::{
    Action, DownlinkEvent, Event, Handled, Notice, RawFrame, Resolution, Step, TransmitError,
    UdpEvent, Window,
};
use crate::packet::{Encoding, LinkPacket};

verus! {

/// Bound, in seconds, on every transmit attempt of a downlink.
pub const DOWNLINK_TIMEOUT_SECS: u64 = 5;

/// Bound, in seconds, that the upstream side allows for an uplink.
pub const UPLINK_TIMEOUT_SECS: u64 = 6;

/// Where the gateway stands between two events.
///
/// A dispatch passes through `Rendering(Rx1, _)`, `Attempting(Rx1, _)` and,
/// only after a timing rejection, `Rendering(Rx2, _)` and
/// `Attempting(Rx2, _)`. It ends in `Idle`, or in `Stopped` where a
/// rendering failed.
#[derive(Debug, PartialEq, Eq)]
pub enum State<P> {
    /// No dispatch is under way; the three sources are being waited on.
    Idle,
    /// A downlink is being rendered for a window.
    Rendering(Window, LinkPacket<P>),
    /// A frame of the downlink is out for transmission in a window.
    Attempting(Window, LinkPacket<P>),
    /// The loop has ended.
    Stopped,
}

/// What an event of the network runtime leads to: at most one notice, and a
/// packet for the uplink channel exactly where a received packet converted
/// and is not of the competing encoding.
pub open spec fn udp_outcome<P>(event: UdpEvent<P>) -> Handled<P> {
    match event {
        UdpEvent::UnableToParseUdpFrame => Handled {
            notice: Some(Notice::UnparsedFrame),
            uplink: None,
        },
        UdpEvent::NewClient(_) => Handled { notice: Some(Notice::NewClient), uplink: None },
        UdpEvent::UpdateClient(_) => Handled { notice: Some(Notice::UpdatedClient), uplink: None },
        UdpEvent::PacketReceived(Some(frame), gateway_mac) => if frame.encoding
            == Encoding::Longfi {
            Handled { notice: Some(Notice::IgnoredLongfi), uplink: None }
        } else {
            Handled { notice: None, uplink: Some(LinkPacket::tagged(frame, gateway_mac)) }
        },
        UdpEvent::PacketReceived(None, _) => Handled {
            notice: Some(Notice::IgnoredPushData),
            uplink: None,
        },
        UdpEvent::NoClientWithMac(_) => Handled { notice: Some(Notice::UnknownMac), uplink: None },
        UdpEvent::RawPacket(RawFrame::PushData { gateway_mac, uplinks }) => Handled {
            notice: if uplinks > 0 {
                Some(Notice::RawUplinks { count: uplinks })
            } else {
                None
            },
            uplink: None,
        },
        UdpEvent::RawPacket(RawFrame::Other) => Handled {
            notice: Some(Notice::RawFrame),
            uplink: None,
        },
    }
}

/// The step that resolves a dispatch and returns to waiting.
pub open spec fn resolve<P, F, E>(notice: Option<Notice>, resolution: Resolution) -> (
    State<P>,
    Step<P, F, E>,
) {
    (State::Idle, Step { notice, resolved: Some(resolution), action: Action::Select })
}

/// Where the rendering of `downlink` for `window` leads: to a transmit
/// attempt in that window, bounded by [`DOWNLINK_TIMEOUT_SECS`], where there
/// is a frame; to success without any attempt where there is none; out of
/// the loop with the error where rendering failed.
pub open spec fn after_render<P, F, E>(
    window: Window,
    downlink: LinkPacket<P>,
    rendered: Result<Option<F>, E>,
) -> (State<P>, Step<P, F, E>) {
    match rendered {
        Ok(Some(frame)) => (
            State::Attempting(window, downlink),
            Step {
                notice: Some(
                    if window == Window::Rx1 {
                        Notice::Rx1Downlink
                    } else {
                        Notice::Rx2Downlink
                    },
                ),
                resolved: None,
                action: Action::Transmit {
                    window,
                    gateway_mac: downlink.gateway_mac,
                    frame,
                    timeout_secs: DOWNLINK_TIMEOUT_SECS,
                },
            },
        ),
        Ok(None) => resolve(None, Resolution::Success),
        Err(error) => (
            State::Stopped,
            Step { notice: None, resolved: None, action: Action::Exit(Err(error)) },
        ),
    }
}

/// Where the end of a transmit attempt leads: a timing rejection in the
/// first window, and nothing else, to a late rendering for the second
/// window; every other failure to a notice and nothing more.
pub open spec fn after_transmit<P, F, E>(
    window: Window,
    downlink: LinkPacket<P>,
    transmitted: Result<(), TransmitError>,
) -> (State<P>, Step<P, F, E>) {
    match transmitted {
        Ok(()) => resolve(None, Resolution::Success),
        Err(error) => if window == Window::Rx1 && error.timing_rejection() {
            (
                State::Rendering(Window::Rx2, downlink),
                Step {
                    notice: None,
                    resolved: None,
                    action: Action::Render {
                        window: Window::Rx2,
                        gateway_mac: downlink.gateway_mac,
                    },
                },
            )
        } else {
            resolve(
                Some(
                    if window == Window::Rx1 {
                        Notice::Rx1Error
                    } else {
                        Notice::Rx2Error
                    },
                ),
                Resolution::Fail,
            )
        },
    }
}

/// One step of a downlink dispatch, or `None` where `event` is not what
/// `state` waits for: a downlink is received only when idle, a rendering
/// only ends while one is under way, and likewise a transmit attempt.
pub open spec fn dispatch_step<P, F, E>(state: State<P>, event: DownlinkEvent<P, F, E>) -> Option<
    (State<P>, Step<P, F, E>),
> {
    match (state, event) {
        (State::Idle, DownlinkEvent::Received(downlink)) => Some(
            (
                State::Rendering(Window::Rx1, downlink),
                Step {
                    notice: None,
                    resolved: None,
                    action: Action::Render {
                        window: Window::Rx1,
                        gateway_mac: downlink.gateway_mac,
                    },
                },
            ),
        ),
        (State::Rendering(window, downlink), DownlinkEvent::Rendered(rendered)) => Some(
            after_render(window, downlink, rendered),
        ),
        (State::Attempting(window, downlink), DownlinkEvent::Transmitted(transmitted)) => Some(
            after_transmit(window, downlink, transmitted),
        ),
        _ => None,
    }
}

/// One step of the loop, or `None` where `event` is not what `state` waits
/// for. The three sources are only looked at when idle; nothing is accepted
/// once stopped.
pub open spec fn step<P, F, E>(state: State<P>, event: Event<P, F, E>) -> Option<
    (State<P>, Step<P, F, E>),
> {
    match event {
        Event::Shutdown => if state is Idle {
            Some(
                (
                    State::Stopped,
                    Step {
                        notice: Some(Notice::ShuttingDown),
                        resolved: None,
                        action: Action::Exit(Ok(())),
                    },
                ),
            )
        } else {
            None
        },
        Event::Udp(udp) => if state is Idle {
            let handled = udp_outcome(udp);
            Some(
                (
                    State::Idle,
                    Step {
                        notice: handled.notice,
                        resolved: None,
                        action: match handled.uplink {
                            Some(packet) => Action::Enqueue(packet),
                            None => Action::Select,
                        },
                    },
                ),
            )
        } else {
            None
        },
        Event::Downlink(None) => if state is Idle {
            Some(
                (
                    State::Idle,
                    Step {
                        notice: Some(Notice::DownlinksClosed),
                        resolved: None,
                        action: Action::Select,
                    },
                ),
            )
        } else {
            None
        },
        Event::Downlink(Some(downlink)) => dispatch_step(state, DownlinkEvent::Received(downlink)),
        Event::Rendered(rendered) => dispatch_step(state, DownlinkEvent::Rendered(rendered)),
        Event::Transmitted(transmitted) => dispatch_step(
            state,
            DownlinkEvent::Transmitted(transmitted),
        ),
    }
}

/// The gateway's side of the event loop. Its state changes only by the
/// events it is told.
#[derive(Debug, PartialEq, Eq)]
pub struct Gateway<P> {
    state: State<P>,
}

impl<P> View for Gateway<P> {
    type V = State<P>;

    /// Where the gateway stands.
    closed spec fn view(&self) -> State<P> {
        self.state
    }
}

impl<P> Gateway<P> {
    /// A gateway that waits for its first event.
    pub fn new() -> (gateway: Gateway<P>)
        ensures
            gateway@ == State::<P>::Idle,
    {
        Gateway { state: State::Idle }
    }

    /// Where the gateway stands.
    pub fn state(&self) -> (state: &State<P>)
        ensures
            *state == self@,
    {
        &self.state
    }

    /// Whether the loop has ended.
    pub fn is_stopped(&self) -> (stopped: bool)
        ensures
            stopped == (self@ is Stopped),
    {
        match &self.state {
            State::Stopped => true,
            _ => false,
        }
    }

    /// The downlink in dispatch, for the driver to render.
    pub fn downlink(&self) -> (downlink: Option<&LinkPacket<P>>)
        ensures
            downlink == match self@ {
                State::Rendering(_, packet) => Some(&packet),
                State::Attempting(_, packet) => Some(&packet),
                _ => None,
            },
    {
        match &self.state {
            State::Rendering(_, packet) => Some(packet),
            State::Attempting(_, packet) => Some(packet),
            _ => None,
        }
    }

    /// Classifies one event of the network runtime.
    pub fn handle_udp_event(&self, event: UdpEvent<P>) -> (handled: Handled<P>)
        ensures
            handled == udp_outcome(event),
    {
        match event {
            UdpEvent::UnableToParseUdpFrame => Handled {
                notice: Some(Notice::UnparsedFrame),
                uplink: None,
            },
            UdpEvent::NewClient(_) => Handled { notice: Some(Notice::NewClient), uplink: None },
            UdpEvent::UpdateClient(_) => Handled {
                notice: Some(Notice::UpdatedClient),
                uplink: None,
            },
            UdpEvent::PacketReceived(Some(frame), gateway_mac) => {
                let packet = LinkPacket::from_push_data(frame, gateway_mac);
                if packet.is_longfi() {
                    Handled { notice: Some(Notice::IgnoredLongfi), uplink: None }
                } else {
                    Handled { notice: None, uplink: Some(packet) }
                }
            },
            UdpEvent::PacketReceived(None, _) => Handled {
                notice: Some(Notice::IgnoredPushData),
                uplink: None,
            },
            UdpEvent::NoClientWithMac(_) => Handled {
                notice: Some(Notice::UnknownMac),
                uplink: None,
            },
            UdpEvent::RawPacket(raw) => match raw {
                RawFrame::PushData { gateway_mac: _, uplinks } => Handled {
                    notice: if uplinks > 0 {
                        Some(Notice::RawUplinks { count: uplinks })
                    } else {
                        None
                    },
                    uplink: None,
                },
                RawFrame::Other => Handled { notice: Some(Notice::RawFrame), uplink: None },
            },
        }
    }

    /// Moves the downlink dispatch forward by one event. An event that the
    /// gateway does not wait for is refused: the answer is `None` and the
    /// state stays as it was.
    pub fn handle_downlink<F, E>(&mut self, event: DownlinkEvent<P, F, E>) -> (reply: Option<
        Step<P, F, E>,
    >)
        ensures
            match dispatch_step(old(self)@, event) {
                Some((next, step)) => final(self)@ == next && reply == Some(step),
                None => final(self)@ == old(self)@ && reply is None,
            },
    {
        let mut state = State::Idle;
        core::mem::swap(&mut self.state, &mut state);
        match state {
            State::Idle => match event {
                DownlinkEvent::Received(downlink) => {
                    let gateway_mac = downlink.gateway_mac;
                    self.state = State::Rendering(Window::Rx1, downlink);
                    Some(
                        Step {
                            notice: None,
                            resolved: None,
                            action: Action::Render { window: Window::Rx1, gateway_mac },
                        },
                    )
                },
                _ => None,
            },
            State::Rendering(window, downlink) => match event {
                DownlinkEvent::Rendered(Ok(Some(frame))) => {
                    let gateway_mac = downlink.gateway_mac;
                    self.state = State::Attempting(window, downlink);
                    Some(
                        Step {
                            notice: Some(
                                match window {
                                    Window::Rx1 => Notice::Rx1Downlink,
                                    Window::Rx2 => Notice::Rx2Downlink,
                                },
                            ),
                            resolved: None,
                            action: Action::Transmit {
                                window,
                                gateway_mac,
                                frame,
                                timeout_secs: DOWNLINK_TIMEOUT_SECS,
                            },
                        },
                    )
                },
                DownlinkEvent::Rendered(Ok(None)) => Some(
                    Step {
                        notice: None,
                        resolved: Some(Resolution::Success),
                        action: Action::Select,
                    },
                ),
                DownlinkEvent::Rendered(Err(error)) => {
                    self.state = State::Stopped;
                    Some(Step { notice: None, resolved: None, action: Action::Exit(Err(error)) })
                },
                _ => {
                    self.state = State::Rendering(window, downlink);
                    None
                },
            },
            State::Attempting(window, downlink) => match event {
                DownlinkEvent::Transmitted(Ok(())) => Some(
                    Step {
                        notice: None,
                        resolved: Some(Resolution::Success),
                        action: Action::Select,
                    },
                ),
                DownlinkEvent::Transmitted(Err(error)) => match window {
                    Window::Rx1 => if error.is_timing_rejection() {
                        let gateway_mac = downlink.gateway_mac;
                        self.state = State::Rendering(Window::Rx2, downlink);
                        Some(
                            Step {
                                notice: None,
                                resolved: None,
                                action: Action::Render { window: Window::Rx2, gateway_mac },
                            },
                        )
                    } else {
                        Some(
                            Step {
                                notice: Some(Notice::Rx1Error),
                                resolved: Some(Resolution::Fail),
                                action: Action::Select,
                            },
                        )
                    },
                    Window::Rx2 => Some(
                        Step {
                            notice: Some(Notice::Rx2Error),
                            resolved: Some(Resolution::Fail),
                            action: Action::Select,
                        },
                    ),
                },
                _ => {
                    self.state = State::Attempting(window, downlink);
                    None
                },
            },
            State::Stopped => {
                self.state = State::Stopped;
                None
            },
        }
    }

    /// Takes one event and says what the loop does next. An event that the
    /// gateway does not wait for is refused: the answer is `None` and the
    /// state stays as it was.
    pub fn run<F, E>(&mut self, event: Event<P, F, E>) -> (reply: Option<Step<P, F, E>>)
        ensures
            match step(old(self)@, event) {
                Some((next, step)) => final(self)@ == next && reply == Some(step),
                None => final(self)@ == old(self)@ && reply is None,
            },
    {
        match event {
            Event::Shutdown => match &self.state {
                State::Idle => {
                    self.state = State::Stopped;
                    Some(
                        Step {
                            notice: Some(Notice::ShuttingDown),
                            resolved: None,
                            action: Action::Exit(Ok(())),
                        },
                    )
                },
                _ => None,
            },
            Event::Udp(udp) => match &self.state {
                State::Idle => {
                    let handled = self.handle_udp_event(udp);
                    Some(
                        Step {
                            notice: handled.notice,
                            resolved: None,
                            action: match handled.uplink {
                                Some(packet) => Action::Enqueue(packet),
                                None => Action::Select,
                            },
                        },
                    )
                },
                _ => None,
            },
            Event::Downlink(None) => match &self.state {
                State::Idle => Some(
                    Step {
                        notice: Some(Notice::DownlinksClosed),
                        resolved: None,
                        action: Action::Select,
                    },
                ),
                _ => None,
            },
            Event::Downlink(Some(downlink)) => self.handle_downlink(
                DownlinkEvent::Received(downlink),
            ),
            Event::Rendered(rendered) => self.handle_downlink(DownlinkEvent::Rendered(rendered)),
            Event::Transmitted(transmitted) => self.handle_downlink(
                DownlinkEvent::Transmitted(transmitted),
            ),
        }
    }
}

} // verus!
