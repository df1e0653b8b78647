//! What holds of the gateway whatever it is told, proved from the
//! definition of [`step`].

use vstd::prelude::*;
use crate::event::{
    Action, Event, Notice, Resolution, Step, TransmitError, UdpEvent, Window,
};
use crate::gateway::{step, State, DOWNLINK_TIMEOUT_SECS};
use crate::packet::{Encoding, LinkPacket, MacAddress, RxFrame};

verus! {

/// The state that `events`, offered in turn, lead to from `state`. A refused
/// event changes nothing.
pub open spec fn state_after<P, F, E>(state: State<P>, events: Seq<Event<P, F, E>>) -> State<P>
    decreases events.len(),
{
    if events.len() == 0 {
        state
    } else {
        let before = state_after(state, events.drop_last());
        match step(before, events.last()) {
            Some((next, _)) => next,
            None => before,
        }
    }
}

/// The state that an accepted event leads to.
pub open spec fn next<P, F, E>(state: State<P>, event: Event<P, F, E>) -> State<P>
    recommends
        step(state, event) is Some,
{
    step(state, event).unwrap().0
}

/// The answer to an accepted event.
pub open spec fn answer<P, F, E>(state: State<P>, event: Event<P, F, E>) -> Step<P, F, E>
    recommends
        step(state, event) is Some,
{
    step(state, event).unwrap().1
}

/// Whether `action` asks for a rendering for `window`.
pub open spec fn renders<P, F, E>(action: Action<P, F, E>, window: Window) -> bool {
    action matches Action::<P, F, E>::Render { window: w, .. } && w == window
}

/// A packet is offered to the uplink channel only in answer to a received
/// packet that converted and is not of the competing encoding, and the
/// packet offered is that frame, bound to the gateway that delivered it.
/// So no frame of the competing encoding is ever enqueued.
pub proof fn enqueued_packets_are_own_frames<P, F, E>(state: State<P>, event: Event<P, F, E>)
    ensures
        step(state, event) matches Some((_, reply)) ==> (reply.action matches Action::<P, F, E>::Enqueue(
            packet,
        ) ==> {
            &&& !packet.longfi()
            &&& state is Idle
            &&& event == Event::<P, F, E>::Udp(
                UdpEvent::PacketReceived(
                    Some(RxFrame { encoding: packet.encoding, packet: packet.packet }),
                    packet.gateway_mac,
                ),
            )
        }),
{
}

/// A received packet of the competing encoding is dropped with a notice:
/// nothing is enqueued and the gateway keeps waiting.
pub proof fn foreign_frame_is_dropped<P, F, E>(frame: RxFrame<P>, gateway_mac: MacAddress)
    requires
        frame.encoding == Encoding::Longfi,
    ensures
        step(State::<P>::Idle, Event::<P, F, E>::Udp(UdpEvent::PacketReceived(Some(frame), gateway_mac)))
            == Some(
            (
                State::<P>::Idle,
                Step::<P, F, E> {
                    notice: Some(Notice::IgnoredLongfi),
                    resolved: None,
                    action: Action::<P, F, E>::Select,
                },
            ),
        ),
{
}

/// A received packet that converted and is of the forwarder protocol's own
/// encoding is enqueued once, bound to the gateway that delivered it.
pub proof fn own_frame_is_enqueued<P, F, E>(frame: RxFrame<P>, gateway_mac: MacAddress)
    requires
        frame.encoding != Encoding::Longfi,
    ensures
        step(State::<P>::Idle, Event::<P, F, E>::Udp(UdpEvent::PacketReceived(Some(frame), gateway_mac)))
            == Some(
            (
                State::<P>::Idle,
                Step::<P, F, E> {
                    notice: None,
                    resolved: None,
                    action: Action::<P, F, E>::Enqueue(LinkPacket::tagged(frame, gateway_mac)),
                },
            ),
        ),
        LinkPacket::tagged(frame, gateway_mac).gateway_mac == gateway_mac,
{
}

/// A transmit attempt is only ever the answer to a rendering that yielded a
/// frame. It carries that frame, goes out in the window that was rendered,
/// to the gateway that the downlink names, and is bounded by
/// [`DOWNLINK_TIMEOUT_SECS`].
pub proof fn attempt_follows_rendered_frame<P, F, E>(state: State<P>, event: Event<P, F, E>)
    ensures
        step(state, event) matches Some((after, reply)) ==> (reply.action matches Action::<P, F, E>::Transmit {
            window,
            gateway_mac,
            frame,
            timeout_secs,
        } ==> {
            &&& state matches State::Rendering(rendered_for, downlink)
            &&& rendered_for == window
            &&& downlink.gateway_mac == gateway_mac
            &&& event == Event::<P, F, E>::Rendered(Ok(Some(frame)))
            &&& timeout_secs == DOWNLINK_TIMEOUT_SECS
            &&& after == State::Attempting(window, downlink)
        }),
{
}

/// Where the rendering for the first window yields no frame, the dispatch
/// resolves as a success without any transmit attempt, and the gateway
/// waits for its next event.
pub proof fn nothing_to_send_resolves_without_attempt<P, F, E>(downlink: LinkPacket<P>)
    ensures
        step(State::<P>::Idle, Event::<P, F, E>::Downlink(Some(downlink))) == Some(
            (
                State::Rendering(Window::Rx1, downlink),
                Step::<P, F, E> {
                    notice: None,
                    resolved: None,
                    action: Action::<P, F, E>::Render {
                        window: Window::Rx1,
                        gateway_mac: downlink.gateway_mac,
                    },
                },
            ),
        ),
        !Window::Rx1.late(),
        step(State::Rendering(Window::Rx1, downlink), Event::<P, F, E>::Rendered(Ok(None)))
            == Some(
            (
                State::<P>::Idle,
                Step::<P, F, E> {
                    notice: None,
                    resolved: Some(Resolution::Success),
                    action: Action::<P, F, E>::Select,
                },
            ),
        ),
{
}

/// The second window is entered only from a transmit attempt in the first
/// window that ended in a timing rejection: no other state, event or
/// failure asks for a late rendering.
pub proof fn second_window_needs_timing_rejection<P, F, E>(state: State<P>, event: Event<P, F, E>)
    ensures
        step(state, event) matches Some((after, reply)) ==> ((renders(reply.action, Window::Rx2)
            || after matches State::Rendering(Window::Rx2, _)) ==> {
            &&& state matches State::Attempting(Window::Rx1, downlink)
            &&& event matches Event::Transmitted(Err(error))
            &&& error.timing_rejection()
            &&& after == State::Rendering(Window::Rx2, downlink)
            &&& reply.action == Action::<P, F, E>::Render {
                window: Window::Rx2,
                gateway_mac: downlink.gateway_mac,
            }
        }),
{
}

/// A downlink whose first attempt is rejected as too early or too late is
/// rendered once more, late, and attempted once more, in the second window;
/// whatever that attempt ends in, the dispatch then resolves. The five
/// answers are exactly: render for the first window, transmit in the first,
/// render for the second, transmit in the second, wait.
pub proof fn timing_rejection_falls_back_once<P, F, E>(
    downlink: LinkPacket<P>,
    first: F,
    rejection: TransmitError,
    second: F,
    last: Result<(), TransmitError>,
)
    requires
        rejection.timing_rejection(),
    ensures
        ({
            let s0 = State::<P>::Idle;
            let e1 = Event::<P, F, E>::Downlink(Some(downlink));
            let e2 = Event::<P, F, E>::Rendered(Ok(Some(first)));
            let e3 = Event::<P, F, E>::Transmitted(Err(rejection));
            let e4 = Event::<P, F, E>::Rendered(Ok(Some(second)));
            let e5 = Event::<P, F, E>::Transmitted(last);
            let s1 = next(s0, e1);
            let s2 = next(s1, e2);
            let s3 = next(s2, e3);
            let s4 = next(s3, e4);
            let gateway_mac = downlink.gateway_mac;
            let timeout_secs = DOWNLINK_TIMEOUT_SECS;
            &&& answer(s0, e1).action == Action::<P, F, E>::Render { window: Window::Rx1, gateway_mac }
            &&& answer(s1, e2).action == Action::<P, F, E>::Transmit {
                window: Window::Rx1,
                gateway_mac,
                frame: first,
                timeout_secs,
            }
            &&& answer(s2, e3).action == Action::<P, F, E>::Render { window: Window::Rx2, gateway_mac }
            &&& Window::Rx2.late()
            &&& answer(s3, e4).action == Action::<P, F, E>::Transmit {
                window: Window::Rx2,
                gateway_mac,
                frame: second,
                timeout_secs,
            }
            &&& answer(s4, e5).action == Action::<P, F, E>::Select
            &&& answer(s4, e5).resolved == Some(
                if last is Ok {
                    Resolution::Success
                } else {
                    Resolution::Fail
                },
            )
            &&& next(s4, e5) == State::<P>::Idle
            &&& state_after(s0, seq![e1, e2, e3, e4, e5]) == State::<P>::Idle
        }),
{
    let s0 = State::<P>::Idle;
    let e1 = Event::<P, F, E>::Downlink(Some(downlink));
    let e2 = Event::<P, F, E>::Rendered(Ok(Some(first)));
    let e3 = Event::<P, F, E>::Transmitted(Err(rejection));
    let e4 = Event::<P, F, E>::Rendered(Ok(Some(second)));
    let e5 = Event::<P, F, E>::Transmitted(last);
    let events = seq![e1, e2, e3, e4, e5];
    assert(events.drop_last() == seq![e1, e2, e3, e4]);
    assert(seq![e1, e2, e3, e4].drop_last() == seq![e1, e2, e3]);
    assert(seq![e1, e2, e3].drop_last() == seq![e1, e2]);
    assert(seq![e1, e2].drop_last() == seq![e1]);
    assert(seq![e1].drop_last() == Seq::<Event<P, F, E>>::empty());
    assert(state_after(s0, Seq::<Event<P, F, E>>::empty()) == s0);
    assert(state_after(s0, seq![e1]) == next(s0, e1));
    assert(state_after(s0, seq![e1, e2]) == next(next(s0, e1), e2));
    assert(state_after(s0, seq![e1, e2, e3]) == next(next(next(s0, e1), e2), e3));
    assert(state_after(s0, seq![e1, e2, e3, e4]) == next(next(next(next(s0, e1), e2), e3), e4));
}

/// A first attempt that fails in any other way is not retried: the failure
/// is absorbed with a notice, the second window is neither rendered nor
/// attempted, and the gateway waits for its next event.
pub proof fn other_failures_do_not_fall_back<P, F, E>(
    downlink: LinkPacket<P>,
    failure: TransmitError,
)
    requires
        !failure.timing_rejection(),
    ensures
        step(
            State::Attempting(Window::Rx1, downlink),
            Event::<P, F, E>::Transmitted(Err(failure)),
        ) == Some(
            (
                State::<P>::Idle,
                Step::<P, F, E> {
                    notice: Some(Notice::Rx1Error),
                    resolved: Some(Resolution::Fail),
                    action: Action::<P, F, E>::Select,
                },
            ),
        ),
{
}

/// Once the second window has been attempted, the dispatch is over: every
/// end of that attempt, a second timing rejection included, resolves it, and
/// nothing more is rendered or transmitted.
pub proof fn second_attempt_is_the_last<P, F, E>(
    downlink: LinkPacket<P>,
    transmitted: Result<(), TransmitError>,
)
    ensures
        step(State::Attempting(Window::Rx2, downlink), Event::<P, F, E>::Transmitted(transmitted))
            == Some(
            (
                State::<P>::Idle,
                Step::<P, F, E> {
                    notice: if transmitted is Ok {
                        None
                    } else {
                        Some(Notice::Rx2Error)
                    },
                    resolved: Some(
                        if transmitted is Ok {
                            Resolution::Success
                        } else {
                            Resolution::Fail
                        },
                    ),
                    action: Action::<P, F, E>::Select,
                },
            ),
        ),
{
}

/// An attempt that ran into its time bound is a failure like any other that
/// is no timing rejection: in either window it is absorbed, nothing is
/// retried and the loop goes on.
pub proof fn timeout_is_absorbed<P, F, E>(window: Window, downlink: LinkPacket<P>)
    ensures
        step(
            State::Attempting(window, downlink),
            Event::<P, F, E>::Transmitted(Err(TransmitError::Timeout)),
        ) matches Some((after, reply)) && {
            &&& after == State::<P>::Idle
            &&& reply.action == Action::<P, F, E>::Select
            &&& reply.resolved == Some(Resolution::Fail)
            &&& reply.notice is Some
        },
{
}

/// No failure of a transmit attempt ends the loop: the only errors that the
/// loop returns are those of a rendering.
pub proof fn only_rendering_errors_end_the_loop<P, F, E>(state: State<P>, event: Event<P, F, E>)
    ensures
        step(state, event) matches Some((after, reply)) ==> {
            &&& reply.action matches Action::<P, F, E>::Exit(Err(error)) ==> {
                &&& state is Rendering
                &&& event == Event::<P, F, E>::Rendered(Err(error))
            }
            &&& reply.action matches Action::<P, F, E>::Exit(Ok(_)) ==> {
                &&& state is Idle
                &&& event is Shutdown
            }
            &&& after is Stopped <==> reply.action is Exit
        },
{
}

/// A closed downlink channel does not end the loop: however often it is
/// reported, the gateway stays idle, and an event of the network runtime is
/// then handled as ever.
pub proof fn closed_downlinks_keep_the_loop_running<P, F, E>(
    closings: Seq<Event<P, F, E>>,
    udp: UdpEvent<P>,
)
    requires
        forall|i: int| 0 <= i < closings.len() ==> closings[i] == Event::<P, F, E>::Downlink(None),
    ensures
        state_after(State::<P>::Idle, closings) == State::<P>::Idle,
        step(state_after(State::<P>::Idle, closings), Event::<P, F, E>::Udp(udp)) == step(
            State::<P>::Idle,
            Event::<P, F, E>::Udp(udp),
        ),
        step(State::<P>::Idle, Event::<P, F, E>::Udp(udp)) is Some,
        step(State::<P>::Idle, Event::<P, F, E>::Downlink(None)) == Some(
            (
                State::<P>::Idle,
                Step::<P, F, E> {
                    notice: Some(Notice::DownlinksClosed),
                    resolved: None,
                    action: Action::<P, F, E>::Select,
                },
            ),
        ),
    decreases closings.len(),
{
    if closings.len() > 0 {
        closed_downlinks_keep_the_loop_running(closings.drop_last(), udp);
    }
}

/// The shutdown signal, whenever the gateway looks at its sources, ends the
/// loop with success in that one step, and nothing is accepted afterwards.
pub proof fn shutdown_ends_the_loop<P, F, E>(later: Event<P, F, E>)
    ensures
        step(State::<P>::Idle, Event::<P, F, E>::Shutdown) == Some(
            (
                State::<P>::Stopped,
                Step::<P, F, E> {
                    notice: Some(Notice::ShuttingDown),
                    resolved: None,
                    action: Action::<P, F, E>::Exit(Ok(())),
                },
            ),
        ),
        step(State::<P>::Stopped, later) is None,
{
}

/// A dispatch never keeps the gateway from its sources for long: from any
/// state of a dispatch, four accepted events at most lead back to waiting
/// or out of the loop.
pub proof fn dispatch_ends_within_four_events<P, F, E>(
    state: State<P>,
    e1: Event<P, F, E>,
    e2: Event<P, F, E>,
    e3: Event<P, F, E>,
    e4: Event<P, F, E>,
)
    requires
        step(state, e1) is Some,
        step(next(state, e1), e2) is Some,
        step(next(next(state, e1), e2), e3) is Some,
        step(next(next(next(state, e1), e2), e3), e4) is Some,
    ensures
        ({
            let s1 = next(state, e1);
            let s2 = next(s1, e2);
            let s3 = next(s2, e3);
            let s4 = next(s3, e4);
            state is Idle || s1 is Idle || s1 is Stopped || s2 is Idle || s2 is Stopped || s3
                is Idle || s3 is Stopped || s4 is Idle || s4 is Stopped
        }),
{
}

} // verus!
