use gateway_rs::event::{
    Action, DownlinkEvent, Event, Handled, Notice, RawFrame, Resolution, Severity, Step,
    TransmitError, UdpEvent, Window,
};
use gateway_rs::gateway::{Gateway, State, DOWNLINK_TIMEOUT_SECS, UPLINK_TIMEOUT_SECS};
use gateway_rs::packet::{Encoding, LinkPacket, MacAddress, RxFrame};

type Packet = Vec<u8>;
type Frame = &'static str;
type Failure = &'static str;
type Ev = Event<Packet, Frame, Failure>;
type Reply = Option<Step<Packet, Frame, Failure>>;

fn mac(last: u8) -> MacAddress {
    MacAddress::new([0xAA, 0x55, 0x5A, 0, 0, 0, 0, last])
}

fn downlink(last: u8) -> LinkPacket<Packet> {
    LinkPacket::new(mac(last), vec![1, 2, 3])
}

fn select(notice: Option<Notice>, resolved: Option<Resolution>) -> Reply {
    Some(Step { notice, resolved, action: Action::Select })
}

/// Brings a fresh gateway to the point where the first window's frame is out.
fn attempting_rx1(last: u8) -> Gateway<Packet> {
    let mut gateway = Gateway::new();
    gateway.run::<Frame, Failure>(Event::Downlink(Some(downlink(last))));
    gateway.run::<Frame, Failure>(Event::Rendered(Ok(Some("rx1"))));
    assert_eq!(*gateway.state(), State::Attempting(Window::Rx1, downlink(last)));
    gateway
}

#[test]
fn timeouts_are_five_and_six_seconds() {
    assert_eq!(DOWNLINK_TIMEOUT_SECS, 5);
    assert_eq!(UPLINK_TIMEOUT_SECS, 6);
}

#[test]
fn new_gateway_is_idle() {
    let gateway: Gateway<Packet> = Gateway::new();
    assert_eq!(*gateway.state(), State::Idle);
    assert!(!gateway.is_stopped());
    assert_eq!(gateway.downlink(), None);
}

#[test]
fn only_the_second_window_is_late() {
    assert!(!Window::Rx1.is_late());
    assert!(Window::Rx2.is_late());
}

#[test]
fn only_too_early_and_too_late_are_timing_rejections() {
    assert!(TransmitError::TooEarly.is_timing_rejection());
    assert!(TransmitError::TooLate.is_timing_rejection());
    assert!(!TransmitError::Timeout.is_timing_rejection());
    assert!(!TransmitError::Transport.is_timing_rejection());
}

#[test]
fn link_packet_keeps_gateway_and_encoding() {
    let frame = RxFrame { encoding: Encoding::Longfi, packet: vec![9u8] };
    let packet = LinkPacket::from_push_data(frame, mac(7));
    assert_eq!(packet.gateway_mac, mac(7));
    assert_eq!(packet.packet, vec![9u8]);
    assert!(packet.is_longfi());
    assert!(!downlink(7).is_longfi());
    assert_eq!(downlink(7).encoding, Encoding::Lorawan);
}

#[test]
fn uplink_is_enqueued_once_with_the_source_gateway() {
    let mut gateway: Gateway<Packet> = Gateway::new();
    let frame = RxFrame { encoding: Encoding::Lorawan, packet: vec![0x40, 1, 2] };
    let reply: Reply = gateway.run(Event::Udp(UdpEvent::PacketReceived(Some(frame), mac(1))));
    let expected = LinkPacket {
        gateway_mac: mac(1),
        encoding: Encoding::Lorawan,
        packet: vec![0x40, 1, 2],
    };
    assert_eq!(
        reply,
        Some(Step { notice: None, resolved: None, action: Action::Enqueue(expected) })
    );
    assert_eq!(*gateway.state(), State::Idle);
}

#[test]
fn longfi_packet_is_never_enqueued() {
    let mut gateway: Gateway<Packet> = Gateway::new();
    let frame = RxFrame { encoding: Encoding::Longfi, packet: vec![0xE0, 1] };
    let reply: Reply = gateway.run(Event::Udp(UdpEvent::PacketReceived(Some(frame), mac(1))));
    assert_eq!(reply, select(Some(Notice::IgnoredLongfi), None));
    assert_eq!(*gateway.state(), State::Idle);
}

#[test]
fn failed_conversion_is_dropped_with_a_warning() {
    let gateway: Gateway<Packet> = Gateway::new();
    let handled = gateway.handle_udp_event(UdpEvent::PacketReceived(None, mac(1)));
    assert_eq!(handled, Handled { notice: Some(Notice::IgnoredPushData), uplink: None });
    assert_eq!(Notice::IgnoredPushData.severity(), Severity::Warn);
}

#[test]
fn connection_events_are_logged_only() {
    let gateway: Gateway<Packet> = Gateway::new();
    let cases = vec![
        (UdpEvent::UnableToParseUdpFrame, Notice::UnparsedFrame),
        (UdpEvent::NewClient(mac(1)), Notice::NewClient),
        (UdpEvent::UpdateClient(mac(1)), Notice::UpdatedClient),
        (UdpEvent::NoClientWithMac(mac(2)), Notice::UnknownMac),
    ];
    for (event, notice) in cases {
        let handled = gateway.handle_udp_event(event);
        assert_eq!(handled, Handled { notice: Some(notice), uplink: None });
        assert_eq!(notice.severity(), Severity::Info);
    }
}

#[test]
fn raw_frames_are_never_forwarded() {
    let gateway: Gateway<Packet> = Gateway::new();
    let push = RawFrame::PushData { gateway_mac: mac(3), uplinks: 2 };
    assert_eq!(
        gateway.handle_udp_event(UdpEvent::RawPacket(push)),
        Handled { notice: Some(Notice::RawUplinks { count: 2 }), uplink: None }
    );
    let empty = RawFrame::PushData { gateway_mac: mac(3), uplinks: 0 };
    assert_eq!(
        gateway.handle_udp_event(UdpEvent::RawPacket(empty)),
        Handled { notice: None, uplink: None }
    );
    assert_eq!(
        gateway.handle_udp_event(UdpEvent::RawPacket(RawFrame::Other)),
        Handled { notice: Some(Notice::RawFrame), uplink: None }
    );
    assert_eq!(Notice::RawFrame.severity(), Severity::Debug);
    assert_eq!(Notice::RawUplinks { count: 2 }.severity(), Severity::Debug);
}

#[test]
fn notices_of_failures_are_warnings() {
    assert_eq!(Notice::DownlinksClosed.severity(), Severity::Warn);
    assert_eq!(Notice::Rx1Error.severity(), Severity::Warn);
    assert_eq!(Notice::Rx2Error.severity(), Severity::Warn);
    assert_eq!(Notice::Rx1Downlink.severity(), Severity::Info);
    assert_eq!(Notice::Rx2Downlink.severity(), Severity::Info);
    assert_eq!(Notice::ShuttingDown.severity(), Severity::Info);
    assert_eq!(Notice::IgnoredLongfi.severity(), Severity::Info);
}

#[test]
fn downlink_starts_with_rendering_for_the_first_window() {
    let mut gateway: Gateway<Packet> = Gateway::new();
    let reply: Reply = gateway.run(Event::Downlink(Some(downlink(4))));
    assert_eq!(
        reply,
        Some(Step {
            notice: None,
            resolved: None,
            action: Action::Render { window: Window::Rx1, gateway_mac: mac(4) },
        })
    );
    assert_eq!(*gateway.state(), State::Rendering(Window::Rx1, downlink(4)));
    assert_eq!(gateway.downlink(), Some(&downlink(4)));
}

#[test]
fn downlink_without_a_frame_makes_no_transmit_attempt() {
    let mut gateway: Gateway<Packet> = Gateway::new();
    gateway.run::<Frame, Failure>(Event::Downlink(Some(downlink(4))));
    let reply: Reply = gateway.run(Event::Rendered(Ok(None)));
    assert_eq!(reply, select(None, Some(Resolution::Success)));
    assert_eq!(*gateway.state(), State::Idle);
}

#[test]
fn rendered_frame_goes_out_in_the_first_window_with_the_time_bound() {
    let mut gateway: Gateway<Packet> = Gateway::new();
    gateway.run::<Frame, Failure>(Event::Downlink(Some(downlink(4))));
    let reply: Reply = gateway.run(Event::Rendered(Ok(Some("rx1"))));
    assert_eq!(
        reply,
        Some(Step {
            notice: Some(Notice::Rx1Downlink),
            resolved: None,
            action: Action::Transmit {
                window: Window::Rx1,
                gateway_mac: mac(4),
                frame: "rx1",
                timeout_secs: 5,
            },
        })
    );
}

#[test]
fn successful_first_window_never_dispatches_the_second() {
    let mut gateway = attempting_rx1(5);
    let events: Vec<Ev> = vec![
        Event::Transmitted(Ok(())),
        Event::Udp(UdpEvent::NewClient(mac(5))),
        Event::Downlink(None),
    ];
    let mut second_window = 0;
    let mut replies = Vec::new();
    for event in events {
        let reply = gateway.run(event);
        if let Some(Step { action: Action::Transmit { window: Window::Rx2, .. }, .. })
        | Some(Step { action: Action::Render { window: Window::Rx2, .. }, .. }) = &reply
        {
            second_window += 1;
        }
        replies.push(reply);
    }
    assert_eq!(second_window, 0);
    assert_eq!(replies[0], select(None, Some(Resolution::Success)));
    assert_eq!(*gateway.state(), State::Idle);
}

fn falls_back(rejection: TransmitError, last: Result<(), TransmitError>, end: Reply) {
    let mut gateway = attempting_rx1(6);
    let reply: Reply = gateway.run(Event::Transmitted(Err(rejection)));
    assert_eq!(
        reply,
        Some(Step {
            notice: None,
            resolved: None,
            action: Action::Render { window: Window::Rx2, gateway_mac: mac(6) },
        })
    );
    assert_eq!(*gateway.state(), State::Rendering(Window::Rx2, downlink(6)));
    let reply: Reply = gateway.run(Event::Rendered(Ok(Some("rx2"))));
    assert_eq!(
        reply,
        Some(Step {
            notice: Some(Notice::Rx2Downlink),
            resolved: None,
            action: Action::Transmit {
                window: Window::Rx2,
                gateway_mac: mac(6),
                frame: "rx2",
                timeout_secs: DOWNLINK_TIMEOUT_SECS,
            },
        })
    );
    let reply: Reply = gateway.run(Event::Transmitted(last));
    assert_eq!(reply, end);
    assert_eq!(*gateway.state(), State::Idle);
}

#[test]
fn too_early_falls_back_to_the_second_window_once() {
    falls_back(TransmitError::TooEarly, Ok(()), select(None, Some(Resolution::Success)));
}

#[test]
fn too_late_falls_back_to_the_second_window_once() {
    falls_back(TransmitError::TooLate, Ok(()), select(None, Some(Resolution::Success)));
}

#[test]
fn second_timing_rejection_is_absorbed() {
    falls_back(
        TransmitError::TooEarly,
        Err(TransmitError::TooLate),
        select(Some(Notice::Rx2Error), Some(Resolution::Fail)),
    );
}

#[test]
fn timeout_in_the_second_window_is_absorbed() {
    falls_back(
        TransmitError::TooLate,
        Err(TransmitError::Timeout),
        select(Some(Notice::Rx2Error), Some(Resolution::Fail)),
    );
}

#[test]
fn transport_error_in_the_first_window_is_not_retried() {
    let mut gateway = attempting_rx1(7);
    let reply: Reply = gateway.run(Event::Transmitted(Err(TransmitError::Transport)));
    assert_eq!(reply, select(Some(Notice::Rx1Error), Some(Resolution::Fail)));
    assert_eq!(*gateway.state(), State::Idle);
}

#[test]
fn timeout_in_the_first_window_is_not_retried() {
    let mut gateway = attempting_rx1(7);
    let reply: Reply = gateway.run(Event::Transmitted(Err(TransmitError::Timeout)));
    assert_eq!(reply, select(Some(Notice::Rx1Error), Some(Resolution::Fail)));
    assert_eq!(*gateway.state(), State::Idle);
}

#[test]
fn second_window_without_a_frame_resolves_quietly() {
    let mut gateway = attempting_rx1(8);
    gateway.run::<Frame, Failure>(Event::Transmitted(Err(TransmitError::TooLate)));
    let reply: Reply = gateway.run(Event::Rendered(Ok(None)));
    assert_eq!(reply, select(None, Some(Resolution::Success)));
    assert_eq!(*gateway.state(), State::Idle);
}

#[test]
fn rendering_failure_ends_the_loop_with_its_error() {
    let mut gateway: Gateway<Packet> = Gateway::new();
    gateway.run::<Frame, Failure>(Event::Downlink(Some(downlink(9))));
    let reply: Reply = gateway.run(Event::Rendered(Err("bad datarate")));
    assert_eq!(
        reply,
        Some(Step { notice: None, resolved: None, action: Action::Exit(Err("bad datarate")) })
    );
    assert!(gateway.is_stopped());

    let mut gateway = attempting_rx1(9);
    gateway.run::<Frame, Failure>(Event::Transmitted(Err(TransmitError::TooEarly)));
    let reply: Reply = gateway.run(Event::Rendered(Err("late")));
    assert_eq!(
        reply,
        Some(Step { notice: None, resolved: None, action: Action::Exit(Err("late")) })
    );
    assert!(gateway.is_stopped());
}

#[test]
fn closed_downlink_channel_does_not_end_the_loop() {
    let mut gateway: Gateway<Packet> = Gateway::new();
    for _ in 0..3 {
        let reply: Reply = gateway.run(Event::Downlink(None));
        assert_eq!(reply, select(Some(Notice::DownlinksClosed), None));
        assert_eq!(*gateway.state(), State::Idle);
    }
    let frame = RxFrame { encoding: Encoding::Lorawan, packet: vec![1u8] };
    let reply: Reply = gateway.run(Event::Udp(UdpEvent::PacketReceived(Some(frame), mac(2))));
    assert_eq!(
        reply,
        Some(Step {
            notice: None,
            resolved: None,
            action: Action::Enqueue(LinkPacket::from_push_data(
                RxFrame { encoding: Encoding::Lorawan, packet: vec![1u8] },
                mac(2)
            )),
        })
    );
}

#[test]
fn shutdown_ends_the_loop_with_success() {
    let mut gateway: Gateway<Packet> = Gateway::new();
    let reply: Reply = gateway.run(Event::Shutdown);
    assert_eq!(
        reply,
        Some(Step {
            notice: Some(Notice::ShuttingDown),
            resolved: None,
            action: Action::Exit(Ok(())),
        })
    );
    assert!(gateway.is_stopped());
    let after: Vec<Ev> = vec![
        Event::Shutdown,
        Event::Udp(UdpEvent::UnableToParseUdpFrame),
        Event::Downlink(Some(downlink(1))),
        Event::Downlink(None),
        Event::Rendered(Ok(None)),
        Event::Transmitted(Ok(())),
    ];
    for event in after {
        assert_eq!(gateway.run(event), None);
        assert_eq!(*gateway.state(), State::Stopped);
    }
}

#[test]
fn sources_are_not_looked_at_during_a_dispatch() {
    let mut gateway = attempting_rx1(3);
    let out_of_turn: Vec<Ev> = vec![
        Event::Shutdown,
        Event::Udp(UdpEvent::NewClient(mac(3))),
        Event::Downlink(Some(downlink(4))),
        Event::Downlink(None),
        Event::Rendered(Ok(Some("again"))),
    ];
    for event in out_of_turn {
        assert_eq!(gateway.run(event), None);
        assert_eq!(*gateway.state(), State::Attempting(Window::Rx1, downlink(3)));
    }
    let mut gateway: Gateway<Packet> = Gateway::new();
    gateway.run::<Frame, Failure>(Event::Downlink(Some(downlink(3))));
    let reply: Reply = gateway.run(Event::Transmitted(Ok(())));
    assert_eq!(reply, None);
    assert_eq!(*gateway.state(), State::Rendering(Window::Rx1, downlink(3)));
}

#[test]
fn idle_gateway_refuses_results_it_did_not_ask_for() {
    let mut gateway: Gateway<Packet> = Gateway::new();
    let reply: Reply = gateway.run(Event::Rendered(Ok(Some("frame"))));
    assert_eq!(reply, None);
    let reply: Reply = gateway.handle_downlink(DownlinkEvent::Transmitted(Ok(())));
    assert_eq!(reply, None);
    assert_eq!(*gateway.state(), State::Idle);
}

#[test]
fn handle_downlink_drives_a_whole_dispatch() {
    let mut gateway: Gateway<Packet> = Gateway::new();
    let reply: Reply = gateway.handle_downlink(DownlinkEvent::Received(downlink(2)));
    assert_eq!(
        reply.map(|step| step.action),
        Some(Action::Render { window: Window::Rx1, gateway_mac: mac(2) })
    );
    let reply: Reply = gateway.handle_downlink(DownlinkEvent::Rendered(Ok(Some("f"))));
    assert_eq!(
        reply.map(|step| step.action),
        Some(Action::Transmit {
            window: Window::Rx1,
            gateway_mac: mac(2),
            frame: "f",
            timeout_secs: 5
        })
    );
    let reply: Reply = gateway.handle_downlink(DownlinkEvent::Transmitted(Ok(())));
    assert_eq!(reply, select(None, Some(Resolution::Success)));
    assert_eq!(gateway.downlink(), None);
}
