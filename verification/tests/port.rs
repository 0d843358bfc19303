use usbd_gs::{
    Channel, ChannelConstraints, ChannelEvent, ChannelFeatures, ChannelIdentify, ControlInReply,
    ControlOutReply, ControlRequest, FlowSignal, GsUsbPort, HostCanId, HostFrame, HostFrameFlags,
    PortError, Recipient, RequestType, FRAME_SIZE,
};

fn channel() -> Channel {
    Channel {
        features: ChannelFeatures::new(&[]),
        fclk_can: 8_000_000,
        constraints: ChannelConstraints {
            tseg1_min: 3,
            tseg1_max: 8,
            tseg2_min: 2,
            tseg2_max: 8,
            sjw_max: 4,
            brp_min: 1,
            brp_max: 64,
            brp_inc: 1,
        },
        data_constraints: None,
    }
}

fn port(max_packet_size: u16) -> GsUsbPort<1> {
    GsUsbPort::new(0, max_packet_size, [channel()], 2, 1)
}

fn frame() -> HostFrame {
    let mut bytes = [0u8; 64];
    for (i, byte) in bytes.iter_mut().enumerate() {
        *byte = 0x80 + i as u8;
    }
    HostFrame::new(Some(0x1122_3344), HostCanId(0x8000_0456), 8, 0, HostFrameFlags(0), bytes)
}

/// Runs the write side until it is ready again; every write succeeds in
/// full. Gives the packets that were handed out.
fn send_all(port: &mut GsUsbPort<1>) -> Vec<Vec<u8>> {
    let mut packets: Vec<Vec<u8>> = Vec::new();
    loop {
        let packet: Vec<u8> = match port.next_packet() {
            Some(packet) => packet.to_vec(),
            None => break,
        };
        port.packet_sent(Ok(packet.len()));
        packets.push(packet);
        assert!(packets.len() <= 100);
    }
    packets
}

fn lengths(packets: &[Vec<u8>]) -> Vec<usize> {
    packets.iter().map(|p| p.len()).collect()
}

#[test]
fn new_port_is_idle() {
    let mut port = port(64);
    assert_eq!(port.max_packet_size(), 64);
    assert_eq!(port.read_capacity(), Some(76));
    assert_eq!(port.next_packet(), None);
    assert_eq!(port.read_frame(), Err(PortError::WouldBlock));
    assert_eq!(port.read_control_event(), None);
    assert_eq!(port.flow_signal(), FlowSignal::Keep);
}

#[test]
fn frame_goes_out_in_one_full_and_one_short_packet() {
    let mut port = port(64);
    assert_eq!(port.write_frame(&frame()), Ok(()));
    let packets = send_all(&mut port);
    assert_eq!(lengths(&packets), vec![64, 12]);
    assert_eq!(packets.concat(), frame().pack());
}

#[test]
fn frame_goes_out_in_packets_of_every_size_of_a_full_speed_device() {
    for (mps, expected) in [
        (8u16, vec![8usize, 8, 8, 8, 8, 8, 8, 8, 8, 4]),
        (16, vec![16, 16, 16, 16, 12]),
        (32, vec![32, 32, 12]),
        (64, vec![64, 12]),
    ] {
        let mut port = port(mps);
        assert_eq!(port.write_frame(&frame()), Ok(()));
        let packets = send_all(&mut port);
        assert_eq!(lengths(&packets), expected);
        assert_eq!(packets.concat(), frame().pack());
    }
}

#[test]
fn frame_that_fills_its_packets_ends_with_an_empty_packet() {
    for (mps, expected) in [
        (76u16, vec![76usize, 0]),
        (38, vec![38, 38, 0]),
        (19, vec![19, 19, 19, 19, 0]),
    ] {
        let mut port = port(mps);
        assert_eq!(port.write_frame(&frame()), Ok(()));
        let packets = send_all(&mut port);
        assert_eq!(lengths(&packets), expected);
        assert_eq!(packets.concat(), frame().pack());
    }
}

#[test]
fn frame_goes_out_in_as_many_packets_as_its_size_asks_for() {
    for mps in 1u16..=200 {
        let mut port = port(mps);
        assert_eq!(port.write_frame(&frame()), Ok(()));
        let packets = send_all(&mut port);
        let mps = mps as usize;
        let full = FRAME_SIZE / mps;
        assert_eq!(packets.len(), full + 1);
        for packet in &packets[..full] {
            assert_eq!(packet.len(), mps);
        }
        assert_eq!(packets[full].len(), FRAME_SIZE % mps);
        assert_eq!(packets.concat(), frame().pack());
    }
}

#[test]
fn second_frame_waits_until_the_first_is_out() {
    let mut port = port(64);
    assert_eq!(port.write_frame(&frame()), Ok(()));
    assert_eq!(port.write_frame(&frame()), Err(PortError::WouldBlock));
    port.packet_sent(Ok(64));
    assert_eq!(port.write_frame(&frame()), Err(PortError::WouldBlock));
    port.packet_sent(Ok(12));
    assert_eq!(port.write_frame(&frame()), Ok(()));
}

#[test]
fn write_that_would_block_is_tried_again() {
    let mut port = port(64);
    port.write_frame(&frame()).unwrap();
    let first = port.next_packet().unwrap().to_vec();
    port.packet_sent(Err(PortError::WouldBlock));
    assert_eq!(port.next_packet().unwrap(), &first[..]);
    port.packet_sent(Ok(64));
    let second = port.next_packet().unwrap().to_vec();
    assert_eq!(second.len(), 12);
    port.packet_sent(Err(PortError::WouldBlock));
    assert_eq!(port.next_packet().unwrap(), &second[..]);
}

#[test]
fn write_error_gives_the_frame_up() {
    for error in [
        PortError::ParseError,
        PortError::BufferOverflow,
        PortError::EndpointOverflow,
        PortError::EndpointMemoryOverflow,
        PortError::InvalidEndpoint,
        PortError::Unsupported,
        PortError::InvalidState,
    ] {
        let mut port = port(64);
        port.write_frame(&frame()).unwrap();
        port.packet_sent(Err(error));
        assert_eq!(port.next_packet(), None);
        assert_eq!(port.write_frame(&frame()), Ok(()));
    }
}

#[test]
fn short_write_gives_the_frame_up() {
    let mut port = port(64);
    port.write_frame(&frame()).unwrap();
    port.packet_sent(Ok(10));
    assert_eq!(port.next_packet(), None);
}

#[test]
fn empty_packet_ends_the_transfer_whatever_becomes_of_it() {
    for result in [Ok(0), Err(PortError::WouldBlock), Err(PortError::InvalidState)] {
        let mut port = port(38);
        port.write_frame(&frame()).unwrap();
        port.packet_sent(Ok(38));
        port.packet_sent(Ok(38));
        assert_eq!(port.next_packet().unwrap().len(), 0);
        port.packet_sent(result);
        assert_eq!(port.next_packet(), None);
    }
}

#[test]
fn result_of_a_write_means_nothing_to_an_idle_port() {
    let mut port = port(64);
    port.packet_sent(Ok(64));
    port.packet_sent(Err(PortError::InvalidState));
    assert_eq!(port.next_packet(), None);
    assert_eq!(port.write_frame(&frame()), Ok(()));
    assert_eq!(port.next_packet().unwrap().len(), 64);
}

#[test]
fn endpoint_is_stalled_exactly_while_nothing_is_sent() {
    let mut port = port(64);
    assert_eq!(port.reset(), FlowSignal::Stall);
    assert_eq!(port.flow_signal(), FlowSignal::Keep);
    port.write_frame(&frame()).unwrap();
    assert_eq!(port.flow_signal(), FlowSignal::Unstall);
    assert_eq!(port.flow_signal(), FlowSignal::Keep);
    port.packet_sent(Ok(64));
    assert_eq!(port.flow_signal(), FlowSignal::Keep);
    port.packet_sent(Ok(12));
    assert_eq!(port.flow_signal(), FlowSignal::Stall);
    assert_eq!(port.flow_signal(), FlowSignal::Keep);
}

#[test]
fn endpoint_is_stalled_again_when_a_write_fails() {
    let mut port = port(64);
    port.write_frame(&frame()).unwrap();
    assert_eq!(port.flow_signal(), FlowSignal::Unstall);
    port.packet_sent(Err(PortError::InvalidState));
    assert_eq!(port.flow_signal(), FlowSignal::Stall);
}

#[test]
fn reset_during_a_transfer_is_followed_by_an_unstall() {
    let mut port = port(64);
    port.write_frame(&frame()).unwrap();
    assert_eq!(port.flow_signal(), FlowSignal::Unstall);
    assert_eq!(port.reset(), FlowSignal::Stall);
    assert_eq!(port.next_packet().unwrap().len(), 64);
    assert_eq!(port.flow_signal(), FlowSignal::Unstall);
}

#[test]
fn packets_that_sum_to_a_frame_give_the_frame() {
    let bytes = frame().pack();
    let mut port = port(64);
    port.packet_received(Ok(&bytes[..64]));
    assert_eq!(port.read_frame(), Err(PortError::WouldBlock));
    assert_eq!(port.read_capacity(), Some(12));
    port.packet_received(Ok(&bytes[64..]));
    assert_eq!(port.read_capacity(), None);
    assert_eq!(port.read_frame(), Ok(frame()));
    assert_eq!(port.read_frame(), Err(PortError::WouldBlock));
    assert_eq!(port.read_capacity(), Some(76));
}

#[test]
fn short_packet_ends_the_frame_at_once() {
    let bytes = frame().pack();
    let mut port = port(64);
    port.packet_received(Ok(&bytes[..10]));
    assert_eq!(port.read_capacity(), None);
    let mut expected = vec![0u8; 76];
    expected[..10].copy_from_slice(&bytes[..10]);
    assert_eq!(port.read_frame(), Ok(HostFrame::unpack(&expected).unwrap()));
}

#[test]
fn empty_packet_ends_the_frame_at_once() {
    let mut port = port(64);
    port.packet_received(Ok(&[]));
    assert_eq!(port.read_frame(), Ok(HostFrame::unpack(&[0u8; 76]).unwrap()));
}

#[test]
fn short_frame_is_read_over_what_the_buffer_held() {
    let bytes = frame().pack();
    let mut port = port(64);
    port.packet_received(Ok(&bytes[..64]));
    port.packet_received(Ok(&bytes[64..]));
    assert_eq!(port.read_frame(), Ok(frame()));
    port.packet_received(Ok(&[0xFF; 4]));
    let mut expected = bytes.clone();
    expected[..4].copy_from_slice(&[0xFF; 4]);
    assert_eq!(port.read_frame(), Ok(HostFrame::unpack(&expected).unwrap()));
}

#[test]
fn frame_that_fills_its_packets_waits_for_the_empty_packet() {
    let bytes = frame().pack();
    let mut port = port(38);
    port.packet_received(Ok(&bytes[..38]));
    port.packet_received(Ok(&bytes[38..]));
    assert_eq!(port.read_capacity(), Some(0));
    assert_eq!(port.read_frame(), Err(PortError::WouldBlock));
    port.packet_received(Ok(&[]));
    assert_eq!(port.read_frame(), Ok(frame()));
}

#[test]
fn whole_frame_is_not_overwritten() {
    let bytes = frame().pack();
    let mut port = port(64);
    port.packet_received(Ok(&bytes[..64]));
    port.packet_received(Ok(&bytes[64..]));
    port.packet_received(Ok(&[0xEE; 64]));
    port.packet_received(Ok(&[0xEE; 3]));
    port.packet_received(Err(PortError::InvalidState));
    assert_eq!(port.read_capacity(), None);
    assert_eq!(port.read_frame(), Ok(frame()));
}

#[test]
fn read_that_would_block_keeps_what_was_received() {
    let bytes = frame().pack();
    let mut port = port(64);
    port.packet_received(Err(PortError::WouldBlock));
    assert_eq!(port.read_capacity(), Some(76));
    port.packet_received(Ok(&bytes[..64]));
    port.packet_received(Err(PortError::WouldBlock));
    assert_eq!(port.read_capacity(), Some(12));
    port.packet_received(Ok(&bytes[64..]));
    assert_eq!(port.read_frame(), Ok(frame()));
}

#[test]
fn read_error_gives_up_what_was_received() {
    let bytes = frame().pack();
    for error in [
        PortError::ParseError,
        PortError::BufferOverflow,
        PortError::EndpointOverflow,
        PortError::EndpointMemoryOverflow,
        PortError::InvalidEndpoint,
        PortError::Unsupported,
        PortError::InvalidState,
    ] {
        let mut port = port(64);
        port.packet_received(Ok(&bytes[..64]));
        port.packet_received(Err(error));
        assert_eq!(port.read_capacity(), Some(76));
        assert_eq!(port.read_frame(), Err(PortError::WouldBlock));
    }
}

#[test]
fn packet_that_does_not_fit_gives_up_what_was_received() {
    let bytes = frame().pack();
    let mut port = port(64);
    port.packet_received(Ok(&bytes[..64]));
    port.packet_received(Ok(&[0xEE; 13]));
    assert_eq!(port.read_capacity(), Some(76));
    assert_eq!(port.read_frame(), Err(PortError::WouldBlock));
    port.packet_received(Ok(&[0xEE; 77]));
    assert_eq!(port.read_capacity(), Some(76));
}

#[test]
fn what_one_port_sends_another_receives() {
    for mps in [1u16, 7, 8, 16, 19, 32, 38, 64, 75, 76, 77, 512] {
        let mut sender = port(mps);
        let mut receiver = port(mps);
        receiver.packet_received(Ok(&[0xEE; 3]));
        let _ = receiver.read_frame();
        sender.write_frame(&frame()).unwrap();
        for packet in send_all(&mut sender) {
            assert_eq!(receiver.read_frame(), Err(PortError::WouldBlock));
            receiver.packet_received(Ok(&packet));
        }
        assert_eq!(receiver.read_frame(), Ok(frame()));
    }
}

#[test]
fn port_answers_control_transfers_as_its_class_does() {
    let mut port = port(64);
    let req = ControlRequest {
        request_type: RequestType::Vendor,
        recipient: Recipient::Interface,
        request: 7,
        value: 0,
        index: 0,
    };
    assert_eq!(port.control_out(&req, &[1, 0, 0, 0]), ControlOutReply::Accepted);
    assert_eq!(port.read_control_event(), Some(ChannelEvent::Identify(ChannelIdentify(1), 0)));
    assert_eq!(port.read_control_event(), None);
    assert_eq!(port.control_out(&req, &[1, 0, 0]), ControlOutReply::Rejected);
    let config = ControlRequest { request: 5, ..req };
    assert_eq!(
        port.control_in(&config),
        ControlInReply::Accepted(vec![0, 0, 0, 0, 2, 0, 0, 0, 1, 0, 0, 0])
    );
    let elsewhere = ControlRequest { index: 1, ..config };
    assert_eq!(port.control_in(&elsewhere), ControlInReply::Ignored);
}

#[test]
fn control_transfers_leave_the_frames_alone() {
    let bytes = frame().pack();
    let mut port = port(64);
    port.packet_received(Ok(&bytes[..64]));
    port.write_frame(&frame()).unwrap();
    let req = ControlRequest {
        request_type: RequestType::Vendor,
        recipient: Recipient::Interface,
        request: 7,
        value: 0,
        index: 0,
    };
    port.control_out(&req, &[1, 0, 0, 0]);
    port.read_control_event();
    assert_eq!(port.read_capacity(), Some(12));
    assert_eq!(port.next_packet().unwrap().len(), 64);
}
