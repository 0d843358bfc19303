use usbd_gs::{
    CanFrame, CanId, DecodeError, FromHostFrame, HostCanId, HostCanIdBits, HostFrame,
    HostFrameFlags, HostFrameFlagsBits, ToHostFrame, FRAME_SIZE,
};

fn payload(first: &[u8]) -> [u8; 64] {
    let mut bytes = [0u8; 64];
    bytes[..first.len()].copy_from_slice(first);
    bytes
}

#[test]
fn frame_size_is_that_of_the_host_driver() {
    assert_eq!(FRAME_SIZE, 76);
}

#[test]
fn packed_id_keeps_the_low_29_bits_whatever_the_flags() {
    let all = [HostCanIdBits::ErrorFrame, HostCanIdBits::RemoteFrame, HostCanIdBits::ExtendedId];
    for raw in [0u32, 1, 0x7FF, 0x1234_5678, 0x1FFF_FFFF, 0x2000_0000, 0xFFFF_FFFF] {
        for subset in 0u32..8 {
            let mut bits: Vec<HostCanIdBits> = Vec::new();
            for (i, bit) in all.iter().enumerate() {
                if subset & (1 << i) != 0 {
                    bits.push(*bit);
                }
            }
            let id = HostCanId::new(raw, &bits);
            assert_eq!(id.id(), raw & 0x1FFF_FFFF);
            for (i, bit) in all.iter().enumerate() {
                assert_eq!(id.is_set(*bit), subset & (1 << i) != 0);
            }
        }
    }
}

#[test]
fn packed_id_places_the_flags_at_bits_29_to_31() {
    assert_eq!(HostCanId::new(0x123, &[HostCanIdBits::ErrorFrame]).0, 0x2000_0123);
    assert_eq!(HostCanId::new(0x123, &[HostCanIdBits::RemoteFrame]).0, 0x4000_0123);
    assert_eq!(HostCanId::new(0x123, &[HostCanIdBits::ExtendedId]).0, 0x8000_0123);
    assert_eq!(HostCanId::new(0xFFFF_FFFF, &[]).0, 0x1FFF_FFFF);
    assert_eq!(HostCanIdBits::ErrorFrame.mask(), 1 << 29);
    assert_eq!(HostCanIdBits::RemoteFrame.mask(), 1 << 30);
    assert_eq!(HostCanIdBits::ExtendedId.mask(), 1 << 31);
}

#[test]
fn frame_flags_hold_exactly_the_listed_bits() {
    assert_eq!(HostFrameFlags::new(&[]).0, 0);
    let flags = HostFrameFlags::new(&[HostFrameFlagsBits::Fd, HostFrameFlagsBits::Esi]);
    assert_eq!(flags.0, 0x0A);
    assert!(flags.is_set(HostFrameFlagsBits::Fd));
    assert!(flags.is_set(HostFrameFlagsBits::Esi));
    assert!(!flags.is_set(HostFrameFlagsBits::Overflow));
    assert!(!flags.is_set(HostFrameFlagsBits::Brs));
    assert_eq!(HostFrameFlagsBits::Overflow.mask(), 1);
    assert_eq!(HostFrameFlagsBits::Fd.mask(), 2);
    assert_eq!(HostFrameFlagsBits::Brs.mask(), 4);
    assert_eq!(HostFrameFlagsBits::Esi.mask(), 8);
}

#[test]
fn setting_a_frame_flag_leaves_the_others() {
    let mut flags = HostFrameFlags(0x0C);
    flags.set(HostFrameFlagsBits::Overflow);
    assert_eq!(flags.0, 0x0D);
    flags.set(HostFrameFlagsBits::Overflow);
    assert_eq!(flags.0, 0x0D);
}

#[test]
fn frame_without_echo_marker_is_marked_as_from_the_bus() {
    let frame = HostFrame::new(
        None,
        HostCanId::new(5, &[]),
        1,
        2,
        HostFrameFlags::new(&[]),
        payload(&[9]),
    );
    assert_eq!(frame.echo_id, 0xFFFF_FFFF);
    assert_eq!(frame.can_id, HostCanId(5));
    assert_eq!(frame.can_dlc, 1);
    assert_eq!(frame.channel, 2);
    assert_eq!(frame.flags, HostFrameFlags(0));
    assert_eq!(frame.reserved, 0);
    assert_eq!(frame.bytes, payload(&[9]));
}

#[test]
fn frame_with_echo_marker_keeps_it() {
    let frame =
        HostFrame::new(Some(7), HostCanId(1), 0, 0, HostFrameFlags(0), payload(&[]));
    assert_eq!(frame.echo_id, 7);
}

fn sample_frame() -> HostFrame {
    let mut frame = HostFrame::new(
        Some(0x0403_0201),
        HostCanId::new(0x123, &[HostCanIdBits::ExtendedId]),
        2,
        1,
        HostFrameFlags::new(&[HostFrameFlagsBits::Overflow]),
        payload(&[0xAA, 0xBB]),
    );
    frame.reserved = 0x5A;
    frame.bytes[63] = 0xEE;
    frame
}

fn sample_bytes() -> Vec<u8> {
    let mut bytes: Vec<u8> = vec![
        0x01, 0x02, 0x03, 0x04, 0x23, 0x01, 0x00, 0x80, 2, 1, 1, 0x5A, 0xAA, 0xBB,
    ];
    bytes.resize(76, 0);
    bytes[75] = 0xEE;
    bytes
}

#[test]
fn frame_is_packed_in_the_layout_of_the_wire() {
    assert_eq!(sample_frame().pack(), sample_bytes());
}

#[test]
fn frame_is_unpacked_from_the_layout_of_the_wire() {
    assert_eq!(HostFrame::unpack(&sample_bytes()), Ok(sample_frame()));
}

#[test]
fn frame_is_unpacked_from_the_first_76_bytes() {
    let mut bytes = sample_bytes();
    bytes.push(0x77);
    assert_eq!(HostFrame::unpack(&bytes), Ok(sample_frame()));
}

#[test]
fn frame_of_75_bytes_is_truncated() {
    let mut bytes = sample_bytes();
    bytes.pop();
    assert_eq!(HostFrame::unpack(&bytes), Err(DecodeError::Truncated));
    assert_eq!(HostFrame::unpack(&[]), Err(DecodeError::Truncated));
}

#[test]
fn every_76_bytes_survive_unpacking_and_packing() {
    let mut bytes: Vec<u8> = Vec::new();
    for i in 0..76u32 {
        bytes.push((i * 37 + 11) as u8);
    }
    let frame = HostFrame::unpack(&bytes).unwrap();
    assert_eq!(frame.pack(), bytes);
}

#[test]
fn can_ids_are_bounded_by_their_kind() {
    assert_eq!(CanId::standard(0x7FF).unwrap().raw(), 0x7FF);
    assert!(!CanId::standard(0x7FF).unwrap().is_extended());
    assert_eq!(CanId::standard(0x800), None);
    assert_eq!(CanId::extended(0x1FFF_FFFF).unwrap().raw(), 0x1FFF_FFFF);
    assert!(CanId::extended(0).unwrap().is_extended());
    assert_eq!(CanId::extended(0x2000_0000), None);
}

#[test]
fn can_frames_hold_at_most_eight_bytes() {
    let id = CanId::standard(1).unwrap();
    assert!(CanFrame::new(id, &[0; 8]).is_some());
    assert_eq!(CanFrame::new(id, &[0; 9]), None);
    assert!(CanFrame::new_remote(id, 8).is_some());
    assert_eq!(CanFrame::new_remote(id, 9), None);
}

#[test]
fn can_frame_tells_what_it_was_made_of() {
    let id = CanId::extended(0x1234).unwrap();
    let frame = CanFrame::new(id, &[1, 2, 3]).unwrap();
    assert_eq!(frame.id(), id);
    assert!(frame.is_extended());
    assert!(!frame.is_remote_frame());
    assert_eq!(frame.dlc(), 3);
    assert_eq!(frame.data(), &[1, 2, 3]);
    let remote = CanFrame::new_remote(CanId::standard(7).unwrap(), 4).unwrap();
    assert!(remote.is_remote_frame());
    assert!(!remote.is_extended());
    assert_eq!(remote.dlc(), 4);
    assert_eq!(remote.data(), &[0, 0, 0, 0]);
}

#[test]
fn standard_data_frame_is_translated_for_the_host() {
    let frame = CanFrame::new(CanId::standard(0x123).unwrap(), &[1, 2, 3]).unwrap();
    let host = frame.to_host_frame(1);
    assert_eq!(host.echo_id, 0xFFFF_FFFF);
    assert_eq!(host.can_id, HostCanId(0x123));
    assert_eq!(host.can_dlc, 3);
    assert_eq!(host.channel, 1);
    assert_eq!(host.flags, HostFrameFlags(0));
    assert_eq!(host.reserved, 0);
    assert_eq!(host.bytes, payload(&[1, 2, 3]));
}

#[test]
fn kinds_of_frame_and_of_identifier_are_packed_above_the_identifier() {
    let std_id = CanId::standard(0x7FF).unwrap();
    let ext_id = CanId::extended(0x1FFF_FFFF).unwrap();
    assert_eq!(CanFrame::new_remote(std_id, 0).unwrap().to_host_frame(0).can_id.0, 0x4000_07FF);
    assert_eq!(CanFrame::new(ext_id, &[]).unwrap().to_host_frame(0).can_id.0, 0x9FFF_FFFF);
    assert_eq!(CanFrame::new_remote(ext_id, 8).unwrap().to_host_frame(0).can_id.0, 0xDFFF_FFFF);
}

#[test]
fn translation_for_the_host_and_back_gives_the_frame_again() {
    let ids = [
        CanId::standard(0).unwrap(),
        CanId::standard(0x7FF).unwrap(),
        CanId::extended(0).unwrap(),
        CanId::extended(0x7FF).unwrap(),
        CanId::extended(0x1FFF_FFFF).unwrap(),
    ];
    let data = [0x11u8, 0x22, 0x33, 0x44, 0x55, 0x66, 0x77, 0x88];
    for id in ids {
        for len in 0..=8usize {
            let frame = CanFrame::new(id, &data[..len]).unwrap();
            let back = CanFrame::from_host_frame(&frame.to_host_frame(3)).unwrap();
            assert_eq!(back, frame);
            assert_eq!(back.id(), id);
            assert_eq!(back.is_extended(), id.is_extended());
            assert!(!back.is_remote_frame());
            assert_eq!(back.data(), &data[..len]);

            let remote = CanFrame::new_remote(id, len).unwrap();
            let back = CanFrame::from_host_frame(&remote.to_host_frame(0)).unwrap();
            assert_eq!(back, remote);
            assert!(back.is_remote_frame());
            assert_eq!(back.dlc(), len);
        }
    }
}

#[test]
fn host_frame_with_a_length_above_eight_has_no_translation() {
    let frame =
        HostFrame::new(None, HostCanId(0x123), 9, 0, HostFrameFlags(0), payload(&[1; 9]));
    assert_eq!(CanFrame::from_host_frame(&frame), None);
    let frame =
        HostFrame::new(None, HostCanId(0x4000_0123), 65, 0, HostFrameFlags(0), payload(&[]));
    assert_eq!(CanFrame::from_host_frame(&frame), None);
    let frame = HostFrame::new(None, HostCanId(0x123), 255, 0, HostFrameFlags(0), payload(&[]));
    assert_eq!(CanFrame::from_host_frame(&frame), None);
}

#[test]
fn host_frame_with_a_wide_standard_identifier_has_no_translation() {
    let frame = HostFrame::new(None, HostCanId(0x800), 0, 0, HostFrameFlags(0), payload(&[]));
    assert_eq!(CanFrame::from_host_frame(&frame), None);
    let frame =
        HostFrame::new(None, HostCanId(0x8000_0800), 0, 0, HostFrameFlags(0), payload(&[]));
    let back = CanFrame::from_host_frame(&frame).unwrap();
    assert_eq!(back.id(), CanId::extended(0x800).unwrap());
}

#[test]
fn host_frame_is_translated_by_its_bits() {
    let frame = HostFrame::new(
        Some(4),
        HostCanId(0x2000_0042),
        2,
        0,
        HostFrameFlags(0xFF),
        payload(&[7, 8, 9]),
    );
    let back = CanFrame::from_host_frame(&frame).unwrap();
    assert_eq!(back, CanFrame::new(CanId::standard(0x42).unwrap(), &[7, 8]).unwrap());
    let frame =
        HostFrame::new(None, HostCanId(0x4000_0042), 2, 0, HostFrameFlags(0), payload(&[7, 8]));
    let back = CanFrame::from_host_frame(&frame).unwrap();
    assert_eq!(back, CanFrame::new_remote(CanId::standard(0x42).unwrap(), 2).unwrap());
    assert_eq!(back.data(), &[0, 0]);
}
