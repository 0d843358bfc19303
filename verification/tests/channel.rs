use usbd_gs::{
    can_speed_from_bit_rate, BitTiming, CanSpeed, Channel, ChannelConstraints, ChannelEvent,
    ChannelFeatures, ChannelFeaturesBit, ChannelFlags, ChannelFlagsBit, ChannelIdentify,
    ChannelMode, DecodeError,
};

fn constraints() -> ChannelConstraints {
    ChannelConstraints {
        tseg1_min: 3,
        tseg1_max: 8,
        tseg2_min: 2,
        tseg2_max: 8,
        sjw_max: 4,
        brp_min: 1,
        brp_max: 64,
        brp_inc: 1,
    }
}

fn channel(fclk_can: u32) -> Channel {
    Channel {
        features: ChannelFeatures::new(&[]),
        fclk_can,
        constraints: constraints(),
        data_constraints: None,
    }
}

#[test]
fn feature_masks_are_the_bits_of_the_protocol() {
    assert_eq!(ChannelFeaturesBit::ListenOnly.mask(), 1 << 0);
    assert_eq!(ChannelFeaturesBit::Loopback.mask(), 1 << 1);
    assert_eq!(ChannelFeaturesBit::TripleSample.mask(), 1 << 2);
    assert_eq!(ChannelFeaturesBit::OneShot.mask(), 1 << 3);
    assert_eq!(ChannelFeaturesBit::HwTimestamp.mask(), 1 << 4);
    assert_eq!(ChannelFeaturesBit::Identify.mask(), 1 << 5);
    assert_eq!(ChannelFeaturesBit::UserId.mask(), 1 << 6);
    assert_eq!(ChannelFeaturesBit::PadPktsToMaxPktSize.mask(), 1 << 7);
    assert_eq!(ChannelFeaturesBit::Fd.mask(), 1 << 8);
    assert_eq!(ChannelFeaturesBit::ReqUsbQuirkLpc546xx.mask(), 1 << 9);
    assert_eq!(ChannelFeaturesBit::BtConstExt.mask(), 1 << 10);
}

#[test]
fn features_of_no_bits_are_zero() {
    assert_eq!(ChannelFeatures::new(&[]), ChannelFeatures(0));
}

#[test]
fn features_hold_exactly_the_listed_bits() {
    let features = ChannelFeatures::new(&[
        ChannelFeaturesBit::ListenOnly,
        ChannelFeaturesBit::Loopback,
        ChannelFeaturesBit::BtConstExt,
    ]);
    assert_eq!(features.0, 0x403);
    assert!(features.is_set(ChannelFeaturesBit::ListenOnly));
    assert!(features.is_set(ChannelFeaturesBit::Loopback));
    assert!(features.is_set(ChannelFeaturesBit::BtConstExt));
    assert!(!features.is_set(ChannelFeaturesBit::TripleSample));
    assert!(!features.is_set(ChannelFeaturesBit::Fd));
}

#[test]
fn features_listed_twice_count_once() {
    let features = ChannelFeatures::new(&[ChannelFeaturesBit::Fd, ChannelFeaturesBit::Fd]);
    assert_eq!(features.0, 0x100);
}

#[test]
fn flag_masks_are_the_bits_of_the_protocol() {
    assert_eq!(ChannelFlagsBit::ListenOnly.mask(), 1 << 0);
    assert_eq!(ChannelFlagsBit::Loopback.mask(), 1 << 1);
    assert_eq!(ChannelFlagsBit::TripleSample.mask(), 1 << 2);
    assert_eq!(ChannelFlagsBit::OneShot.mask(), 1 << 3);
    assert_eq!(ChannelFlagsBit::HwTimestamp.mask(), 1 << 4);
    assert_eq!(ChannelFlagsBit::PadPktsToMaxPktSize.mask(), 1 << 7);
    assert_eq!(ChannelFlagsBit::Fd.mask(), 1 << 8);
}

#[test]
fn flags_tell_which_bits_are_set() {
    let flags = ChannelFlags(0x102);
    assert!(flags.is_set(ChannelFlagsBit::Loopback));
    assert!(flags.is_set(ChannelFlagsBit::Fd));
    assert!(!flags.is_set(ChannelFlagsBit::ListenOnly));
    assert!(!flags.is_set(ChannelFlagsBit::PadPktsToMaxPktSize));
}

#[test]
fn bit_rate_divides_the_clock_by_prescaler_and_quanta() {
    let timing = BitTiming { prop_seg: 3, phase_seg1: 3, phase_seg2: 2, sjw: 1, brp: 8 };
    assert_eq!(timing.bit_rate(&channel(8_000_000)), 111_111);
}

#[test]
fn bit_timing_of_the_reference_channel_runs_at_125_kbit() {
    let timing = BitTiming { prop_seg: 3, phase_seg1: 3, phase_seg2: 2, sjw: 1, brp: 8 };
    let rate = timing.bit_rate(&channel(8_000_000));
    assert_eq!(rate, 111_111);
    assert_eq!(can_speed_from_bit_rate(rate), CanSpeed::Kbps125);
}

#[test]
fn bit_rate_with_one_quantum_is_the_prescaled_clock() {
    let timing = BitTiming { prop_seg: 0, phase_seg1: 0, phase_seg2: 0, sjw: 0, brp: 3 };
    assert_eq!(timing.bit_rate(&channel(16_000_000)), 5_333_333);
}

#[test]
fn bit_rate_with_more_quanta_than_a_word_holds_is_zero() {
    let timing = BitTiming {
        prop_seg: u32::MAX,
        phase_seg1: u32::MAX,
        phase_seg2: u32::MAX,
        sjw: 1,
        brp: 1,
    };
    assert_eq!(timing.bit_rate(&channel(u32::MAX)), 0);
}

#[test]
fn bit_timing_is_read_as_five_little_endian_words() {
    let payload: Vec<u8> = vec![
        3, 0, 0, 0, 0x04, 0x03, 0x02, 0x01, 2, 0, 0, 0, 1, 0, 0, 0, 0x00, 0x01, 0, 0,
    ];
    assert_eq!(
        BitTiming::unpack(&payload),
        Ok(BitTiming { prop_seg: 3, phase_seg1: 0x0102_0304, phase_seg2: 2, sjw: 1, brp: 256 })
    );
}

#[test]
fn bit_timing_ignores_what_follows_its_twenty_bytes() {
    let mut payload: Vec<u8> = vec![0; 24];
    payload[16] = 9;
    payload[20] = 0xFF;
    assert_eq!(
        BitTiming::unpack(&payload),
        Ok(BitTiming { prop_seg: 0, phase_seg1: 0, phase_seg2: 0, sjw: 0, brp: 9 })
    );
}

#[test]
fn bit_timing_of_nineteen_bytes_is_truncated() {
    let payload: Vec<u8> = vec![0; 19];
    assert_eq!(BitTiming::unpack(&payload), Err(DecodeError::Truncated));
    assert_eq!(BitTiming::unpack(&[]), Err(DecodeError::Truncated));
}

#[test]
fn mode_is_read_as_two_little_endian_words() {
    let payload: Vec<u8> = vec![1, 0, 0, 0, 0x02, 0x01, 0, 0];
    let mode = ChannelMode::unpack(&payload).unwrap();
    assert_eq!(mode, ChannelMode { mode: 1, flags: ChannelFlags(0x102) });
    assert!(mode.is_on());
    assert!(mode.flags.is_set(ChannelFlagsBit::Loopback));
}

#[test]
fn mode_of_seven_bytes_is_truncated() {
    let payload: Vec<u8> = vec![0; 7];
    assert_eq!(ChannelMode::unpack(&payload), Err(DecodeError::Truncated));
}

#[test]
fn mode_word_zero_means_off() {
    assert!(!ChannelMode { mode: 0, flags: ChannelFlags(0xFFFF_FFFF) }.is_on());
    assert!(ChannelMode { mode: 2, flags: ChannelFlags(0) }.is_on());
}

#[test]
fn identify_is_read_as_one_little_endian_word() {
    let on = ChannelIdentify::unpack(&[0, 0, 0, 0x80]).unwrap();
    assert_eq!(on, ChannelIdentify(0x8000_0000));
    assert!(on.is_on());
    let off = ChannelIdentify::unpack(&[0, 0, 0, 0, 7]).unwrap();
    assert!(!off.is_on());
    assert_eq!(ChannelIdentify::unpack(&[1, 0, 0]), Err(DecodeError::Truncated));
}

#[test]
fn events_carry_their_channel() {
    let timing = BitTiming { prop_seg: 1, phase_seg1: 2, phase_seg2: 3, sjw: 4, brp: 5 };
    let mode = ChannelMode { mode: 1, flags: ChannelFlags(0) };
    assert_eq!(ChannelEvent::BitTiming(timing, 0).channel(), 0);
    assert_eq!(ChannelEvent::DataBitTiming(timing, 1).channel(), 1);
    assert_eq!(ChannelEvent::ChannelMode(mode, 2).channel(), 2);
    assert_eq!(ChannelEvent::Identify(ChannelIdentify(1), 3).channel(), 3);
    assert_ne!(
        ChannelEvent::Identify(ChannelIdentify(1), 3),
        ChannelEvent::Identify(ChannelIdentify(1), 2)
    );
}
