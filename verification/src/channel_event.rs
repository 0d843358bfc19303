use crate::bits::bit32;
use crate::channel_config::Channel;
use crate::codec::{le_u32, read_u32_le, DecodeError};
use vstd::prelude::*;

verus! {

/// A configuration command that the host sent for one channel; the second
/// part of each variant is the channel's index.
#[derive(Debug, Clone, Copy, PartialEq, Eq)]
pub enum ChannelEvent {
    BitTiming(BitTiming, usize),
    DataBitTiming(BitTiming, usize),
    ChannelMode(ChannelMode, usize),
    Identify(ChannelIdentify, usize),
}

/// The segments of one CAN bit, in time quanta, and the prescaler that
/// derives the time quantum from the channel's clock.
#[derive(Debug, Clone, Copy, PartialEq, Eq)]
pub struct BitTiming {
    pub prop_seg: u32,
    pub phase_seg1: u32,
    pub phase_seg2: u32,
    pub sjw: u32,
    pub brp: u32,
}

/// Whether the host wants the channel on, and with which options.
#[derive(Debug, Clone, Copy, PartialEq, Eq)]
pub struct ChannelMode {
    pub mode: u32,
    pub flags: ChannelFlags,
}

/// The option word of a mode command, one bit for each [`ChannelFlagsBit`].
#[derive(Debug, Clone, Copy, PartialEq, Eq)]
pub struct ChannelFlags(pub u32);

/// An option that the host may ask for when it starts a channel.
#[derive(Debug, Clone, Copy, PartialEq, Eq)]
pub enum ChannelFlagsBit {
    ListenOnly,
    Loopback,
    TripleSample,
    OneShot,
    HwTimestamp,
    PadPktsToMaxPktSize,
    Fd,
}

/// Whether the host wants the channel to identify itself (blink).
#[derive(Debug, Clone, Copy, PartialEq, Eq)]
pub struct ChannelIdentify(pub u32);

impl ChannelEvent {
    /// The index of the channel that the command is for.
    pub open spec fn spec_channel(&self) -> usize {
        match self {
            ChannelEvent::BitTiming(_, channel) => *channel,
            ChannelEvent::DataBitTiming(_, channel) => *channel,
            ChannelEvent::ChannelMode(_, channel) => *channel,
            ChannelEvent::Identify(_, channel) => *channel,
        }
    }

    /// The index of the channel that the command is for.
    #[verifier::when_used_as_spec(spec_channel)]
    pub fn channel(&self) -> (r: usize)
        ensures
            r == self.spec_channel(),
    {
        match self {
            ChannelEvent::BitTiming(_, channel) => *channel,
            ChannelEvent::DataBitTiming(_, channel) => *channel,
            ChannelEvent::ChannelMode(_, channel) => *channel,
            ChannelEvent::Identify(_, channel) => *channel,
        }
    }
}

impl BitTiming {
    /// The length in bytes of a bit timing on the wire.
    pub const SIZE: usize = 20;

    /// The nominal bit rate under a channel clock of `fclk` Hz: the clock
    /// divided by the prescaler, divided by the time quanta of one bit.
    pub open spec fn nominal_bit_rate(&self, fclk: u32) -> int {
        (fclk as int / self.brp as int) / (1 + self.prop_seg + self.phase_seg1 + self.phase_seg2)
    }

    /// The bit timing that the first twenty bytes of `data` spell: five
    /// little-endian words.
    pub open spec fn spec_unpack(data: Seq<u8>) -> BitTiming {
        BitTiming {
            prop_seg: le_u32(data.subrange(0, 4)),
            phase_seg1: le_u32(data.subrange(4, 8)),
            phase_seg2: le_u32(data.subrange(8, 12)),
            sjw: le_u32(data.subrange(12, 16)),
            brp: le_u32(data.subrange(16, 20)),
        }
    }

    /// The nominal bit rate that this timing gives on `channel`.
    pub fn bit_rate(&self, channel: &Channel) -> (r: u32)
        requires
            self.brp != 0,
        ensures
            r == self.nominal_bit_rate(channel.fclk_can),
    {
        let fclk: u32 = channel.fclk_can;
        let fbrp: u32 = fclk / self.brp;
        let quanta: u64 = 1u64 + self.prop_seg as u64 + self.phase_seg1 as u64
            + self.phase_seg2 as u64;
        let rate: u64 = fbrp as u64 / quanta;
        rate as u32
    }

    /// Reads a bit timing from the payload of a control transfer.
    pub fn unpack(data: &[u8]) -> (r: Result<BitTiming, DecodeError>)
        ensures
            r == if data@.len() >= Self::SIZE {
                Ok::<BitTiming, DecodeError>(Self::spec_unpack(data@))
            } else {
                Err(DecodeError::Truncated)
            },
    {
        if data.len() < Self::SIZE {
            return Err(DecodeError::Truncated);
        }
        let prop_seg: u32 = read_u32_le(data, 0)?;
        let phase_seg1: u32 = read_u32_le(data, 4)?;
        let phase_seg2: u32 = read_u32_le(data, 8)?;
        let sjw: u32 = read_u32_le(data, 12)?;
        let brp: u32 = read_u32_le(data, 16)?;
        Ok(BitTiming { prop_seg, phase_seg1, phase_seg2, sjw, brp })
    }
}

impl ChannelFlagsBit {
    /// Where the option's bit stands in the option word.
    pub open spec fn position(self) -> u32 {
        match self {
            ChannelFlagsBit::ListenOnly => 0,
            ChannelFlagsBit::Loopback => 1,
            ChannelFlagsBit::TripleSample => 2,
            ChannelFlagsBit::OneShot => 3,
            ChannelFlagsBit::HwTimestamp => 4,
            ChannelFlagsBit::PadPktsToMaxPktSize => 7,
            ChannelFlagsBit::Fd => 8,
        }
    }

    /// The option word that asks for this option alone.
    pub open spec fn spec_mask(self) -> u32 {
        bit32(self.position())
    }

    /// The option word that asks for this option alone.
    #[verifier::when_used_as_spec(spec_mask)]
    pub fn mask(self) -> (m: u32)
        ensures
            m == self.spec_mask(),
    {
        match self {
            ChannelFlagsBit::ListenOnly => 1u32 << 0,
            ChannelFlagsBit::Loopback => 1u32 << 1,
            ChannelFlagsBit::TripleSample => 1u32 << 2,
            ChannelFlagsBit::OneShot => 1u32 << 3,
            ChannelFlagsBit::HwTimestamp => 1u32 << 4,
            ChannelFlagsBit::PadPktsToMaxPktSize => 1u32 << 7,
            ChannelFlagsBit::Fd => 1u32 << 8,
        }
    }
}

impl ChannelFlags {
    /// Whether the word asks for `bit`.
    pub open spec fn has(&self, bit: ChannelFlagsBit) -> bool {
        self.0 & bit.spec_mask() != 0
    }

    /// Whether the word asks for `bit`.
    pub fn is_set(&self, bit: ChannelFlagsBit) -> (r: bool)
        ensures
            r == self.has(bit),
    {
        self.0 & bit.mask() != 0
    }
}

impl ChannelMode {
    /// The length in bytes of a mode command on the wire.
    pub const SIZE: usize = 8;

    /// Whether the host wants the channel on.
    pub open spec fn on(&self) -> bool {
        self.mode != 0
    }

    /// The mode command that the first eight bytes of `data` spell: the
    /// on/off word, then the option word, both little-endian.
    pub open spec fn spec_unpack(data: Seq<u8>) -> ChannelMode {
        ChannelMode {
            mode: le_u32(data.subrange(0, 4)),
            flags: ChannelFlags(le_u32(data.subrange(4, 8))),
        }
    }

    /// Whether the host wants the channel on.
    pub fn is_on(&self) -> (r: bool)
        ensures
            r == self.on(),
    {
        self.mode != 0
    }

    /// Reads a mode command from the payload of a control transfer.
    pub fn unpack(data: &[u8]) -> (r: Result<ChannelMode, DecodeError>)
        ensures
            r == if data@.len() >= Self::SIZE {
                Ok::<ChannelMode, DecodeError>(Self::spec_unpack(data@))
            } else {
                Err(DecodeError::Truncated)
            },
    {
        if data.len() < Self::SIZE {
            return Err(DecodeError::Truncated);
        }
        let mode: u32 = read_u32_le(data, 0)?;
        let flags: u32 = read_u32_le(data, 4)?;
        Ok(ChannelMode { mode, flags: ChannelFlags(flags) })
    }
}

impl ChannelIdentify {
    /// The length in bytes of an identify command on the wire.
    pub const SIZE: usize = 4;

    /// Whether the host wants the channel to identify itself.
    pub open spec fn on(&self) -> bool {
        self.0 != 0
    }

    /// The identify command that the first four bytes of `data` spell.
    pub open spec fn spec_unpack(data: Seq<u8>) -> ChannelIdentify {
        ChannelIdentify(le_u32(data.subrange(0, 4)))
    }

    /// Whether the host wants the channel to identify itself.
    pub fn is_on(&self) -> (r: bool)
        ensures
            r == self.on(),
    {
        self.0 != 0
    }

    /// Reads an identify command from the payload of a control transfer.
    pub fn unpack(data: &[u8]) -> (r: Result<ChannelIdentify, DecodeError>)
        ensures
            r == if data@.len() >= Self::SIZE {
                Ok::<ChannelIdentify, DecodeError>(Self::spec_unpack(data@))
            } else {
                Err(DecodeError::Truncated)
            },
    {
        if data.len() < Self::SIZE {
            return Err(DecodeError::Truncated);
        }
        let word: u32 = read_u32_le(data, 0)?;
        Ok(ChannelIdentify(word))
    }
}

} // verus!
