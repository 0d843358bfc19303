use crate::bits::{bit32, lemma_positions_contain, lemma_union32_has, lemma_union32_step, union32};
use crate::codec::{le_bytes, overwrite, write_u32_le};
use vstd::prelude::*;

verus! {

/// What one CAN channel of the device can do: fixed when the device starts.
#[derive(Debug, Clone, Copy, PartialEq, Eq)]
pub struct Channel {
    pub features: ChannelFeatures,
    pub fclk_can: u32,
    pub constraints: ChannelConstraints,
    pub data_constraints: Option<ChannelConstraints>,
}

/// The feature word of a channel, one bit for each [`ChannelFeaturesBit`].
#[derive(Debug, Clone, Copy, PartialEq, Eq)]
pub struct ChannelFeatures(pub u32);

/// A feature that a channel may advertise to the host.
#[derive(Debug, Clone, Copy, PartialEq, Eq)]
pub enum ChannelFeaturesBit {
    ListenOnly,
    Loopback,
    TripleSample,
    OneShot,
    HwTimestamp,
    Identify,
    UserId,
    PadPktsToMaxPktSize,
    Fd,
    ReqUsbQuirkLpc546xx,
    BtConstExt,
}

/// The bounds inside which the host may choose a bit timing.
#[derive(Debug, Clone, Copy, PartialEq, Eq)]
pub struct ChannelConstraints {
    pub tseg1_min: u32,
    pub tseg1_max: u32,
    pub tseg2_min: u32,
    pub tseg2_max: u32,
    pub sjw_max: u32,
    pub brp_min: u32,
    pub brp_max: u32,
    pub brp_inc: u32,
}

impl ChannelFeaturesBit {
    /// Where the feature's bit stands in the feature word.
    pub open spec fn position(self) -> u32 {
        match self {
            ChannelFeaturesBit::ListenOnly => 0,
            ChannelFeaturesBit::Loopback => 1,
            ChannelFeaturesBit::TripleSample => 2,
            ChannelFeaturesBit::OneShot => 3,
            ChannelFeaturesBit::HwTimestamp => 4,
            ChannelFeaturesBit::Identify => 5,
            ChannelFeaturesBit::UserId => 6,
            ChannelFeaturesBit::PadPktsToMaxPktSize => 7,
            ChannelFeaturesBit::Fd => 8,
            ChannelFeaturesBit::ReqUsbQuirkLpc546xx => 9,
            ChannelFeaturesBit::BtConstExt => 10,
        }
    }

    /// The feature word that advertises this feature alone.
    pub open spec fn spec_mask(self) -> u32 {
        bit32(self.position())
    }

    /// The feature word that advertises this feature alone.
    #[verifier::when_used_as_spec(spec_mask)]
    pub fn mask(self) -> (m: u32)
        ensures
            m == self.spec_mask(),
    {
        match self {
            ChannelFeaturesBit::ListenOnly => 1u32 << 0,
            ChannelFeaturesBit::Loopback => 1u32 << 1,
            ChannelFeaturesBit::TripleSample => 1u32 << 2,
            ChannelFeaturesBit::OneShot => 1u32 << 3,
            ChannelFeaturesBit::HwTimestamp => 1u32 << 4,
            ChannelFeaturesBit::Identify => 1u32 << 5,
            ChannelFeaturesBit::UserId => 1u32 << 6,
            ChannelFeaturesBit::PadPktsToMaxPktSize => 1u32 << 7,
            ChannelFeaturesBit::Fd => 1u32 << 8,
            ChannelFeaturesBit::ReqUsbQuirkLpc546xx => 1u32 << 9,
            ChannelFeaturesBit::BtConstExt => 1u32 << 10,
        }
    }
}

impl ChannelFeatures {
    /// The positions that a list of features names.
    pub open spec fn positions(bits: Seq<ChannelFeaturesBit>) -> Seq<u32> {
        bits.map_values(|b: ChannelFeaturesBit| b.position())
    }

    /// Whether the word advertises `bit`.
    pub open spec fn has(&self, bit: ChannelFeaturesBit) -> bool {
        self.0 & bit.spec_mask() != 0
    }

    /// The feature word that advertises exactly the listed features.
    pub fn new(bits: &[ChannelFeaturesBit]) -> (r: Self)
        ensures
            r.0 == union32(Self::positions(bits@)),
            forall|b: ChannelFeaturesBit| r.has(b) <==> bits@.contains(b),
    {
        let ghost f = |b: ChannelFeaturesBit| b.position();
        let mut word: u32 = 0;
        let mut i: usize = 0;
        while i < bits.len()
            invariant
                i <= bits.len(),
                f == (|b: ChannelFeaturesBit| b.position()),
                word == union32(bits@.take(i as int).map_values(f)),
            decreases bits.len() - i,
        {
            proof {
                lemma_union32_step(bits@, f, i as int);
            }
            word = word | bits[i].mask();
            i = i + 1;
        }
        proof {
            assert(bits@.take(bits@.len() as int) =~= bits@);
            assert forall|b: ChannelFeaturesBit|
                (word & b.spec_mask() != 0) <==> bits@.contains(b) by {
                lemma_union32_has(bits@.map_values(f), b.position());
                lemma_positions_contain(bits@, f, b);
            }
        }
        ChannelFeatures(word)
    }

    /// Whether the word advertises `bit`.
    pub fn is_set(&self, bit: ChannelFeaturesBit) -> (r: bool)
        ensures
            r == self.has(bit),
    {
        self.0 & bit.mask() != 0
    }
}

impl ChannelConstraints {
    /// The length in bytes of the constraints on the wire.
    pub const SIZE: usize = 32;

    /// The wire form of the constraints: eight little-endian words, in the
    /// order of the fields.
    pub open spec fn spec_bytes(&self) -> Seq<u8> {
        le_bytes(self.tseg1_min) + le_bytes(self.tseg1_max) + le_bytes(self.tseg2_min) + le_bytes(
            self.tseg2_max,
        ) + le_bytes(self.sjw_max) + le_bytes(self.brp_min) + le_bytes(self.brp_max) + le_bytes(
            self.brp_inc,
        )
    }

    /// Writes the wire form of the constraints over the bytes of `dst` from
    /// `offset` on.
    pub(crate) fn write_to(&self, dst: &mut Vec<u8>, offset: usize)
        requires
            offset + Self::SIZE <= old(dst).len(),
        ensures
            final(dst)@ == overwrite(old(dst)@, offset as int, self.spec_bytes()),
    {
        write_u32_le(dst, offset, self.tseg1_min);
        write_u32_le(dst, offset + 4, self.tseg1_max);
        write_u32_le(dst, offset + 8, self.tseg2_min);
        write_u32_le(dst, offset + 12, self.tseg2_max);
        write_u32_le(dst, offset + 16, self.sjw_max);
        write_u32_le(dst, offset + 20, self.brp_min);
        write_u32_le(dst, offset + 24, self.brp_max);
        write_u32_le(dst, offset + 28, self.brp_inc);
    }
}

} // verus!
