use crate::bits::{
    bit32, bit8, lemma_or_then_and32, lemma_or_then_and8, lemma_bit8_distinct,
    lemma_positions_contain, lemma_union32_has, lemma_union32_step, lemma_union8_has,
    lemma_union8_step, union32, union8,
};
use crate::codec::{
    le_bytes, le_u32, lemma_le_bytes_of_le_u32, lemma_le_u32_of_le_bytes, read_u32_le,
    write_u32_le, zeroed, DecodeError,
};
use vstd::prelude::*;

verus! {

/// The length in bytes of a frame on the wire. The host driver expects
/// exactly this length.
pub const FRAME_SIZE: usize = 76;

/// The length in bytes of the payload field of a frame.
pub const DATA_SIZE: usize = 64;

/// The echo marker of a frame that comes from the bus and answers no
/// transmit request of the host.
pub const NOT_AN_ECHO: u32 = 0xFFFF_FFFF;

/// The part of a packed identifier that holds the CAN identifier itself.
pub const ID_MASK: u32 = 0x1FFF_FFFF;

/// A CAN frame as the host sends and receives it.
#[derive(Debug, Clone, Copy, PartialEq, Eq)]
pub struct HostFrame {
    pub echo_id: u32,
    pub can_id: HostCanId,
    pub can_dlc: u8,
    pub channel: u8,
    pub flags: HostFrameFlags,
    pub reserved: u8,
    pub bytes: [u8; 64],
}

/// A CAN identifier in its low 29 bits, and above it one bit for each
/// [`HostCanIdBits`].
#[derive(Debug, Clone, Copy, PartialEq, Eq)]
pub struct HostCanId(pub u32);

/// A flag carried above the identifier.
#[derive(Debug, Clone, Copy, PartialEq, Eq)]
pub enum HostCanIdBits {
    ErrorFrame,
    RemoteFrame,
    ExtendedId,
}

/// The flags byte of a frame, one bit for each [`HostFrameFlagsBits`].
#[derive(Debug, Clone, Copy, PartialEq, Eq)]
pub struct HostFrameFlags(pub u8);

/// A flag of the flags byte.
#[derive(Debug, Clone, Copy, PartialEq, Eq)]
pub enum HostFrameFlagsBits {
    Overflow,
    Fd,
    Brs,
    Esi,
}

/// What a [`HostFrame`] says, field by field, with the payload as a sequence
/// of 64 bytes.
pub struct HostFrameView {
    pub echo_id: u32,
    pub can_id: u32,
    pub can_dlc: u8,
    pub channel: u8,
    pub flags: u8,
    pub reserved: u8,
    pub data: Seq<u8>,
}

impl View for HostFrame {
    type V = HostFrameView;

    open spec fn view(&self) -> HostFrameView {
        HostFrameView {
            echo_id: self.echo_id,
            can_id: self.can_id.0,
            can_dlc: self.can_dlc,
            channel: self.channel,
            flags: self.flags.0,
            reserved: self.reserved,
            data: self.bytes@,
        }
    }
}

/// The wire form of a frame: echo marker and packed identifier as
/// little-endian words, then length code, channel, flags and the reserved
/// byte, then the payload.
pub open spec fn frame_bytes(v: HostFrameView) -> Seq<u8> {
    le_bytes(v.echo_id) + le_bytes(v.can_id) + seq![v.can_dlc, v.channel, v.flags, v.reserved]
        + v.data
}

/// The frame that the first [`FRAME_SIZE`] bytes of `b` spell.
pub open spec fn frame_of_bytes(b: Seq<u8>) -> HostFrameView {
    HostFrameView {
        echo_id: le_u32(b.subrange(0, 4)),
        can_id: le_u32(b.subrange(4, 8)),
        can_dlc: b[8],
        channel: b[9],
        flags: b[10],
        reserved: b[11],
        data: b.subrange(12, FRAME_SIZE as int),
    }
}

/// A frame survives the wire: reading what was written gives it again.
pub proof fn lemma_frame_of_frame_bytes(v: HostFrameView)
    requires
        v.data.len() == DATA_SIZE,
    ensures
        frame_bytes(v).len() == FRAME_SIZE,
        frame_of_bytes(frame_bytes(v)) == v,
{
    lemma_le_u32_of_le_bytes(v.echo_id);
    lemma_le_u32_of_le_bytes(v.can_id);
    assert(frame_bytes(v).subrange(12, FRAME_SIZE as int) =~= v.data);
}

/// The wire survives a frame: writing what was read gives the bytes again.
pub proof fn lemma_frame_bytes_of_frame(b: Seq<u8>)
    requires
        b.len() == FRAME_SIZE,
    ensures
        frame_of_bytes(b).data.len() == DATA_SIZE,
        frame_bytes(frame_of_bytes(b)) == b,
{
    lemma_le_bytes_of_le_u32(b.subrange(0, 4));
    lemma_le_bytes_of_le_u32(b.subrange(4, 8));
}

/// Two frames that say the same are the same.
pub proof fn lemma_frame_view_injective(a: HostFrame, b: HostFrame)
    requires
        a@ == b@,
    ensures
        a == b,
{
    assert(a.bytes == b.bytes);
}

impl HostFrame {
    /// A frame from its parts. Without an echo marker the frame is marked as
    /// coming from the bus.
    pub fn new(
        echo_id: Option<u32>,
        can_id: HostCanId,
        can_dlc: u8,
        channel: u8,
        flags: HostFrameFlags,
        bytes: [u8; 64],
    ) -> (r: Self)
        ensures
            r == (HostFrame {
                echo_id: match echo_id {
                    Some(e) => e,
                    None => NOT_AN_ECHO,
                },
                can_id,
                can_dlc,
                channel,
                flags,
                reserved: 0,
                bytes,
            }),
    {
        let echo_id: u32 = match echo_id {
            Some(e) => e,
            None => NOT_AN_ECHO,
        };
        HostFrame { echo_id, can_id, can_dlc, channel, flags, reserved: 0, bytes }
    }

    /// Reads a frame from the first [`FRAME_SIZE`] bytes of `bytes`. Every
    /// such byte string spells a frame.
    pub fn unpack(bytes: &[u8]) -> (r: Result<HostFrame, DecodeError>)
        ensures
            r is Ok <==> bytes@.len() >= FRAME_SIZE,
            r matches Ok(f) ==> f@ == frame_of_bytes(bytes@),
            r matches Err(e) ==> e == DecodeError::Truncated,
    {
        if bytes.len() < FRAME_SIZE {
            return Err(DecodeError::Truncated);
        }
        let echo_id: u32 = read_u32_le(bytes, 0)?;
        let can_id: u32 = read_u32_le(bytes, 4)?;
        let mut data: [u8; 64] = [0u8; 64];
        let mut i: usize = 0;
        while i < DATA_SIZE
            invariant
                i <= DATA_SIZE,
                bytes@.len() >= FRAME_SIZE,
                forall|k: int| 0 <= k < i ==> data@[k] == bytes@[12 + k],
            decreases DATA_SIZE - i,
        {
            data[i] = bytes[12 + i];
            i = i + 1;
        }
        assert(data@ =~= bytes@.subrange(12, FRAME_SIZE as int));
        Ok(
            HostFrame {
                echo_id,
                can_id: HostCanId(can_id),
                can_dlc: bytes[8],
                channel: bytes[9],
                flags: HostFrameFlags(bytes[10]),
                reserved: bytes[11],
                bytes: data,
            },
        )
    }

    /// The wire form of the frame.
    pub fn pack(&self) -> (r: Vec<u8>)
        ensures
            r@ == frame_bytes(self@),
            r@.len() == FRAME_SIZE,
    {
        let mut out: Vec<u8> = zeroed(FRAME_SIZE);
        write_u32_le(&mut out, 0, self.echo_id);
        write_u32_le(&mut out, 4, self.can_id.0);
        out[8] = self.can_dlc;
        out[9] = self.channel;
        out[10] = self.flags.0;
        out[11] = self.reserved;
        let mut i: usize = 0;
        while i < DATA_SIZE
            invariant
                i <= DATA_SIZE,
                out@.len() == FRAME_SIZE,
                out@.subrange(0, 12) == le_bytes(self.echo_id) + le_bytes(self.can_id.0)
                    + seq![self.can_dlc, self.channel, self.flags.0, self.reserved],
                forall|k: int| 0 <= k < i ==> out@[12 + k] == self.bytes@[k],
            decreases DATA_SIZE - i,
        {
            out[12 + i] = self.bytes[i];
            i = i + 1;
        }
        out
    }
}

impl HostCanIdBits {
    /// Where the flag's bit stands in the packed identifier.
    pub open spec fn position(self) -> u32 {
        match self {
            HostCanIdBits::ErrorFrame => 29,
            HostCanIdBits::RemoteFrame => 30,
            HostCanIdBits::ExtendedId => 31,
        }
    }

    /// The word in which this flag alone is set.
    pub open spec fn spec_mask(self) -> u32 {
        bit32(self.position())
    }

    /// The word in which this flag alone is set.
    #[verifier::when_used_as_spec(spec_mask)]
    pub fn mask(self) -> (m: u32)
        ensures
            m == self.spec_mask(),
    {
        match self {
            HostCanIdBits::ErrorFrame => 1u32 << 29,
            HostCanIdBits::RemoteFrame => 1u32 << 30,
            HostCanIdBits::ExtendedId => 1u32 << 31,
        }
    }
}

proof fn lemma_flag_above_id(x: u32, p: u32)
    by (bit_vector)
    requires
        29 <= p < 32,
    ensures
        (x & 0x1FFF_FFFFu32) & (1u32 << p) == 0,
        (x | (1u32 << p)) & 0x1FFF_FFFFu32 == x & 0x1FFF_FFFFu32,
        (x & 0x1FFF_FFFFu32) & 0x1FFF_FFFFu32 == x & 0x1FFF_FFFFu32,
        x | 0u32 == x,
{
}

impl HostCanId {
    /// The positions that a list of flags names.
    pub open spec fn positions(bits: Seq<HostCanIdBits>) -> Seq<u32> {
        bits.map_values(|b: HostCanIdBits| b.position())
    }

    /// The CAN identifier itself, without the flags.
    pub open spec fn spec_id(&self) -> u32 {
        self.0 & ID_MASK
    }

    /// Whether `bit` is set.
    pub open spec fn has(&self, bit: HostCanIdBits) -> bool {
        self.0 & bit.spec_mask() != 0
    }

    /// Packs the low 29 bits of `raw_id` with exactly the listed flags.
    pub fn new(raw_id: u32, bits: &[HostCanIdBits]) -> (r: Self)
        ensures
            r.0 == (raw_id & ID_MASK) | union32(Self::positions(bits@)),
            r.spec_id() == raw_id & ID_MASK,
            forall|b: HostCanIdBits| r.has(b) <==> bits@.contains(b),
    {
        let ghost f = |b: HostCanIdBits| b.position();
        let mut word: u32 = raw_id & ID_MASK;
        let mut i: usize = 0;
        proof {
            lemma_flag_above_id(raw_id, 29);
            lemma_flag_above_id(raw_id & ID_MASK, 29);
        }
        while i < bits.len()
            invariant
                i <= bits.len(),
                f == (|b: HostCanIdBits| b.position()),
                word == (raw_id & ID_MASK) | union32(bits@.take(i as int).map_values(f)),
                word & ID_MASK == raw_id & ID_MASK,
            decreases bits.len() - i,
        {
            proof {
                lemma_union32_step(bits@, f, i as int);
                lemma_flag_above_id(word, bits@[i as int].position());
                lemma_or_assoc32(
                    raw_id & ID_MASK,
                    union32(bits@.take(i as int).map_values(f)),
                    bit32(bits@[i as int].position()),
                );
            }
            word = word | bits[i].mask();
            i = i + 1;
        }
        proof {
            assert(bits@.take(bits@.len() as int) =~= bits@);
            assert forall|b: HostCanIdBits| (word & b.spec_mask() != 0) <==> bits@.contains(b) by {
                lemma_union32_has(bits@.map_values(f), b.position());
                lemma_positions_contain(bits@, f, b);
                lemma_or_then_and32(
                    raw_id & ID_MASK,
                    union32(bits@.map_values(f)),
                    bit32(b.position()),
                );
                lemma_flag_above_id(raw_id, b.position());
            }
        }
        HostCanId(word)
    }

    /// The CAN identifier itself, without the flags.
    pub fn id(&self) -> (r: u32)
        ensures
            r == self.spec_id(),
            r <= ID_MASK,
    {
        proof {
            lemma_id_bounded(self.0);
        }
        self.0 & ID_MASK
    }

    /// Whether `bit` is set.
    pub fn is_set(&self, bit: HostCanIdBits) -> (r: bool)
        ensures
            r == self.has(bit),
    {
        self.0 & bit.mask() != 0
    }
}

proof fn lemma_or_assoc32(a: u32, b: u32, c: u32)
    by (bit_vector)
    ensures
        (a | b) | c == a | (b | c),
{
}

/// An identifier without its flags fits in 29 bits.
pub proof fn lemma_id_bounded(x: u32)
    by (bit_vector)
    ensures
        x & 0x1FFF_FFFFu32 <= 0x1FFF_FFFFu32,
{
}

impl HostFrameFlagsBits {
    /// Where the flag's bit stands in the flags byte.
    pub open spec fn position(self) -> u8 {
        match self {
            HostFrameFlagsBits::Overflow => 0,
            HostFrameFlagsBits::Fd => 1,
            HostFrameFlagsBits::Brs => 2,
            HostFrameFlagsBits::Esi => 3,
        }
    }

    /// The byte in which this flag alone is set.
    pub open spec fn spec_mask(self) -> u8 {
        bit8(self.position())
    }

    /// The byte in which this flag alone is set.
    #[verifier::when_used_as_spec(spec_mask)]
    pub fn mask(self) -> (m: u8)
        ensures
            m == self.spec_mask(),
    {
        match self {
            HostFrameFlagsBits::Overflow => 1u8 << 0,
            HostFrameFlagsBits::Fd => 1u8 << 1,
            HostFrameFlagsBits::Brs => 1u8 << 2,
            HostFrameFlagsBits::Esi => 1u8 << 3,
        }
    }
}

impl HostFrameFlags {
    /// The positions that a list of flags names.
    pub open spec fn positions(bits: Seq<HostFrameFlagsBits>) -> Seq<u8> {
        bits.map_values(|b: HostFrameFlagsBits| b.position())
    }

    /// Whether `bit` is set.
    pub open spec fn has(&self, bit: HostFrameFlagsBits) -> bool {
        self.0 & bit.spec_mask() != 0
    }

    /// The flags byte in which exactly the listed flags are set.
    pub fn new(bits: &[HostFrameFlagsBits]) -> (r: Self)
        ensures
            r.0 == union8(Self::positions(bits@)),
            forall|b: HostFrameFlagsBits| r.has(b) <==> bits@.contains(b),
    {
        let ghost f = |b: HostFrameFlagsBits| b.position();
        let mut byte: u8 = 0;
        let mut i: usize = 0;
        while i < bits.len()
            invariant
                i <= bits.len(),
                f == (|b: HostFrameFlagsBits| b.position()),
                byte == union8(bits@.take(i as int).map_values(f)),
            decreases bits.len() - i,
        {
            proof {
                lemma_union8_step(bits@, f, i as int);
            }
            byte = byte | bits[i].mask();
            i = i + 1;
        }
        proof {
            assert(bits@.take(bits@.len() as int) =~= bits@);
            assert forall|b: HostFrameFlagsBits|
                (byte & b.spec_mask() != 0) <==> bits@.contains(b) by {
                lemma_union8_has(bits@.map_values(f), b.position());
                lemma_positions_contain(bits@, f, b);
            }
        }
        HostFrameFlags(byte)
    }

    /// Whether `bit` is set.
    pub fn is_set(&self, bit: HostFrameFlagsBits) -> (r: bool)
        ensures
            r == self.has(bit),
    {
        self.0 & bit.mask() != 0
    }

    /// Sets `bit` and leaves the other flags as they are.
    pub fn set(&mut self, bit: HostFrameFlagsBits)
        ensures
            final(self).0 == old(self).0 | bit.spec_mask(),
            forall|b: HostFrameFlagsBits|
                #[trigger] final(self).has(b) <==> old(self).has(b) || b == bit,
    {
        self.0 = self.0 | bit.mask();
        proof {
            assert forall|b: HostFrameFlagsBits| #[trigger]
                self.has(b) <==> old(self).has(b) || b == bit by {
                lemma_or_then_and8(old(self).0, bit.spec_mask(), b.spec_mask());
                lemma_bit8_distinct(bit.position(), b.position());
            }
        }
    }
}

} // verus!
