use crate::bits::{bit32, union32};
use crate::frame::{
    HostCanId, HostCanIdBits, HostFrame, HostFrameFlags, HostFrameView, DATA_SIZE, ID_MASK,
    NOT_AN_ECHO,
};
use vstd::prelude::*;
use vstd::slice::slice_subrange;

verus! {

/// The largest standard (11-bit) identifier.
pub const STANDARD_ID_MAX: u32 = 0x7FF;

/// The largest extended (29-bit) identifier.
pub const EXTENDED_ID_MAX: u32 = 0x1FFF_FFFF;

/// The largest number of payload bytes of a classic CAN frame.
pub const CLASSIC_DATA_MAX: usize = 8;

/// Turns a frame of the bus into a frame for the host.
pub trait ToHostFrame {
    fn to_host_frame(&self, channel: u8) -> HostFrame;
}

/// Turns a frame of the host into a frame for the bus, where there is one.
pub trait FromHostFrame: Sized {
    fn from_host_frame(frame: &HostFrame) -> Option<Self>;
}

/// A CAN identifier: standard (11 bits) or extended (29 bits).
#[derive(Debug, Clone, Copy, PartialEq, Eq)]
pub struct CanId {
    raw: u32,
    extended: bool,
}

/// A classic CAN frame as the transceiver sends and receives it: a data
/// frame with up to eight bytes, or a remote request, which has a length
/// code and no bytes.
#[derive(Debug, Clone, Copy, PartialEq, Eq)]
pub struct CanFrame {
    id: CanId,
    remote: bool,
    dlc: u8,
    data: [u8; 8],
}

/// What a [`CanFrame`] says. `data` holds as many bytes as the length code
/// tells; in a remote request they are zero.
pub struct CanFrameView {
    pub id: u32,
    pub extended: bool,
    pub remote: bool,
    pub dlc: u8,
    pub data: Seq<u8>,
}

/// `len` zero bytes.
pub open spec fn zeros(len: int) -> Seq<u8> {
    Seq::new(len as nat, |i: int| 0u8)
}

/// Whether an identifier of the given kind can have the value `raw`.
pub open spec fn valid_id(raw: u32, extended: bool) -> bool {
    raw <= if extended {
        EXTENDED_ID_MAX
    } else {
        STANDARD_ID_MAX
    }
}

/// Whether a classic CAN frame can say this.
pub open spec fn valid_frame(v: CanFrameView) -> bool {
    &&& valid_id(v.id, v.extended)
    &&& v.dlc <= CLASSIC_DATA_MAX
    &&& v.data.len() == v.dlc
    &&& v.remote ==> v.data == zeros(v.dlc as int)
}

/// The flags that stand above the identifier of a frame for the host.
pub open spec fn id_flags(extended: bool, remote: bool) -> u32 {
    if extended && remote {
        bit32(30) | bit32(31)
    } else if extended {
        bit32(31)
    } else if remote {
        bit32(30)
    } else {
        0
    }
}

/// The frame for the host that tells of a frame of the bus, received on
/// `channel`: the identifier packed with its kind and the kind of the
/// frame, no echo marker, no flags, and the payload filled up with zeros.
pub open spec fn host_frame_of(v: CanFrameView, channel: u8) -> HostFrameView {
    HostFrameView {
        echo_id: NOT_AN_ECHO,
        can_id: v.id | id_flags(v.extended, v.remote),
        can_dlc: v.dlc,
        channel,
        flags: 0,
        reserved: 0,
        data: v.data + zeros(DATA_SIZE - v.dlc),
    }
}

/// The frame for the bus that a frame of the host asks for: none where
/// the length code is more than eight, or the identifier is marked as
/// standard and does not fit in eleven bits.
pub open spec fn can_frame_of(h: HostFrameView) -> Option<CanFrameView> {
    let extended = h.can_id & bit32(31) != 0;
    let remote = h.can_id & bit32(30) != 0;
    let id = h.can_id & ID_MASK;
    if h.can_dlc > CLASSIC_DATA_MAX || !valid_id(id, extended) {
        None
    } else {
        Some(
            CanFrameView {
                id,
                extended,
                remote,
                dlc: h.can_dlc,
                data: if remote {
                    zeros(h.can_dlc as int)
                } else {
                    h.data.take(h.can_dlc as int)
                },
            },
        )
    }
}

proof fn lemma_packed_id(id: u32)
    by (bit_vector)
    requires
        id <= 0x1FFF_FFFFu32,
    ensures
        id & 0x1FFF_FFFFu32 == id,
        (id | ((1u32 << 30) | (1u32 << 31))) & 0x1FFF_FFFFu32 == id,
        (id | (1u32 << 31)) & 0x1FFF_FFFFu32 == id,
        (id | (1u32 << 30)) & 0x1FFF_FFFFu32 == id,
        (id | 0u32) == id,
        (id | ((1u32 << 30) | (1u32 << 31))) & (1u32 << 31) != 0,
        (id | ((1u32 << 30) | (1u32 << 31))) & (1u32 << 30) != 0,
        (id | (1u32 << 31)) & (1u32 << 31) != 0,
        (id | (1u32 << 31)) & (1u32 << 30) == 0,
        (id | (1u32 << 30)) & (1u32 << 31) == 0,
        (id | (1u32 << 30)) & (1u32 << 30) != 0,
        id & (1u32 << 31) == 0,
        id & (1u32 << 30) == 0,
        (id & 0x1FFF_FFFFu32) | ((0u32 | (1u32 << 30)) | (1u32 << 31)) == id | ((1u32 << 30) | (
        1u32 << 31)),
        (id & 0x1FFF_FFFFu32) | (0u32 | (1u32 << 31)) == id | (1u32 << 31),
        (id & 0x1FFF_FFFFu32) | (0u32 | (1u32 << 30)) == id | (1u32 << 30),
        (id & 0x1FFF_FFFFu32) | 0u32 == id | 0u32,
{
}

/// Translating a frame of the bus for the host and back gives the frame
/// again: its identifier and the identifier's kind, whether it is a
/// remote request, its length code and its payload.
pub proof fn lemma_round_trip(v: CanFrameView, channel: u8)
    requires
        valid_frame(v),
    ensures
        can_frame_of(host_frame_of(v, channel)) == Some(v),
{
    lemma_packed_id(v.id);
    assert(can_frame_of(host_frame_of(v, channel))->0.data =~= v.data);
}

impl CanId {
    /// The identifier's value.
    pub closed spec fn spec_raw(&self) -> u32 {
        self.raw
    }

    /// Whether the identifier is an extended one.
    pub closed spec fn spec_extended(&self) -> bool {
        self.extended
    }

    #[verifier::type_invariant]
    spec fn well_formed(&self) -> bool {
        valid_id(self.raw, self.extended)
    }

    /// The standard identifier with the value `raw`, if there is one.
    pub fn standard(raw: u16) -> (r: Option<CanId>)
        ensures
            r is Some <==> raw <= STANDARD_ID_MAX,
            r matches Some(id) ==> id.spec_raw() == raw && !id.spec_extended(),
    {
        if raw as u32 <= STANDARD_ID_MAX {
            Some(CanId { raw: raw as u32, extended: false })
        } else {
            None
        }
    }

    /// The extended identifier with the value `raw`, if there is one.
    pub fn extended(raw: u32) -> (r: Option<CanId>)
        ensures
            r is Some <==> raw <= EXTENDED_ID_MAX,
            r matches Some(id) ==> id.spec_raw() == raw && id.spec_extended(),
    {
        if raw <= EXTENDED_ID_MAX {
            Some(CanId { raw, extended: true })
        } else {
            None
        }
    }

    /// The identifier's value.
    pub fn raw(&self) -> (r: u32)
        ensures
            r == self.spec_raw(),
            valid_id(r, self.spec_extended()),
    {
        proof {
            use_type_invariant(self);
        }
        self.raw
    }

    /// Whether the identifier is an extended one.
    pub fn is_extended(&self) -> (r: bool)
        ensures
            r == self.spec_extended(),
    {
        self.extended
    }
}

impl View for CanFrame {
    type V = CanFrameView;

    closed spec fn view(&self) -> CanFrameView {
        CanFrameView {
            id: self.id.spec_raw(),
            extended: self.id.spec_extended(),
            remote: self.remote,
            dlc: self.dlc,
            data: self.data@.take(self.dlc as int),
        }
    }
}

impl CanFrame {
    #[verifier::type_invariant]
    spec fn well_formed(&self) -> bool {
        &&& valid_id(self.id.spec_raw(), self.id.spec_extended())
        &&& self.dlc <= CLASSIC_DATA_MAX
        &&& forall|i: int| self.dlc <= i < CLASSIC_DATA_MAX ==> self.data@[i] == 0
        &&& self.remote ==> forall|i: int| 0 <= i < CLASSIC_DATA_MAX ==> self.data@[i] == 0
    }

    /// The data frame with the given payload, if it has at most eight
    /// bytes.
    pub fn new(id: CanId, data: &[u8]) -> (r: Option<CanFrame>)
        ensures
            r is Some <==> data@.len() <= CLASSIC_DATA_MAX,
            r matches Some(f) ==> f@ == (CanFrameView {
                id: id.spec_raw(),
                extended: id.spec_extended(),
                remote: false,
                dlc: data@.len() as u8,
                data: data@,
            }) && valid_frame(f@),
    {
        if data.len() > CLASSIC_DATA_MAX {
            return None;
        }
        proof {
            use_type_invariant(id);
        }
        let mut bytes: [u8; 8] = [0u8; 8];
        let mut i: usize = 0;
        while i < data.len()
            invariant
                i <= data.len() <= CLASSIC_DATA_MAX,
                forall|k: int| 0 <= k < i ==> bytes@[k] == data@[k],
                forall|k: int| i <= k < CLASSIC_DATA_MAX ==> bytes@[k] == 0,
            decreases data.len() - i,
        {
            bytes[i] = data[i];
            i = i + 1;
        }
        let frame = CanFrame { id, remote: false, dlc: data.len() as u8, data: bytes };
        assert(frame@.data =~= data@);
        Some(frame)
    }

    /// The remote request with the given length code, if it is at most
    /// eight.
    pub fn new_remote(id: CanId, dlc: usize) -> (r: Option<CanFrame>)
        ensures
            r is Some <==> dlc <= CLASSIC_DATA_MAX,
            r matches Some(f) ==> f@ == (CanFrameView {
                id: id.spec_raw(),
                extended: id.spec_extended(),
                remote: true,
                dlc: dlc as u8,
                data: zeros(dlc as int),
            }) && valid_frame(f@),
    {
        if dlc > CLASSIC_DATA_MAX {
            return None;
        }
        proof {
            use_type_invariant(id);
        }
        let frame = CanFrame { id, remote: true, dlc: dlc as u8, data: [0u8; 8] };
        assert(frame@.data =~= zeros(dlc as int));
        Some(frame)
    }

    /// The identifier.
    pub fn id(&self) -> (r: CanId)
        ensures
            r.spec_raw() == self@.id,
            r.spec_extended() == self@.extended,
    {
        self.id
    }

    /// Whether the identifier is an extended one.
    pub fn is_extended(&self) -> (r: bool)
        ensures
            r == self@.extended,
    {
        self.id.is_extended()
    }

    /// Whether the frame is a remote request.
    pub fn is_remote_frame(&self) -> (r: bool)
        ensures
            r == self@.remote,
    {
        self.remote
    }

    /// The length code.
    pub fn dlc(&self) -> (r: usize)
        ensures
            r == self@.dlc,
            r <= CLASSIC_DATA_MAX,
    {
        proof {
            use_type_invariant(self);
        }
        self.dlc as usize
    }

    /// The payload: as many bytes as the length code tells.
    pub fn data(&self) -> (r: &[u8])
        ensures
            r@ == self@.data,
            valid_frame(self@),
    {
        proof {
            use_type_invariant(self);
            use_type_invariant(self.id);
        }
        let r = slice_subrange(self.data.as_slice(), 0, self.dlc as usize);
        assert(self.remote ==> self@.data =~= zeros(self.dlc as int));
        r
    }
}

impl ToHostFrame for CanFrame {
    /// The frame for the host that tells of this frame, received on
    /// `channel`. It is one that translates back to this frame.
    fn to_host_frame(&self, channel: u8) -> (r: HostFrame)
        ensures
            r@ == host_frame_of(self@, channel),
            can_frame_of(r@) == Some(self@),
    {
        let flags = HostFrameFlags::new(&[]);
        let raw: u32 = self.id.raw();
        let can_id = match (self.id.is_extended(), self.remote) {
            (false, true) => HostCanId::new(raw, &[HostCanIdBits::RemoteFrame]),
            (false, false) => HostCanId::new(raw, &[]),
            (true, true) => HostCanId::new(
                raw,
                &[HostCanIdBits::RemoteFrame, HostCanIdBits::ExtendedId],
            ),
            (true, false) => HostCanId::new(raw, &[HostCanIdBits::ExtendedId]),
        };
        let payload = self.data();
        let mut bytes: [u8; 64] = [0u8; 64];
        let mut i: usize = 0;
        while i < payload.len()
            invariant
                i <= payload.len() <= CLASSIC_DATA_MAX,
                forall|k: int| 0 <= k < i ==> bytes@[k] == payload@[k],
                forall|k: int| i <= k < DATA_SIZE ==> bytes@[k] == 0,
            decreases payload.len() - i,
        {
            bytes[i] = payload[i];
            i = i + 1;
        }
        proof {
            reveal_with_fuel(union32, 3);
            lemma_packed_id(raw);
            assert(bytes@ =~= self@.data + zeros(DATA_SIZE - self@.dlc));
            lemma_round_trip(self@, channel);
        }
        HostFrame::new(None, can_id, self.dlc, channel, flags, bytes)
    }
}

impl FromHostFrame for CanFrame {
    /// The frame for the bus that `frame` asks for, if there is one.
    fn from_host_frame(frame: &HostFrame) -> (r: Option<CanFrame>)
        ensures
            match can_frame_of(frame@) {
                Some(v) => r matches Some(f) && f@ == v,
                None => r is None,
            },
    {
        let raw: u32 = frame.can_id.id();
        let id: Option<CanId> = if frame.can_id.is_set(HostCanIdBits::ExtendedId) {
            CanId::extended(raw)
        } else if raw <= STANDARD_ID_MAX {
            CanId::standard(raw as u16)
        } else {
            None
        };
        let dlc: usize = frame.can_dlc as usize;
        match id {
            Some(id) => {
                if dlc > CLASSIC_DATA_MAX {
                    None
                } else if frame.can_id.is_set(HostCanIdBits::RemoteFrame) {
                    CanFrame::new_remote(id, dlc)
                } else {
                    let payload = slice_subrange(frame.bytes.as_slice(), 0, dlc);
                    CanFrame::new(id, payload)
                }
            },
            None => None,
        }
    }
}

} // verus!
