use crate::channel_config::{Channel, ChannelConstraints, ChannelFeatures};
use crate::channel_event::{BitTiming, ChannelEvent, ChannelIdentify, ChannelMode};
use crate::codec::{le_bytes, write_u32_le, zeroed};
use vstd::prelude::*;

verus! {

/// The class code of the interface: vendor-specific.
pub const USB_CLASS_GS: u8 = 0xFF;

/// The subclass code of the interface.
pub const GS_SUBCLASS: u8 = 0xFF;

/// The protocol code of the interface.
pub const GS_PROTOCOL: u8 = 0xFF;

/// The kind of a control request.
#[derive(Debug, Clone, Copy, PartialEq, Eq, Structural)]
pub enum RequestType {
    Standard,
    Class,
    Vendor,
    Reserved,
}

/// Whom a control request is meant for.
#[derive(Debug, Clone, Copy, PartialEq, Eq, Structural)]
pub enum Recipient {
    Device,
    Interface,
    Endpoint,
    Other,
    Reserved,
}

/// The setup stage of a control transfer, as far as this class reads it.
#[derive(Debug, Clone, Copy, PartialEq, Eq)]
pub struct ControlRequest {
    pub request_type: RequestType,
    pub recipient: Recipient,
    /// The command code.
    pub request: u8,
    /// The selector: the index of the channel that the command is for.
    pub value: u16,
    /// The number of the interface that the command is for.
    pub index: u16,
}

/// A command of the protocol.
#[derive(Debug, Clone, Copy, PartialEq, Eq, Structural)]
pub enum GsUsbRequest {
    HostFormat,
    BitTiming,
    Mode,
    Berr,
    BtConst,
    DeviceConfig,
    Timestamp,
    Identify,
    GetUserId,
    SetUserId,
    DataBitTiming,
    BtConstExt,
}

/// What is to be done with a control transfer from the host.
#[derive(Debug, Clone, Copy, PartialEq, Eq)]
pub enum ControlOutReply {
    /// The transfer is not for this class: leave it alone.
    Ignored,
    Accepted,
    /// Answer with a protocol stall.
    Rejected,
}

/// What is to be done with a control transfer to the host.
#[derive(Debug, PartialEq, Eq)]
pub enum ControlInReply {
    /// The transfer is not for this class: leave it alone.
    Ignored,
    /// Answer with these bytes.
    Accepted(Vec<u8>),
    /// Answer with a protocol stall.
    Rejected,
}

/// What the device says of itself as a whole.
#[derive(Debug, Clone, Copy, PartialEq, Eq)]
pub struct DeviceConfig {
    pub reserved: [u8; 3],
    /// The number of channels, less one.
    pub icount: u8,
    pub sw_version: u32,
    pub hw_version: u32,
}

/// What a channel says of its classic bit timing.
pub struct BtConst<'a> {
    pub features: &'a ChannelFeatures,
    pub fclk_can: &'a u32,
    pub constraints: &'a ChannelConstraints,
}

/// What a channel says of its classic and its data-phase bit timing.
pub struct BtConstExt<'a> {
    pub features: &'a ChannelFeatures,
    pub fclk_can: &'a u32,
    pub constraints: &'a ChannelConstraints,
    pub data_constraints: &'a ChannelConstraints,
}

impl GsUsbRequest {
    /// The command that a code names, if any.
    pub open spec fn spec_from_raw(raw: u8) -> Option<GsUsbRequest> {
        if raw == 0 {
            Some(GsUsbRequest::HostFormat)
        } else if raw == 1 {
            Some(GsUsbRequest::BitTiming)
        } else if raw == 2 {
            Some(GsUsbRequest::Mode)
        } else if raw == 3 {
            Some(GsUsbRequest::Berr)
        } else if raw == 4 {
            Some(GsUsbRequest::BtConst)
        } else if raw == 5 {
            Some(GsUsbRequest::DeviceConfig)
        } else if raw == 6 {
            Some(GsUsbRequest::Timestamp)
        } else if raw == 7 {
            Some(GsUsbRequest::Identify)
        } else if raw == 8 {
            Some(GsUsbRequest::GetUserId)
        } else if raw == 9 {
            Some(GsUsbRequest::SetUserId)
        } else if raw == 10 {
            Some(GsUsbRequest::DataBitTiming)
        } else if raw == 11 {
            Some(GsUsbRequest::BtConstExt)
        } else {
            None
        }
    }

    /// The command that a code names, if any.
    pub fn from_raw(raw: u8) -> (r: Option<GsUsbRequest>)
        ensures
            r == Self::spec_from_raw(raw),
    {
        match raw {
            0 => Some(GsUsbRequest::HostFormat),
            1 => Some(GsUsbRequest::BitTiming),
            2 => Some(GsUsbRequest::Mode),
            3 => Some(GsUsbRequest::Berr),
            4 => Some(GsUsbRequest::BtConst),
            5 => Some(GsUsbRequest::DeviceConfig),
            6 => Some(GsUsbRequest::Timestamp),
            7 => Some(GsUsbRequest::Identify),
            8 => Some(GsUsbRequest::GetUserId),
            9 => Some(GsUsbRequest::SetUserId),
            10 => Some(GsUsbRequest::DataBitTiming),
            11 => Some(GsUsbRequest::BtConstExt),
            _ => None,
        }
    }
}

impl ControlRequest {
    /// Whether the request is a vendor request to the interface numbered
    /// `interface`.
    pub open spec fn addresses(&self, interface: u8) -> bool {
        &&& self.request_type == RequestType::Vendor
        &&& self.recipient == Recipient::Interface
        &&& self.index == interface as u16
    }

    /// The index of the channel that the request selects.
    pub open spec fn channel(&self) -> usize {
        self.value as usize
    }
}

/// The event that a configuration command carries: none where the code names
/// no configuration command, the selected channel is not among the
/// `channels` channels of the device, or the payload is too short.
pub open spec fn command_event(req: ControlRequest, data: Seq<u8>, channels: nat) -> Option<
    ChannelEvent,
> {
    if req.channel() >= channels {
        None
    } else {
        match GsUsbRequest::spec_from_raw(req.request) {
            Some(GsUsbRequest::BitTiming) => if data.len() >= BitTiming::SIZE {
                Some(ChannelEvent::BitTiming(BitTiming::spec_unpack(data), req.channel()))
            } else {
                None
            },
            Some(GsUsbRequest::DataBitTiming) => if data.len() >= BitTiming::SIZE {
                Some(ChannelEvent::DataBitTiming(BitTiming::spec_unpack(data), req.channel()))
            } else {
                None
            },
            Some(GsUsbRequest::Mode) => if data.len() >= ChannelMode::SIZE {
                Some(ChannelEvent::ChannelMode(ChannelMode::spec_unpack(data), req.channel()))
            } else {
                None
            },
            Some(GsUsbRequest::Identify) => if data.len() >= ChannelIdentify::SIZE {
                Some(ChannelEvent::Identify(ChannelIdentify::spec_unpack(data), req.channel()))
            } else {
                None
            },
            _ => None,
        }
    }
}

/// The answer to a control transfer from the host, received by the interface
/// numbered `interface` of a device with `channels` channels.
pub open spec fn control_out_reply(
    req: ControlRequest,
    data: Seq<u8>,
    interface: u8,
    channels: nat,
) -> ControlOutReply {
    if !req.addresses(interface) {
        ControlOutReply::Ignored
    } else if req.request == 0 {
        ControlOutReply::Accepted
    } else if command_event(req, data, channels) is Some {
        ControlOutReply::Accepted
    } else {
        ControlOutReply::Rejected
    }
}

/// The event that waits to be read after a control transfer from the host,
/// where `pending` waited before it: only a command that is accepted with
/// an event of its own takes the place of what waited. A transfer for
/// someone else, the format negotiation and a command that is rejected
/// leave it.
pub open spec fn pending_after(
    pending: Option<ChannelEvent>,
    req: ControlRequest,
    data: Seq<u8>,
    interface: u8,
    channels: nat,
) -> Option<ChannelEvent> {
    if !req.addresses(interface) || req.request == 0 {
        pending
    } else {
        match command_event(req, data, channels) {
            Some(event) => Some(event),
            None => pending,
        }
    }
}

/// The bytes that answer a read command: none where the code names no read
/// command or the selected channel is not in the table.
pub open spec fn descriptor_bytes(
    req: ControlRequest,
    config: DeviceConfig,
    channels: Seq<Channel>,
) -> Option<Seq<u8>> {
    match GsUsbRequest::spec_from_raw(req.request) {
        Some(GsUsbRequest::DeviceConfig) => Some(config.spec_bytes()),
        Some(GsUsbRequest::BtConst) => if req.channel() < channels.len() {
            Some(bt_const_bytes(channels[req.channel() as int]))
        } else {
            None
        },
        Some(GsUsbRequest::BtConstExt) => if req.channel() < channels.len() {
            Some(bt_const_ext_bytes(channels[req.channel() as int]))
        } else {
            None
        },
        _ => None,
    }
}

/// The classic timing descriptor of a channel: feature word and clock as
/// little-endian words, then the constraints.
pub open spec fn bt_const_bytes(channel: Channel) -> Seq<u8> {
    le_bytes(channel.features.0) + le_bytes(channel.fclk_can) + channel.constraints.spec_bytes()
}

/// The constraints that a channel reports for the data phase: its own where
/// it has any, else the classic ones once more.
pub open spec fn data_phase_constraints(channel: Channel) -> ChannelConstraints {
    match channel.data_constraints {
        Some(c) => c,
        None => channel.constraints,
    }
}

/// The extended timing descriptor of a channel: the classic one, then the
/// constraints of the data phase.
pub open spec fn bt_const_ext_bytes(channel: Channel) -> Seq<u8> {
    bt_const_bytes(channel) + data_phase_constraints(channel).spec_bytes()
}

/// Of the configuration commands that arrive before one is read, only the
/// last one waits: a command that is accepted takes the place of whatever
/// waited, whichever commands came before it.
pub proof fn lemma_mailbox_keeps_last(
    pending: Option<ChannelEvent>,
    first: ControlRequest,
    first_data: Seq<u8>,
    second: ControlRequest,
    second_data: Seq<u8>,
    interface: u8,
    channels: nat,
)
    requires
        second.addresses(interface),
        command_event(second, second_data, channels) is Some,
    ensures
        control_out_reply(second, second_data, interface, channels) == ControlOutReply::Accepted,
        pending_after(
            pending_after(pending, first, first_data, interface, channels),
            second,
            second_data,
            interface,
            channels,
        ) == command_event(second, second_data, channels),
{
}

/// A command that is rejected leaves what waited: only reading takes an
/// event away without putting another in its place.
pub proof fn lemma_mailbox_survives_rejection(
    pending: Option<ChannelEvent>,
    req: ControlRequest,
    data: Seq<u8>,
    interface: u8,
    channels: nat,
)
    requires
        control_out_reply(req, data, interface, channels) == ControlOutReply::Rejected,
    ensures
        pending_after(pending, req, data, interface, channels) == pending,
{
}

impl DeviceConfig {
    /// The wire form of the device configuration: three reserved bytes, the
    /// channel count less one, and the two versions as little-endian words.
    pub open spec fn spec_bytes(&self) -> Seq<u8> {
        seq![self.reserved@[0], self.reserved@[1], self.reserved@[2], self.icount] + le_bytes(
            self.sw_version,
        ) + le_bytes(self.hw_version)
    }

    /// The length in bytes of the device configuration on the wire.
    pub fn size() -> (n: usize)
        ensures
            n == 12,
    {
        12
    }

    /// The wire form of the device configuration.
    pub fn packed(&self) -> (r: Vec<u8>)
        ensures
            r@ == self.spec_bytes(),
            r@.len() == 12,
    {
        let mut out: Vec<u8> = zeroed(DeviceConfig::size());
        out[0] = self.reserved[0];
        out[1] = self.reserved[1];
        out[2] = self.reserved[2];
        out[3] = self.icount;
        write_u32_le(&mut out, 4, self.sw_version);
        write_u32_le(&mut out, 8, self.hw_version);
        out
    }
}

impl<'a> BtConst<'a> {
    /// The length in bytes of the descriptor on the wire.
    pub const SIZE: usize = 40;

    /// The channel that the descriptor describes, as far as it does.
    pub open spec fn describes(&self, channel: Channel) -> bool {
        &&& *self.features == channel.features
        &&& *self.fclk_can == channel.fclk_can
        &&& *self.constraints == channel.constraints
    }

    /// The wire form of the descriptor.
    pub open spec fn spec_bytes(&self) -> Seq<u8> {
        le_bytes(self.features.0) + le_bytes(*self.fclk_can) + self.constraints.spec_bytes()
    }

    /// The classic timing descriptor of `channel`.
    pub fn new(channel: &'a Channel) -> (r: BtConst<'a>)
        ensures
            r.describes(*channel),
            r.spec_bytes() == bt_const_bytes(*channel),
    {
        BtConst {
            features: &channel.features,
            fclk_can: &channel.fclk_can,
            constraints: &channel.constraints,
        }
    }

    /// The wire form of the descriptor.
    pub fn packed(&self) -> (r: Vec<u8>)
        ensures
            r@ == self.spec_bytes(),
            r@.len() == Self::SIZE,
    {
        let mut out: Vec<u8> = zeroed(Self::SIZE);
        write_u32_le(&mut out, 0, self.features.0);
        write_u32_le(&mut out, 4, *self.fclk_can);
        self.constraints.write_to(&mut out, 8);
        out
    }
}

impl<'a> BtConstExt<'a> {
    /// The length in bytes of the descriptor on the wire.
    pub const SIZE: usize = 72;

    /// The channel that the descriptor describes.
    pub open spec fn describes(&self, channel: Channel) -> bool {
        &&& *self.features == channel.features
        &&& *self.fclk_can == channel.fclk_can
        &&& *self.constraints == channel.constraints
        &&& *self.data_constraints == data_phase_constraints(channel)
    }

    /// The wire form of the descriptor.
    pub open spec fn spec_bytes(&self) -> Seq<u8> {
        le_bytes(self.features.0) + le_bytes(*self.fclk_can) + self.constraints.spec_bytes()
            + self.data_constraints.spec_bytes()
    }

    /// The extended timing descriptor of `channel`. A channel without
    /// constraints of its own for the data phase reports the classic ones
    /// in their place.
    pub fn new(channel: &'a Channel) -> (r: BtConstExt<'a>)
        ensures
            r.describes(*channel),
            r.spec_bytes() == bt_const_ext_bytes(*channel),
    {
        match &channel.data_constraints {
            Some(data_constraints) => BtConstExt {
                features: &channel.features,
                fclk_can: &channel.fclk_can,
                constraints: &channel.constraints,
                data_constraints,
            },
            None => BtConstExt {
                features: &channel.features,
                fclk_can: &channel.fclk_can,
                constraints: &channel.constraints,
                data_constraints: &channel.constraints,
            },
        }
    }

    /// The wire form of the descriptor.
    pub fn packed(&self) -> (r: Vec<u8>)
        ensures
            r@ == self.spec_bytes(),
            r@.len() == Self::SIZE,
    {
        let mut out: Vec<u8> = zeroed(Self::SIZE);
        write_u32_le(&mut out, 0, self.features.0);
        write_u32_le(&mut out, 4, *self.fclk_can);
        self.constraints.write_to(&mut out, 8);
        self.data_constraints.write_to(&mut out, 40);
        out
    }
}

/// The control side of the device: it answers the host's questions about
/// the channels and keeps the last configuration command until it is read.
pub struct GsUsbClass<const C: usize> {
    comm_if: u8,
    max_packet_size: u16,
    channels: [Channel; C],
    config: DeviceConfig,
    control_event: Option<ChannelEvent>,
}

impl<const C: usize> GsUsbClass<C> {
    #[verifier::type_invariant]
    spec fn well_formed(&self) -> bool {
        self.control_event matches Some(event) ==> event.spec_channel() < C
    }

    /// The number of the interface that the class answers for.
    pub closed spec fn interface(&self) -> u8 {
        self.comm_if
    }

    /// The largest packet of the bulk endpoints, in bytes.
    pub closed spec fn packet_size(&self) -> u16 {
        self.max_packet_size
    }

    /// The channels of the device, by index.
    pub closed spec fn channel_table(&self) -> Seq<Channel> {
        self.channels@
    }

    /// What the device says of itself as a whole.
    pub closed spec fn config(&self) -> DeviceConfig {
        self.config
    }

    /// The configuration command that waits to be read, if any.
    pub closed spec fn pending(&self) -> Option<ChannelEvent> {
        self.control_event
    }

    /// Whether two states differ at most in the command that waits.
    pub open spec fn same_device(&self, other: &Self) -> bool {
        &&& self.interface() == other.interface()
        &&& self.packet_size() == other.packet_size()
        &&& self.channel_table() == other.channel_table()
        &&& self.config() == other.config()
    }

    /// The class for the interface numbered `interface`, with bulk packets of
    /// at most `max_packet_size` bytes (one of 8, 16, 32 and 64 on a
    /// full-speed device) and the given channels.
    pub fn new(
        interface: u8,
        max_packet_size: u16,
        channels: [Channel; C],
        sw_version: u32,
        hw_version: u32,
    ) -> (r: GsUsbClass<C>)
        requires
            0 < C < 255,
        ensures
            r.interface() == interface,
            r.packet_size() == max_packet_size,
            r.channel_table() == channels@,
            r.channel_table().len() == C,
            r.config().reserved@ == seq![0u8, 0u8, 0u8],
            r.config().icount == C - 1,
            r.config().sw_version == sw_version,
            r.config().hw_version == hw_version,
            r.pending() is None,
    {
        let reserved: [u8; 3] = [0u8; 3];
        GsUsbClass {
            comm_if: interface,
            max_packet_size,
            channels,
            config: DeviceConfig { reserved, icount: (C - 1) as u8, sw_version, hw_version },
            control_event: None,
        }
    }

    /// The largest packet of the bulk endpoints, in bytes.
    pub fn max_packet_size(&self) -> (n: usize)
        ensures
            n == self.packet_size(),
    {
        self.max_packet_size as usize
    }

    /// The number of the interface that the class answers for.
    pub fn interface_number(&self) -> (n: u8)
        ensures
            n == self.interface(),
    {
        self.comm_if
    }

    /// Takes the configuration command that waits, and leaves none. The
    /// command is for a channel of the device.
    pub fn read_control_event(&mut self) -> (r: Option<ChannelEvent>)
        ensures
            r == old(self).pending(),
            r matches Some(event) ==> event.spec_channel() < C,
            final(self).pending() is None,
            final(self).same_device(old(self)),
    {
        proof {
            use_type_invariant(&*self);
        }
        let event = self.control_event;
        self.control_event = None;
        event
    }

    /// Decides a control transfer from the host with the payload `data`.
    ///
    /// A transfer that is no vendor request to this interface is left
    /// alone. The format negotiation is accepted and changes nothing. A
    /// configuration command for a channel of the device whose payload is
    /// long enough is accepted, and its event replaces the one that waited.
    /// Every other command is rejected, and what waited waits on.
    pub fn control_out(&mut self, req: &ControlRequest, data: &[u8]) -> (reply: ControlOutReply)
        ensures
            reply == control_out_reply(*req, data@, old(self).interface(), C as nat),
            final(self).pending() == pending_after(
                old(self).pending(),
                *req,
                data@,
                old(self).interface(),
                C as nat,
            ),
            final(self).same_device(old(self)),
    {
        if req.request_type != RequestType::Vendor || req.recipient != Recipient::Interface
            || req.index != self.comm_if as u16 {
            return ControlOutReply::Ignored;
        }
        let gs_request = GsUsbRequest::from_raw(req.request);
        let channel: usize = req.value as usize;

        if let Some(GsUsbRequest::HostFormat) = gs_request {
            return ControlOutReply::Accepted;
        }
        let control_event: Option<ChannelEvent> = match gs_request {
            Some(GsUsbRequest::BitTiming) if channel < C => match BitTiming::unpack(data) {
                Ok(timing) => Some(ChannelEvent::BitTiming(timing, channel)),
                Err(_) => None,
            },
            Some(GsUsbRequest::DataBitTiming) if channel < C => match BitTiming::unpack(data) {
                Ok(timing) => Some(ChannelEvent::DataBitTiming(timing, channel)),
                Err(_) => None,
            },
            Some(GsUsbRequest::Mode) if channel < C => match ChannelMode::unpack(data) {
                Ok(mode) => Some(ChannelEvent::ChannelMode(mode, channel)),
                Err(_) => None,
            },
            Some(GsUsbRequest::Identify) if channel < C => match ChannelIdentify::unpack(data) {
                Ok(identify) => Some(ChannelEvent::Identify(identify, channel)),
                Err(_) => None,
            },
            _ => None,
        };

        match control_event {
            Some(event) => {
                self.control_event = Some(event);
                ControlOutReply::Accepted
            },
            None => ControlOutReply::Rejected,
        }
    }

    /// Decides a control transfer to the host.
    ///
    /// A transfer that is no vendor request to this interface is left
    /// alone. The device configuration, and the timing descriptors of a
    /// channel of the device, are answered with their wire form. Every
    /// other command is rejected.
    pub fn control_in(&self, req: &ControlRequest) -> (reply: ControlInReply)
        ensures
            !req.addresses(self.interface()) ==> reply is Ignored,
            req.addresses(self.interface()) ==> match descriptor_bytes(
                *req,
                self.config(),
                self.channel_table(),
            ) {
                Some(bytes) => reply matches ControlInReply::Accepted(v) && v@ == bytes,
                None => reply is Rejected,
            },
    {
        if req.request_type != RequestType::Vendor || req.recipient != Recipient::Interface
            || req.index != self.comm_if as u16 {
            return ControlInReply::Ignored;
        }
        let channel: usize = req.value as usize;
        let gs_request = GsUsbRequest::from_raw(req.request);

        match gs_request {
            Some(GsUsbRequest::DeviceConfig) => ControlInReply::Accepted(self.config.packed()),
            Some(GsUsbRequest::BtConst) if channel < C => {
                ControlInReply::Accepted(BtConst::new(&self.channels[channel]).packed())
            },
            Some(GsUsbRequest::BtConstExt) if channel < C => {
                ControlInReply::Accepted(BtConstExt::new(&self.channels[channel]).packed())
            },
            _ => ControlInReply::Rejected,
        }
    }
}

} // verus!
