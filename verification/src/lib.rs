//! The protocol engine of a CAN adapter that speaks gs_usb, the protocol
//! of the SocketCAN driver of that name: the frames as they go over the
//! wire, the control transfers that configure a channel and describe it,
//! the state machines that take frames apart into bulk packets and put them
//! together again, and the queues between the host and the bus.
//!
//! Nothing here touches an endpoint or the transceiver. Whoever drives the
//! hardware hands in what the hardware gave, as plain values, and is told
//! what to do next.

pub mod bits;
pub mod bridge;
pub mod channel_config;
pub mod channel_event;
pub mod codec;
pub mod frame;
pub mod frame_ext;
pub mod gs_class;
pub mod gs_port;
pub mod queue;

pub use bridge::{
    can_speed_from_bit_rate, is_applicable, op_mode_for, transceiver_command, Bridge, CanSpeed,
    OpMode, TransceiverCommand, TransceiverError,
};
pub use channel_config::{Channel, ChannelConstraints, ChannelFeatures, ChannelFeaturesBit};
pub use channel_event::{
    BitTiming, ChannelEvent, ChannelFlags, ChannelFlagsBit, ChannelIdentify, ChannelMode,
};
pub use codec::DecodeError;
pub use frame::{
    HostCanId, HostCanIdBits, HostFrame, HostFrameFlags, HostFrameFlagsBits, FRAME_SIZE,
};
pub use frame_ext::{CanFrame, CanId, FromHostFrame, ToHostFrame};
pub use gs_class::{
    BtConst, BtConstExt, ControlInReply, ControlOutReply, ControlRequest, DeviceConfig,
    GsUsbClass, GsUsbRequest, Recipient, RequestType, GS_PROTOCOL, GS_SUBCLASS, USB_CLASS_GS,
};
pub use gs_port::{FlowSignal, GsUsbPort, PortError, ReadState, WriteState};
pub use queue::{FrameQueue, QUEUE_DEPTH, RENEWAL_PERIOD};
