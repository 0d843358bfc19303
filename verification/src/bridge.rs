use crate::channel_config::Channel;
use crate::channel_event::{ChannelEvent, ChannelFlagsBit, ChannelMode};
use crate::frame::{
    frame_bytes, frame_of_bytes, HostFrame, HostFrameFlags, HostFrameFlagsBits, HostFrameView,
    FRAME_SIZE,
};
use crate::frame_ext::{can_frame_of, host_frame_of, CanFrame, FromHostFrame, ToHostFrame};
use crate::gs_port::{GsUsbPort, PortError, ReadState, WriteState};
use crate::queue::{pushed, FrameQueue, QUEUE_DEPTH};
use vstd::prelude::*;

verus! {

/// A bit rate that the transceiver can be set to.
#[derive(Debug, Clone, Copy, PartialEq, Eq)]
pub enum CanSpeed {
    Kbps5,
    Kbps10,
    Kbps20,
    Kbps31_25,
    Kbps33_3,
    Kbps40,
    Kbps50,
    Kbps80,
    Kbps100,
    Kbps125,
    Kbps200,
    Kbps250,
    Kbps500,
    Kbps1000,
}

/// A mode that the transceiver can be put into.
#[derive(Debug, Clone, Copy, PartialEq, Eq)]
pub enum OpMode {
    Normal,
    Sleep,
    Loopback,
    ListenOnly,
}

/// What is to be done to the transceiver for a configuration command.
#[derive(Debug, Clone, Copy, PartialEq, Eq)]
pub enum TransceiverCommand {
    SetBitRate(CanSpeed),
    SetMode(OpMode),
    Nothing,
}

/// Why the transceiver did not take a frame.
#[derive(Debug, Clone, Copy, PartialEq, Eq)]
pub enum TransceiverError {
    /// The transceiver did not answer a change of mode in time.
    NewModeTimeout,
    /// All transmit buffers are in use.
    TxBusy,
    TxFailed,
    NoMessage,
    InvalidFrameId,
    InvalidDlc,
    InvalidConfiguration,
    /// The serial link to the transceiver failed.
    Spi,
    /// A pin of the transceiver could not be driven.
    Hal,
}

impl CanSpeed {
    /// The highest nominal bit rate, in bit/s, that is served at this
    /// speed. The highest speed serves every rate above the others.
    pub open spec fn upper_bound(self) -> int {
        match self {
            CanSpeed::Kbps5 => 5_000,
            CanSpeed::Kbps10 => 10_000,
            CanSpeed::Kbps20 => 20_000,
            CanSpeed::Kbps31_25 => 31_250,
            CanSpeed::Kbps33_3 => 33_300,
            CanSpeed::Kbps40 => 40_000,
            CanSpeed::Kbps50 => 50_000,
            CanSpeed::Kbps80 => 80_000,
            CanSpeed::Kbps100 => 100_000,
            CanSpeed::Kbps125 => 125_000,
            CanSpeed::Kbps200 => 200_000,
            CanSpeed::Kbps250 => 250_000,
            CanSpeed::Kbps500 => 500_000,
            CanSpeed::Kbps1000 => 0xFFFF_FFFF,
        }
    }
}

/// The speed that serves a nominal bit rate.
pub open spec fn speed_for(bit_rate: int) -> CanSpeed {
    if bit_rate <= 5_000 {
        CanSpeed::Kbps5
    } else if bit_rate <= 10_000 {
        CanSpeed::Kbps10
    } else if bit_rate <= 20_000 {
        CanSpeed::Kbps20
    } else if bit_rate <= 31_250 {
        CanSpeed::Kbps31_25
    } else if bit_rate <= 33_300 {
        CanSpeed::Kbps33_3
    } else if bit_rate <= 40_000 {
        CanSpeed::Kbps40
    } else if bit_rate <= 50_000 {
        CanSpeed::Kbps50
    } else if bit_rate <= 80_000 {
        CanSpeed::Kbps80
    } else if bit_rate <= 100_000 {
        CanSpeed::Kbps100
    } else if bit_rate <= 125_000 {
        CanSpeed::Kbps125
    } else if bit_rate <= 200_000 {
        CanSpeed::Kbps200
    } else if bit_rate <= 250_000 {
        CanSpeed::Kbps250
    } else if bit_rate <= 500_000 {
        CanSpeed::Kbps500
    } else {
        CanSpeed::Kbps1000
    }
}

/// The speed that serves a rate is the lowest one whose bound the rate
/// does not exceed, and no other speed is.
pub proof fn lemma_speed_is_lowest(bit_rate: int, speed: CanSpeed)
    requires
        bit_rate <= 0xFFFF_FFFF,
    ensures
        speed == speed_for(bit_rate) <==> (bit_rate <= speed.upper_bound() && forall|
            lower: CanSpeed,
        |
            lower.upper_bound() < speed.upper_bound() ==> #[trigger] lower.upper_bound()
                < bit_rate),
{
    lemma_lower_speeds(bit_rate, speed_for(bit_rate));
}

/// Every speed below the one that serves a rate has a bound that the rate
/// exceeds.
proof fn lemma_lower_speeds(bit_rate: int, speed: CanSpeed)
    requires
        speed == speed_for(bit_rate),
    ensures
        forall|lower: CanSpeed|
            lower.upper_bound() < speed.upper_bound() ==> #[trigger] lower.upper_bound() < bit_rate,
{
}

/// The speed of the transceiver for a nominal bit rate in bit/s: the
/// lowest one whose bound the rate does not exceed.
pub fn can_speed_from_bit_rate(bit_rate: u32) -> (speed: CanSpeed)
    ensures
        speed == speed_for(bit_rate as int),
{
    if bit_rate <= 5_000 {
        CanSpeed::Kbps5
    } else if bit_rate <= 10_000 {
        CanSpeed::Kbps10
    } else if bit_rate <= 20_000 {
        CanSpeed::Kbps20
    } else if bit_rate <= 31_250 {
        CanSpeed::Kbps31_25
    } else if bit_rate <= 33_300 {
        CanSpeed::Kbps33_3
    } else if bit_rate <= 40_000 {
        CanSpeed::Kbps40
    } else if bit_rate <= 50_000 {
        CanSpeed::Kbps50
    } else if bit_rate <= 80_000 {
        CanSpeed::Kbps80
    } else if bit_rate <= 100_000 {
        CanSpeed::Kbps100
    } else if bit_rate <= 125_000 {
        CanSpeed::Kbps125
    } else if bit_rate <= 200_000 {
        CanSpeed::Kbps200
    } else if bit_rate <= 250_000 {
        CanSpeed::Kbps250
    } else if bit_rate <= 500_000 {
        CanSpeed::Kbps500
    } else {
        CanSpeed::Kbps1000
    }
}

/// The mode of the transceiver that a mode command asks for: asleep
/// where the channel is to be off; else looped back where the command
/// asks for it; else listening only where the command asks for that;
/// else normal.
pub open spec fn op_mode_of(mode: ChannelMode) -> OpMode {
    if !mode.on() {
        OpMode::Sleep
    } else if mode.flags.has(ChannelFlagsBit::Loopback) {
        OpMode::Loopback
    } else if mode.flags.has(ChannelFlagsBit::ListenOnly) {
        OpMode::ListenOnly
    } else {
        OpMode::Normal
    }
}

/// The mode of the transceiver that a mode command asks for.
pub fn op_mode_for(mode: &ChannelMode) -> (r: OpMode)
    ensures
        r == op_mode_of(*mode),
{
    if !mode.is_on() {
        OpMode::Sleep
    } else if mode.flags.is_set(ChannelFlagsBit::Loopback) {
        OpMode::Loopback
    } else if mode.flags.is_set(ChannelFlagsBit::ListenOnly) {
        OpMode::ListenOnly
    } else {
        OpMode::Normal
    }
}

/// Whether a configuration command can be carried out on a device with
/// the given channels: a bit timing needs a channel of the device, for its
/// clock, and a prescaler that is not zero.
pub open spec fn applicable(event: ChannelEvent, channels: Seq<Channel>) -> bool {
    match event {
        ChannelEvent::BitTiming(timing, channel) => channel < channels.len() && timing.brp != 0,
        _ => true,
    }
}

/// What is to be done to the transceiver for a configuration command: a
/// bit timing sets the speed that serves its nominal bit rate under the
/// channel's clock, a mode command sets the mode; the timing of the data
/// phase and the identify command ask for nothing.
pub open spec fn command_for(event: ChannelEvent, channels: Seq<Channel>) -> TransceiverCommand {
    match event {
        ChannelEvent::BitTiming(timing, channel) => TransceiverCommand::SetBitRate(
            speed_for(timing.nominal_bit_rate(channels[channel as int].fclk_can)),
        ),
        ChannelEvent::DataBitTiming(_, _) => TransceiverCommand::Nothing,
        ChannelEvent::ChannelMode(mode, _) => TransceiverCommand::SetMode(op_mode_of(mode)),
        ChannelEvent::Identify(_, _) => TransceiverCommand::Nothing,
    }
}

/// Whether a configuration command can be carried out.
pub fn is_applicable<const C: usize>(event: &ChannelEvent, channels: &[Channel; C]) -> (r: bool)
    ensures
        r == applicable(*event, channels@),
{
    match event {
        ChannelEvent::BitTiming(timing, channel) => *channel < C && timing.brp != 0,
        _ => true,
    }
}

/// What is to be done to the transceiver for a configuration command.
pub fn transceiver_command<const C: usize>(event: &ChannelEvent, channels: &[Channel; C]) -> (r:
    TransceiverCommand)
    requires
        applicable(*event, channels@),
    ensures
        r == command_for(*event, channels@),
{
    match event {
        ChannelEvent::BitTiming(timing, channel) => {
            let rate: u32 = timing.bit_rate(&channels[*channel]);
            TransceiverCommand::SetBitRate(can_speed_from_bit_rate(rate))
        },
        ChannelEvent::DataBitTiming(_, _) => TransceiverCommand::Nothing,
        ChannelEvent::ChannelMode(mode, _) => TransceiverCommand::SetMode(op_mode_for(mode)),
        ChannelEvent::Identify(_, _) => TransceiverCommand::Nothing,
    }
}

impl TransceiverError {
    /// Whether the same frame may be taken a little later.
    pub open spec fn transient(self) -> bool {
        self is TxBusy || self is NewModeTimeout
    }

    /// Whether the same frame may be taken a little later.
    pub fn is_transient(&self) -> (r: bool)
        ensures
            r == self.transient(),
    {
        match self {
            TransceiverError::TxBusy => true,
            TransceiverError::NewModeTimeout => true,
            _ => false,
        }
    }
}

/// `frame` with the overflow flag set: the mark of a frame that the bus did
/// not take.
pub open spec fn with_overflow(frame: HostFrame) -> HostFrame {
    HostFrame {
        flags: HostFrameFlags(frame.flags.0 | HostFrameFlagsBits::Overflow.spec_mask()),
        ..frame
    }
}

/// Whether `after` is what a queue holds once a frame that says `v` has
/// been put into it, where it held `before`.
pub open spec fn pushed_view(before: Seq<HostFrame>, after: Seq<HostFrame>, v: HostFrameView) -> bool {
    &&& after.len() > 0
    &&& after.last()@ == v
    &&& after.drop_last() == if before.len() < QUEUE_DEPTH {
        before
    } else {
        before.skip(1)
    }
}

/// The two queues between the host and the bus. A queue that is full
/// makes room for a new frame by letting its oldest frame go.
pub struct Bridge {
    inbox: FrameQueue,
    outbox: FrameQueue,
}

impl Bridge {
    /// The frames that wait for the host, the oldest first.
    pub closed spec fn inbox(&self) -> Seq<HostFrame> {
        self.inbox@
    }

    /// The frames that wait for the bus, the oldest first.
    pub closed spec fn outbox(&self) -> Seq<HostFrame> {
        self.outbox@
    }

    /// Two empty queues.
    pub fn new() -> (r: Bridge)
        ensures
            r.inbox() == Seq::<HostFrame>::empty(),
            r.outbox() == Seq::<HostFrame>::empty(),
    {
        Bridge { inbox: FrameQueue::new(), outbox: FrameQueue::new() }
    }

    /// The number of frames that wait for the host.
    pub fn inbox_len(&self) -> (n: usize)
        ensures
            n == self.inbox().len(),
            n <= QUEUE_DEPTH,
    {
        self.inbox.len()
    }

    /// The number of frames that wait for the bus.
    pub fn outbox_len(&self) -> (n: usize)
        ensures
            n == self.outbox().len(),
            n <= QUEUE_DEPTH,
    {
        self.outbox.len()
    }

    /// The frame that the host gets next, if one waits.
    pub fn peek_inbox(&self) -> (r: Option<&HostFrame>)
        ensures
            r == if self.inbox().len() == 0 {
                None::<&HostFrame>
            } else {
                Some(&self.inbox()[0])
            },
    {
        self.inbox.peek()
    }

    /// The frame that the bus gets next, if one waits.
    pub fn peek_outbox(&self) -> (r: Option<&HostFrame>)
        ensures
            r == if self.outbox().len() == 0 {
                None::<&HostFrame>
            } else {
                Some(&self.outbox()[0])
            },
    {
        self.outbox.peek()
    }

    /// Takes the frame that the port has received from the host, once it
    /// is whole, and lets it wait for the bus.
    pub fn collect_from_port<const C: usize>(&mut self, port: &mut GsUsbPort<C>)
        requires
            old(port).wf(),
        ensures
            final(port).wf(),
            old(port).read_state() is Full ==> final(port).read_state() == ReadState::Empty
                && pushed_view(
                old(self).outbox(),
                final(self).outbox(),
                frame_of_bytes(old(port).read_buffer()),
            ),
            !(old(port).read_state() is Full) ==> final(port).read_state() == old(port).read_state() && final(self).outbox() == old(self).outbox(),
            final(self).inbox() == old(self).inbox(),
            final(port).read_buffer() == old(port).read_buffer(),
            final(port).same_write_side(old(port)),
            final(port).class() == old(port).class(),
    {
        if let Ok(host_frame) = port.read_frame() {
            self.outbox.push(host_frame);
            proof {
                let before = old(self).outbox();
                let after = self.outbox();
                assert(after.drop_last() =~= if before.len() < QUEUE_DEPTH {
                    before
                } else {
                    before.skip(1)
                });
            }
        }
    }

    /// Hands the frame that the host gets next to the port, where one
    /// waits and the port is free to send; else the frame waits on.
    pub fn offer_to_port<const C: usize>(&mut self, port: &mut GsUsbPort<C>)
        requires
            old(port).wf(),
        ensures
            final(port).wf(),
            old(self).inbox().len() > 0 && old(port).write_state() is Ready ==> final(self).inbox() == old(self).inbox().skip(1) && final(port).write_buffer() == frame_bytes(
                old(self).inbox()[0]@,
            ) && final(port).write_state() == WriteState::Writing(FRAME_SIZE),
            !(old(self).inbox().len() > 0 && old(port).write_state() is Ready) ==> final(self).inbox() == old(self).inbox() && final(port).write_buffer() == old(port).write_buffer() && final(port).write_state() == old(port).write_state(),
            final(self).outbox() == old(self).outbox(),
            final(port).signaled_ready() == old(port).signaled_ready(),
            final(port).same_read_side(old(port)),
            final(port).class() == old(port).class(),
    {
        let sent: bool = match self.inbox.peek() {
            Some(host_frame) => match port.write_frame(host_frame) {
                Ok(_) => true,
                Err(PortError::WouldBlock) => false,
                Err(_) => true,
            },
            None => false,
        };
        if sent {
            let _ = self.inbox.pop();
        }
    }

    /// Lets a frame that the transceiver has received on `channel` wait
    /// for the host.
    pub fn frame_received(&mut self, frame: &CanFrame, channel: u8)
        ensures
            pushed_view(
                old(self).inbox(),
                final(self).inbox(),
                host_frame_of(frame@, channel),
            ),
            final(self).outbox() == old(self).outbox(),
    {
        let host_frame = frame.to_host_frame(channel);
        self.inbox.push(host_frame);
        proof {
            let before = old(self).inbox();
            let after = self.inbox();
            assert(after.drop_last() =~= if before.len() < QUEUE_DEPTH {
                before
            } else {
                before.skip(1)
            });
        }
    }

    /// The frame that is to be submitted to the transceiver next: the
    /// translation of the frame that the bus gets next. A frame that has
    /// no translation is dropped, and nothing is to be submitted.
    pub fn next_to_submit(&mut self) -> (r: Option<CanFrame>)
        ensures
            old(self).outbox().len() == 0 ==> r is None && final(self).outbox() == old(self).outbox(),
            old(self).outbox().len() > 0 ==> match can_frame_of(old(self).outbox()[0]@) {
                Some(v) => r matches Some(f) && f@ == v && final(self).outbox() == old(self).outbox(),
                None => r is None && final(self).outbox() == old(self).outbox().skip(1),
            },
            final(self).inbox() == old(self).inbox(),
    {
        let translated: Option<Option<CanFrame>> = match self.outbox.peek() {
            Some(host_frame) => Some(CanFrame::from_host_frame(host_frame)),
            None => None,
        };
        match translated {
            Some(Some(frame)) => Some(frame),
            Some(None) => {
                let _ = self.outbox.pop();
                None
            },
            None => None,
        }
    }

    /// Takes what submitting the frame of [`Self::next_to_submit`] gave.
    ///
    /// A frame that the transceiver took goes to the host as it is, to
    /// tell that it was sent. A frame that the transceiver may take a
    /// little later waits on. A frame that failed otherwise goes to the
    /// host with the overflow flag set.
    pub fn submitted(&mut self, result: Result<(), TransceiverError>)
        ensures
            old(self).outbox().len() == 0 ==> final(self).outbox() == old(self).outbox() && final(self).inbox() == old(self).inbox(),
            old(self).outbox().len() > 0 ==> match result {
                Ok(_) => final(self).outbox() == old(self).outbox().skip(1) && final(self).inbox()
                    == pushed(old(self).inbox(), old(self).outbox()[0]),
                Err(e) => if e.transient() {
                    final(self).outbox() == old(self).outbox() && final(self).inbox() == old(self).inbox()
                } else {
                    final(self).outbox() == old(self).outbox().skip(1) && final(self).inbox()
                        == pushed(old(self).inbox(), with_overflow(old(self).outbox()[0]))
                },
            },
    {
        match result {
            Ok(_) => {
                if let Some(host_frame) = self.outbox.pop() {
                    self.inbox.push(host_frame);
                }
            },
            Err(e) => {
                if !e.is_transient() {
                    if let Some(host_frame) = self.outbox.pop() {
                        let mut err_frame = host_frame;
                        err_frame.flags.set(HostFrameFlagsBits::Overflow);
                        self.inbox.push(err_frame);
                    }
                }
            },
        }
    }
}

} // verus!
