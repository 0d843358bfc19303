use crate::channel_config::Channel;
use crate::channel_event::ChannelEvent;
use crate::codec::overwrite;
use crate::frame::{
    frame_bytes, frame_of_bytes, lemma_frame_of_frame_bytes, lemma_frame_view_injective,
    HostFrame, FRAME_SIZE,
};
use crate::gs_class::{
    control_out_reply, descriptor_bytes, pending_after, ControlInReply, ControlOutReply,
    ControlRequest, GsUsbClass,
};
use vstd::prelude::*;
use vstd::slice::slice_subrange;

verus! {

/// Why an operation on the port or on an endpoint did not succeed.
#[derive(Debug, Clone, Copy, PartialEq, Eq)]
pub enum PortError {
    /// Nothing can be done right now; the same call may succeed later.
    WouldBlock,
    ParseError,
    BufferOverflow,
    EndpointOverflow,
    EndpointMemoryOverflow,
    InvalidEndpoint,
    Unsupported,
    InvalidState,
}

/// How far the frame that is being received has come.
#[derive(Debug, Clone, Copy, PartialEq, Eq)]
pub enum ReadState {
    /// No byte of a frame is buffered.
    Empty,
    /// So many bytes are buffered, and the transfer goes on.
    WaitingForPacket(usize),
    /// A whole frame is buffered and waits to be taken.
    Full,
}

/// How far the frame that is being sent has come.
#[derive(Debug, Clone, Copy, PartialEq, Eq)]
pub enum WriteState {
    /// Nothing is being sent.
    Ready,
    /// So many bytes of the frame are still to be sent.
    Writing(usize),
}

/// What is to be done to the endpoint towards the host, so that it is
/// stalled while nothing is being sent and only then.
#[derive(Debug, Clone, Copy, PartialEq, Eq)]
pub enum FlowSignal {
    Keep,
    Stall,
    Unstall,
}

impl ReadState {
    /// The number of bytes that are buffered.
    pub open spec fn spec_index(&self) -> usize {
        match self {
            ReadState::Empty => 0,
            ReadState::WaitingForPacket(index) => *index,
            ReadState::Full => FRAME_SIZE,
        }
    }

    /// The number of bytes that are buffered.
    #[verifier::when_used_as_spec(spec_index)]
    pub fn index(&self) -> (r: usize)
        ensures
            r == self.spec_index(),
    {
        match self {
            ReadState::Empty => 0,
            ReadState::WaitingForPacket(index) => *index,
            ReadState::Full => FRAME_SIZE,
        }
    }
}

/// What an endpoint read gave, with the packet as a sequence of bytes.
pub open spec fn packet_view(result: Result<&[u8], PortError>) -> Result<Seq<u8>, PortError> {
    match result {
        Ok(packet) => Ok(packet@),
        Err(e) => Err(e),
    }
}

/// Whether a packet fits behind the bytes that are buffered.
pub open spec fn packet_fits(state: ReadState, packet: Seq<u8>) -> bool {
    state.spec_index() + packet.len() <= FRAME_SIZE
}

/// The read state after an endpoint read, where packets hold at most `mps`
/// bytes.
///
/// A whole frame that waits is never touched. A packet of exactly `mps`
/// bytes goes on with the transfer; any other packet ends it. A packet that
/// does not fit, and every error but `WouldBlock`, gives up what was
/// buffered.
pub open spec fn read_state_after(
    state: ReadState,
    mps: usize,
    result: Result<Seq<u8>, PortError>,
) -> ReadState {
    if state is Full {
        state
    } else {
        match result {
            Ok(packet) => if !packet_fits(state, packet) {
                ReadState::Empty
            } else if packet.len() == mps {
                ReadState::WaitingForPacket((state.spec_index() + packet.len()) as usize)
            } else {
                ReadState::Full
            },
            Err(PortError::WouldBlock) => state,
            Err(_) => ReadState::Empty,
        }
    }
}

/// The read buffer after an endpoint read: a packet that is taken lies
/// behind the bytes that were buffered.
pub open spec fn read_buffer_after(
    state: ReadState,
    buffer: Seq<u8>,
    result: Result<Seq<u8>, PortError>,
) -> Seq<u8> {
    match result {
        Ok(packet) => if !(state is Full) && packet_fits(state, packet) {
            overwrite(buffer, state.spec_index() as int, packet)
        } else {
            buffer
        },
        Err(_) => buffer,
    }
}

/// The part of the write buffer that is handed to the endpoint next, as
/// the index of its first byte and the index behind its last: none while
/// nothing is being sent, an empty part once all bytes are sent.
pub open spec fn packet_bounds(state: WriteState, mps: usize) -> Option<(int, int)> {
    match state {
        WriteState::Ready => None,
        WriteState::Writing(remainder) => {
            let from = FRAME_SIZE - remainder;
            let to = if from + mps < FRAME_SIZE {
                from + mps
            } else {
                FRAME_SIZE as int
            };
            Some((from, to))
        },
    }
}

/// The write state after an endpoint write.
///
/// After the empty packet the transfer is over, whatever became of it. A
/// write of exactly `mps` bytes goes on with the transfer; any other ends
/// it, and so does every error but `WouldBlock`.
pub open spec fn write_state_after(
    state: WriteState,
    mps: usize,
    result: Result<usize, PortError>,
) -> WriteState {
    match state {
        WriteState::Ready => state,
        WriteState::Writing(remainder) => if remainder == 0 {
            WriteState::Ready
        } else {
            match result {
                Ok(written) => if written == mps && written <= remainder {
                    WriteState::Writing((remainder - written) as usize)
                } else {
                    WriteState::Ready
                },
                Err(PortError::WouldBlock) => state,
                Err(_) => WriteState::Ready,
            }
        },
    }
}

/// What is to be done to the endpoint towards the host, which was last
/// told that the port is ready (`signaled_ready`) or busy.
pub open spec fn flow_signal_for(signaled_ready: bool, state: WriteState) -> FlowSignal {
    if (state is Ready) == signaled_ready {
        FlowSignal::Keep
    } else if state is Ready {
        FlowSignal::Stall
    } else {
        FlowSignal::Unstall
    }
}

/// The USB side of the device: the control side, and the two state machines
/// that put frames together from the packets of the host and take them
/// apart into packets for the host.
pub struct GsUsbPort<const C: usize> {
    underlying: GsUsbClass<C>,
    read_buffer: [u8; FRAME_SIZE],
    read_state: ReadState,
    write_buffer: [u8; FRAME_SIZE],
    write_state: WriteState,
    signaled_ready: bool,
}

impl<const C: usize> GsUsbPort<C> {
    /// Whether the port is in a state that [`Self::new`] and the methods
    /// lead to: the buffers hold a frame each, no more bytes are
    /// buffered, and no more are still to be sent, than a frame has.
    pub open spec fn wf(&self) -> bool {
        &&& self.read_state().spec_index() <= FRAME_SIZE
        &&& self.write_state() matches WriteState::Writing(remainder) ==> remainder <= FRAME_SIZE
        &&& self.read_buffer().len() == FRAME_SIZE
        &&& self.write_buffer().len() == FRAME_SIZE
    }

    /// The control side.
    pub closed spec fn class(&self) -> GsUsbClass<C> {
        self.underlying
    }

    /// How far the frame that is being received has come.
    pub closed spec fn read_state(&self) -> ReadState {
        self.read_state
    }

    /// The bytes that were received.
    pub closed spec fn read_buffer(&self) -> Seq<u8> {
        self.read_buffer@
    }

    /// How far the frame that is being sent has come.
    pub closed spec fn write_state(&self) -> WriteState {
        self.write_state
    }

    /// The bytes of the frame that is being sent.
    pub closed spec fn write_buffer(&self) -> Seq<u8> {
        self.write_buffer@
    }

    /// Whether the endpoint towards the host was last told that nothing is
    /// being sent.
    pub closed spec fn signaled_ready(&self) -> bool {
        self.signaled_ready
    }

    /// The largest packet of the bulk endpoints, in bytes.
    pub open spec fn packet_size(&self) -> usize {
        self.class().packet_size() as usize
    }

    /// Whether the read side is as it is in `other`.
    pub open spec fn same_read_side(&self, other: &Self) -> bool {
        &&& self.read_state() == other.read_state()
        &&& self.read_buffer() == other.read_buffer()
    }

    /// Whether the write side is as it is in `other`.
    pub open spec fn same_write_side(&self, other: &Self) -> bool {
        &&& self.write_state() == other.write_state()
        &&& self.write_buffer() == other.write_buffer()
        &&& self.signaled_ready() == other.signaled_ready()
    }

    /// A port for the interface numbered `interface`, with bulk packets of
    /// at most `max_packet_size` bytes (one of 8, 16, 32 and 64 on a
    /// full-speed device) and the given channels. Nothing is buffered and
    /// nothing is being sent.
    pub fn new(
        interface: u8,
        max_packet_size: u16,
        channels: [Channel; C],
        sw_version: u32,
        hw_version: u32,
    ) -> (r: GsUsbPort<C>)
        requires
            0 < C < 255,
        ensures
            r.class().interface() == interface,
            r.class().packet_size() == max_packet_size,
            r.class().channel_table() == channels@,
            r.class().config().reserved@ == seq![0u8, 0u8, 0u8],
            r.class().config().icount == C - 1,
            r.class().config().sw_version == sw_version,
            r.class().config().hw_version == hw_version,
            r.class().pending() is None,
            r.read_state() == ReadState::Empty,
            r.write_state() == WriteState::Ready,
            r.read_buffer() == Seq::new(FRAME_SIZE as nat, |i: int| 0u8),
            r.write_buffer() == Seq::new(FRAME_SIZE as nat, |i: int| 0u8),
            r.signaled_ready(),
            r.wf(),
    {
        let r = GsUsbPort {
            underlying: GsUsbClass::new(
                interface,
                max_packet_size,
                channels,
                sw_version,
                hw_version,
            ),
            read_buffer: [0u8; FRAME_SIZE],
            read_state: ReadState::Empty,
            write_buffer: [0u8; FRAME_SIZE],
            write_state: WriteState::Ready,
            signaled_ready: true,
        };
        assert(r.read_buffer@ =~= Seq::new(FRAME_SIZE as nat, |i: int| 0u8));
        assert(r.write_buffer@ =~= Seq::new(FRAME_SIZE as nat, |i: int| 0u8));
        r
    }

    /// Takes the configuration command that waits, and leaves none.
    pub fn read_control_event(&mut self) -> (r: Option<ChannelEvent>)
        requires
            old(self).wf(),
        ensures
            final(self).wf(),
            r == old(self).class().pending(),
            r matches Some(event) ==> event.spec_channel() < C,
            final(self).class().pending() is None,
            final(self).class().same_device(&old(self).class()),
            final(self).same_read_side(old(self)),
            final(self).same_write_side(old(self)),
    {
        self.underlying.read_control_event()
    }

    /// Takes the frame that was received, once it is whole; until then the
    /// call would block.
    pub fn read_frame(&mut self) -> (r: Result<HostFrame, PortError>)
        requires
            old(self).wf(),
        ensures
            final(self).wf(),
            old(self).read_state() is Full ==> (r matches Ok(f) && f@ == frame_of_bytes(
                old(self).read_buffer(),
            )) && final(self).read_state() == ReadState::Empty,
            !(old(self).read_state() is Full) ==> r == Err::<HostFrame, PortError>(
                PortError::WouldBlock,
            ) && final(self).read_state() == old(self).read_state(),
            final(self).read_buffer() == old(self).read_buffer(),
            final(self).same_write_side(old(self)),
            final(self).class() == old(self).class(),
    {
        match self.read_state {
            ReadState::Full => {
                self.read_state = ReadState::Empty;
                match HostFrame::unpack(self.read_buffer.as_slice()) {
                    Ok(frame) => Ok(frame),
                    Err(_) => Err(PortError::ParseError),
                }
            },
            _ => Err(PortError::WouldBlock),
        }
    }

    /// Takes a frame for sending, unless one is being sent: then the call
    /// would block.
    pub fn write_frame(&mut self, frame: &HostFrame) -> (r: Result<(), PortError>)
        requires
            old(self).wf(),
        ensures
            final(self).wf(),
            old(self).write_state() is Ready ==> r is Ok && final(self).write_buffer()
                == frame_bytes(frame@) && final(self).write_state() == WriteState::Writing(
                FRAME_SIZE,
            ),
            !(old(self).write_state() is Ready) ==> r == Err::<(), PortError>(
                PortError::WouldBlock,
            ) && final(self).write_buffer() == old(self).write_buffer()
                && final(self).write_state() == old(self).write_state(),
            final(self).signaled_ready() == old(self).signaled_ready(),
            final(self).same_read_side(old(self)),
            final(self).class() == old(self).class(),
    {
        match self.write_state {
            WriteState::Ready => {
                let packed = frame.pack();
                let mut i: usize = 0;
                while i < FRAME_SIZE
                    invariant
                        i <= FRAME_SIZE,
                        packed@.len() == FRAME_SIZE,
                        forall|k: int| 0 <= k < i ==> self.write_buffer@[k] == packed@[k],
                        self.write_state == old(self).write_state,
                        self.read_state == old(self).read_state,
                        self.read_buffer == old(self).read_buffer,
                        self.underlying == old(self).underlying,
                        self.signaled_ready == old(self).signaled_ready,
                    decreases FRAME_SIZE - i,
                {
                    self.write_buffer[i] = packed[i];
                    i = i + 1;
                }
                assert(self.write_buffer@ =~= packed@);
                self.write_state = WriteState::Writing(FRAME_SIZE);
                Ok(())
            },
            WriteState::Writing(_) => Err(PortError::WouldBlock),
        }
    }

    /// Notes that the bus was reset: the endpoint towards the host is to be
    /// stalled.
    pub fn reset(&mut self) -> (signal: FlowSignal)
        requires
            old(self).wf(),
        ensures
            final(self).wf(),
            signal == FlowSignal::Stall,
            final(self).signaled_ready(),
            final(self).write_state() == old(self).write_state(),
            final(self).write_buffer() == old(self).write_buffer(),
            final(self).same_read_side(old(self)),
            final(self).class() == old(self).class(),
    {
        self.signaled_ready = true;
        FlowSignal::Stall
    }

    /// The number of bytes that the next packet from the host may hold:
    /// none while a whole frame waits, for then no packet is to be read.
    pub fn read_capacity(&self) -> (r: Option<usize>)
        requires
            self.wf(),
        ensures
            r == if self.read_state() is Full {
                None
            } else {
                Some((FRAME_SIZE - self.read_state().spec_index()) as usize)
            },
    {
        match self.read_state {
            ReadState::Full => None,
            _ => Some(FRAME_SIZE - self.read_state.index()),
        }
    }

    /// Takes what reading the endpoint from the host gave.
    pub fn packet_received(&mut self, result: Result<&[u8], PortError>)
        requires
            old(self).wf(),
        ensures
            final(self).wf(),
            final(self).read_state() == read_state_after(
                old(self).read_state(),
                old(self).packet_size(),
                packet_view(result),
            ),
            final(self).read_buffer() == read_buffer_after(
                old(self).read_state(),
                old(self).read_buffer(),
                packet_view(result),
            ),
            final(self).same_write_side(old(self)),
            final(self).class() == old(self).class(),
    {
        if let ReadState::Full = self.read_state {
            return ;
        }
        let index: usize = self.read_state.index();
        let packet_size: usize = self.underlying.max_packet_size();
        match result {
            Ok(packet) => {
                if packet.len() > FRAME_SIZE - index {
                    self.read_state = ReadState::Empty;
                } else {
                    let mut k: usize = 0;
                    while k < packet.len()
                        invariant
                            k <= packet.len(),
                            index + packet.len() <= FRAME_SIZE,
                            forall|j: int|
                                0 <= j < FRAME_SIZE ==> self.read_buffer@[j] == if index <= j
                                    < index + k {
                                    packet@[j - index]
                                } else {
                                    old(self).read_buffer@[j]
                                },
                            self.read_state == old(self).read_state,
                            self.write_state == old(self).write_state,
                            self.write_buffer == old(self).write_buffer,
                            self.underlying == old(self).underlying,
                            self.signaled_ready == old(self).signaled_ready,
                        decreases packet.len() - k,
                    {
                        self.read_buffer[index + k] = packet[k];
                        k = k + 1;
                    }
                    assert(self.read_buffer@ =~= overwrite(
                        old(self).read_buffer@,
                        index as int,
                        packet@,
                    ));
                    if packet.len() == packet_size {
                        self.read_state = ReadState::WaitingForPacket(index + packet.len());
                    } else {
                        self.read_state = ReadState::Full;
                    }
                }
            },
            Err(PortError::WouldBlock) => {},
            Err(_) => {
                self.read_state = ReadState::Empty;
            },
        }
    }

    /// The packet that is to be written to the endpoint towards the host:
    /// none while nothing is being sent, the empty packet once all bytes of
    /// the frame are sent.
    pub fn next_packet(&self) -> (r: Option<&[u8]>)
        requires
            self.wf(),
        ensures
            match packet_bounds(self.write_state(), self.packet_size()) {
                Some((from, to)) => r matches Some(packet) && packet@
                    == self.write_buffer().subrange(from, to),
                None => r is None,
            },
    {
        match self.write_state {
            WriteState::Ready => None,
            WriteState::Writing(remainder) => {
                let packet_size: usize = self.underlying.max_packet_size();
                let from_index: usize = FRAME_SIZE - remainder;
                let to_index: usize = if packet_size < remainder {
                    from_index + packet_size
                } else {
                    FRAME_SIZE
                };
                Some(slice_subrange(self.write_buffer.as_slice(), from_index, to_index))
            },
        }
    }

    /// Takes what writing the packet of [`Self::next_packet`] gave.
    pub fn packet_sent(&mut self, result: Result<usize, PortError>)
        requires
            old(self).wf(),
        ensures
            final(self).wf(),
            final(self).write_state() == write_state_after(
                old(self).write_state(),
                old(self).packet_size(),
                result,
            ),
            final(self).write_buffer() == old(self).write_buffer(),
            final(self).signaled_ready() == old(self).signaled_ready(),
            final(self).same_read_side(old(self)),
            final(self).class() == old(self).class(),
    {
        if let WriteState::Writing(remainder) = self.write_state {
            if remainder == 0 {
                self.write_state = WriteState::Ready;
            } else {
                let packet_size: usize = self.underlying.max_packet_size();
                match result {
                    Ok(bytes) => {
                        if bytes == packet_size && bytes <= remainder {
                            self.write_state = WriteState::Writing(remainder - bytes);
                        } else {
                            self.write_state = WriteState::Ready;
                        }
                    },
                    Err(PortError::WouldBlock) => {},
                    Err(_) => {
                        self.write_state = WriteState::Ready;
                    },
                }
            }
        }
    }

    /// What is to be done to the endpoint towards the host now. Once it is
    /// done, the endpoint is stalled exactly while nothing is being sent.
    pub fn flow_signal(&mut self) -> (signal: FlowSignal)
        requires
            old(self).wf(),
        ensures
            final(self).wf(),
            signal == flow_signal_for(old(self).signaled_ready(), old(self).write_state()),
            final(self).signaled_ready() == (final(self).write_state() is Ready),
            final(self).write_state() == old(self).write_state(),
            final(self).write_buffer() == old(self).write_buffer(),
            final(self).same_read_side(old(self)),
            final(self).class() == old(self).class(),
    {
        let is_writing_ready: bool = match self.write_state {
            WriteState::Ready => true,
            WriteState::Writing(_) => false,
        };
        if self.signaled_ready != is_writing_ready {
            self.signaled_ready = is_writing_ready;
            if is_writing_ready {
                FlowSignal::Stall
            } else {
                FlowSignal::Unstall
            }
        } else {
            FlowSignal::Keep
        }
    }

    /// Decides a control transfer from the host with the payload `data`, as
    /// the control side does.
    pub fn control_out(&mut self, req: &ControlRequest, data: &[u8]) -> (reply: ControlOutReply)
        requires
            old(self).wf(),
        ensures
            final(self).wf(),
            reply == control_out_reply(*req, data@, old(self).class().interface(), C as nat),
            final(self).class().pending() == pending_after(
                old(self).class().pending(),
                *req,
                data@,
                old(self).class().interface(),
                C as nat,
            ),
            final(self).class().same_device(&old(self).class()),
            final(self).same_read_side(old(self)),
            final(self).same_write_side(old(self)),
    {
        self.underlying.control_out(req, data)
    }

    /// Decides a control transfer to the host, as the control side does.
    pub fn control_in(&self, req: &ControlRequest) -> (reply: ControlInReply)
        ensures
            !req.addresses(self.class().interface()) ==> reply is Ignored,
            req.addresses(self.class().interface()) ==> match descriptor_bytes(
                *req,
                self.class().config(),
                self.class().channel_table(),
            ) {
                Some(bytes) => reply matches ControlInReply::Accepted(v) && v@ == bytes,
                None => reply is Rejected,
            },
    {
        self.underlying.control_in(req)
    }

    /// The largest packet of the bulk endpoints, in bytes.
    pub fn max_packet_size(&self) -> (n: usize)
        ensures
            n == self.packet_size(),
    {
        self.underlying.max_packet_size()
    }
}

/// The parts of the write buffer that are handed to the endpoint one after
/// another, from the moment when `remainder` bytes are still to be sent
/// until the transfer is over, where every write succeeds in full.
pub open spec fn transfer_packets(remainder: usize, mps: usize) -> Seq<(int, int)>
    decreases remainder,
{
    if mps == 0 || remainder > FRAME_SIZE {
        Seq::empty()
    } else {
        let state = WriteState::Writing(remainder);
        match packet_bounds(state, mps) {
            Some(bounds) => match write_state_after(
                state,
                mps,
                Ok((bounds.1 - bounds.0) as usize),
            ) {
                WriteState::Writing(next) => seq![bounds] + transfer_packets(next, mps),
                WriteState::Ready => seq![bounds],
            },
            None => Seq::empty(),
        }
    }
}

/// The packets that lie in `buffer` within the given bounds.
pub open spec fn packets_of(buffer: Seq<u8>, bounds: Seq<(int, int)>) -> Seq<Seq<u8>> {
    bounds.map_values(|b: (int, int)| buffer.subrange(b.0, b.1))
}

/// The read state and the read buffer after the given packets were read
/// from the endpoint one after another.
pub open spec fn receive_all(
    state: ReadState,
    buffer: Seq<u8>,
    mps: usize,
    packets: Seq<Seq<u8>>,
) -> (ReadState, Seq<u8>)
    decreases packets.len(),
{
    if packets.len() == 0 {
        (state, buffer)
    } else {
        receive_all(
            read_state_after(state, mps, Ok(packets[0])),
            read_buffer_after(state, buffer, Ok(packets[0])),
            mps,
            packets.skip(1),
        )
    }
}

/// Sending `size` bytes in packets of at most `mps` bytes hands the
/// endpoint as many full packets as fit into `size`, one behind the other,
/// and then one last packet with the bytes that are left: the empty packet
/// exactly where `size` is a multiple of `mps`.
pub proof fn lemma_transfer_packets(size: usize, mps: usize)
    requires
        0 < mps,
        size <= FRAME_SIZE,
    ensures
        ({
            let packets = transfer_packets(size, mps);
            let start = FRAME_SIZE - size;
            let full = size as int / mps as int;
            &&& packets.len() == full + 1
            &&& forall|i: int|
                0 <= i < full ==> #[trigger] packets[i] == (start + i * mps, start + (i + 1) * mps)
            &&& packets[full] == (start + full * mps, FRAME_SIZE as int)
            &&& packets[full].1 - packets[full].0 == size as int % mps as int
        }),
    decreases size,
{
    let packets = transfer_packets(size, mps);
    let start = FRAME_SIZE - size;
    let full = size as int / mps as int;
    let m = mps as int;
    vstd::arithmetic::div_mod::lemma_fundamental_div_mod(size as int, m);
    if size < mps {
        vstd::arithmetic::div_mod::lemma_basic_div(size as int, m);
        assert(packets =~= seq![(start, FRAME_SIZE as int)]);
    } else {
        let next = (size - mps) as usize;
        let rest = transfer_packets(next, mps);
        lemma_transfer_packets(next, mps);
        assert((full - 1) * m + size as int % m == size - m) by (nonlinear_arith)
            requires
                size as int == m * full + size as int % m,
        ;
        vstd::arithmetic::div_mod::lemma_fundamental_div_mod_converse(
            next as int,
            m,
            full - 1,
            size as int % m,
        );
        assert forall|i: int| 0 <= i < full implies #[trigger] packets[i] == (
            start + i * m,
            start + (i + 1) * m,
        ) by {
            if i > 0 {
                assert(start + m + (i - 1) * m == start + i * m && start + m + i * m == start + (i
                    + 1) * m) by (nonlinear_arith);
            } else {
                assert(start + 0 * m == start && start + (0 + 1) * m == start + m)
                    by (nonlinear_arith);
            }
        }
    }
}

/// A packet that is shorter than a full one ends the transfer at once,
/// even where fewer bytes than a frame has were received.
pub proof fn lemma_short_packet_completes(
    state: ReadState,
    buffer: Seq<u8>,
    mps: usize,
    packet: Seq<u8>,
)
    requires
        !(state is Full),
        packet_fits(state, packet),
        packet.len() < mps,
    ensures
        read_state_after(state, mps, Ok(packet)) == ReadState::Full,
        read_buffer_after(state, buffer, Ok(packet)) == overwrite(
            buffer,
            state.spec_index() as int,
            packet,
        ),
{
}

proof fn lemma_reassembly_from(
    frame: Seq<u8>,
    buffer: Seq<u8>,
    state: ReadState,
    remainder: usize,
    mps: usize,
)
    requires
        frame.len() == FRAME_SIZE,
        buffer.len() == FRAME_SIZE,
        0 < mps,
        remainder <= FRAME_SIZE,
        !(state is Full),
        state.spec_index() == FRAME_SIZE - remainder,
        buffer.subrange(0, FRAME_SIZE - remainder) == frame.subrange(0, FRAME_SIZE - remainder),
    ensures
        receive_all(state, buffer, mps, packets_of(frame, transfer_packets(remainder, mps))) == (
            ReadState::Full,
            frame,
        ),
    decreases remainder,
{
    let from = FRAME_SIZE - remainder;
    let bounds = transfer_packets(remainder, mps);
    let packets = packets_of(frame, bounds);
    let packet = packets[0];
    let state1 = read_state_after(state, mps, Ok(packet));
    let buffer1 = read_buffer_after(state, buffer, Ok(packet));
    assert forall|j: int| 0 <= j < from implies buffer[j] == frame[j] by {
        assert(frame[j] == frame.subrange(0, from)[j]);
    }
    if remainder < mps {
        assert(receive_all(state1, buffer1, mps, packets.skip(1)) == (state1, buffer1));
    } else {
        let next = (remainder - mps) as usize;
        let rest = transfer_packets(next, mps);
        assert(packets.skip(1) =~= packets_of(frame, rest));
        assert(buffer1.subrange(0, from + mps) =~= frame.subrange(0, from + mps));
        lemma_reassembly_from(frame, buffer1, state1, next, mps);
    }
}

/// What the write side takes apart, the read side puts together: the
/// packets that a transfer of `frame` hands to one endpoint, read from the
/// other one after another, leave the read side with the whole frame,
/// whatever its buffer held before.
pub proof fn lemma_reassembly(frame: Seq<u8>, stale: Seq<u8>, mps: usize)
    requires
        frame.len() == FRAME_SIZE,
        stale.len() == FRAME_SIZE,
        0 < mps,
    ensures
        receive_all(
            ReadState::Empty,
            stale,
            mps,
            packets_of(frame, transfer_packets(FRAME_SIZE, mps)),
        ) == (ReadState::Full, frame),
{
    assert(stale.subrange(0, 0) =~= frame.subrange(0, 0));
    lemma_reassembly_from(frame, stale, ReadState::Empty, FRAME_SIZE, mps);
}

/// A frame that one port sends arrives at the other: the packets that a
/// transfer of the frame hands to one endpoint, read from the other one
/// after another, leave the read side with a whole frame, and the frame
/// that is read from its buffer is the frame that was sent.
pub proof fn lemma_frame_transfer(frame: HostFrame, received: HostFrame, stale: Seq<u8>, mps: usize)
    requires
        stale.len() == FRAME_SIZE,
        0 < mps,
        received@ == frame_of_bytes(
            receive_all(
                ReadState::Empty,
                stale,
                mps,
                packets_of(frame_bytes(frame@), transfer_packets(FRAME_SIZE, mps)),
            ).1,
        ),
    ensures
        receive_all(
            ReadState::Empty,
            stale,
            mps,
            packets_of(frame_bytes(frame@), transfer_packets(FRAME_SIZE, mps)),
        ).0 == ReadState::Full,
        received == frame,
{
    lemma_frame_of_frame_bytes(frame@);
    lemma_reassembly(frame_bytes(frame@), stale, mps);
    lemma_frame_view_injective(received, frame);
}

} // verus!
