//! The capture client: the order in which it brings a stream up through the
//! helper, what it asks of its surroundings on the way, how it waits for
//! frames, and what it gives back at the end.
//!
//! The client decides; the program around it acts. Bringing a stream up is a
//! conversation: `prep_stream` returns the first action, and each of
//! `written`, `mapped` and `resolved` takes what came of the last action and
//! returns the next one, until the stream runs or has failed.

use crate::bytes::ByteOrder;
use crate::helper::{
    ArgAddrs, IO_G_FMT, IO_G_PARM, IO_QBUF, IO_QUERYBUF, IO_QUERYCAP, IO_REQBUFS, IO_STREAMOFF,
    IO_STREAMON, IO_S_FMT, IO_S_PARM, SLOT_BUF, SLOT_CAP, SLOT_FORMAT, SLOT_REQBUFS,
    SLOT_START_TYPE, SLOT_STOP_TYPE, SLOT_STREAMPARM,
};
use crate::protocol::{command_bytes, ioctl_message, pfns_message, set_addr_message, CommandView};
use crate::v4l2::{
    pix_of, v4l2_buffer, v4l2_format, v4l2_pix_format, v4l2_requestbuffers, v4l2_streamparm,
    with_pix, ArgRecords, Fmt, V4L2_BUF_TYPE_VIDEO_CAPTURE, V4L2_MEMORY_MMAP, V4L2_PIX_FMT_YUYV,
};
use vstd::prelude::*;

verus! {

/// Buffers asked for where the caller names no number.
pub const MAX_V4L_BUFFERS: usize = 10;

/// Frames per second asked for where the caller names no rate.
pub const DEFAULT_STREAM_FPS: usize = 30;

/// Seconds to wait for a frame before asking again.
pub const READ_TIMEOUT_SECS: i64 = 2;

/// Where a mapped buffer lies in the client's address space.
#[derive(Clone, Copy, Debug, PartialEq, Eq, Structural)]
pub struct Memory {
    pub start: u64,
    pub length: usize,
}

/// One capture buffer of the client.
#[derive(Clone, Copy, Debug, PartialEq, Eq, Structural)]
pub struct Buffer {
    pub memories: Memory,
    pub bytesused: u32,
}

/// How far the client has come in bringing the stream up. Each phase but the
/// first and the last two names the action that was handed out last.
#[derive(Clone, Copy, Debug, PartialEq, Eq, Structural)]
pub enum Phase {
    Idle,
    Setup,
    QueryCap,
    CheckFormat,
    SwitchFormat,
    SetFps,
    RequestBuffers,
    QueryBuffer,
    MapBuffer,
    ResolvePfns,
    InformPfns,
    StartStream,
    QueueBuffer,
    Streaming,
    Failed,
}

/// Why a stream could not be brought up.
#[derive(Clone, Copy, Debug, PartialEq, Eq, Structural)]
pub enum CaptureError {
    /// The buffer could not be mapped.
    MapFailed,
    /// The page frames of the mapping could not be found.
    ResolveFailed,
    /// The driver granted no buffer.
    NoBuffer,
    /// Something was reported that the client was not waiting for.
    OutOfOrder,
}

/// What the program around the client does next.
#[derive(Debug)]
pub enum Action {
    /// Write each message to the helper, in this order, each in one write,
    /// then report the argument records with `written`.
    Write { messages: Vec<Vec<u8>> },
    /// Seek the helper to `pos`, write the message, then report the argument
    /// records with `written`.
    SeekWrite { pos: u64, message: Vec<u8> },
    /// Map `length` bytes of the video device from `offset` on, readable,
    /// writable and shared, then report the address with `mapped`.
    MapBuffer { length: u32, offset: u32 },
    /// Find the page frames of the `bytes` bytes at `addr`, then report
    /// them with `resolved`.
    Resolve { addr: u64, bytes: u64 },
    /// The stream runs; frames have this size.
    Done { width: u32, height: u32 },
    /// The stream cannot be brought up.
    Fail { error: CaptureError },
}

/// An action as a mathematical value.
pub enum ActionView {
    Write { messages: Seq<Seq<u8>> },
    SeekWrite { pos: u64, message: Seq<u8> },
    MapBuffer { length: u32, offset: u32 },
    Resolve { addr: u64, bytes: u64 },
    Done { width: u32, height: u32 },
    Fail { error: CaptureError },
}

/// A batch of messages as a mathematical value.
pub open spec fn batch_view(messages: Vec<Vec<u8>>) -> Seq<Seq<u8>> {
    Seq::new(messages@.len(), |i: int| messages@[i]@)
}

impl View for Action {
    type V = ActionView;

    open spec fn view(&self) -> ActionView {
        match *self {
            Action::Write { messages } => ActionView::Write { messages: batch_view(messages) },
            Action::SeekWrite { pos, message } => ActionView::SeekWrite { pos, message: message@ },
            Action::MapBuffer { length, offset } => ActionView::MapBuffer { length, offset },
            Action::Resolve { addr, bytes } => ActionView::Resolve { addr, bytes },
            Action::Done { width, height } => ActionView::Done { width, height },
            Action::Fail { error } => ActionView::Fail { error },
        }
    }
}

/// The state of a capture client.
#[derive(Debug)]
pub struct VideoCapture {
    /// The byte order of the machine.
    pub order: ByteOrder,
    pub is_open: bool,
    /// Frames per second that the driver granted.
    pub fps: u32,
    pub buffers: Vec<Buffer>,
    /// The argument records as the client last saw them.
    pub args: ArgRecords,
    /// Where the argument records lie in memory.
    pub addrs: ArgAddrs,
    pub phase: Phase,
    /// Frames per second to ask for.
    pub requested_fps: u32,
    /// Buffers that the caller wished for.
    pub requested_count: u32,
    pub frame_width: u32,
    pub frame_height: u32,
    /// Where the first buffer is mapped.
    pub mapped_at: u64,
}

/// The state of a capture client as a mathematical value.
pub struct CaptureView {
    pub order: ByteOrder,
    pub is_open: bool,
    pub fps: u32,
    pub buffers: Seq<Buffer>,
    pub args: ArgRecords,
    pub addrs: ArgAddrs,
    pub phase: Phase,
    pub requested_fps: u32,
    pub requested_count: u32,
    pub frame_width: u32,
    pub frame_height: u32,
    pub mapped_at: u64,
}

impl View for VideoCapture {
    type V = CaptureView;

    open spec fn view(&self) -> CaptureView {
        CaptureView {
            order: self.order,
            is_open: self.is_open,
            fps: self.fps,
            buffers: self.buffers@,
            args: self.args,
            addrs: self.addrs,
            phase: self.phase,
            requested_fps: self.requested_fps,
            requested_count: self.requested_count,
            frame_width: self.frame_width,
            frame_height: self.frame_height,
            mapped_at: self.mapped_at,
        }
    }
}

/// A buffer that is not mapped.
pub open spec fn blank_buffer() -> Buffer {
    Buffer { memories: Memory { start: 0, length: 0 }, bytesused: 0 }
}

/// The message that asks for the call `io_type`.
pub open spec fn ioctl_bytes(order: ByteOrder, io_type: u64) -> Seq<u8> {
    command_bytes(order, CommandView::DoIoctl { io_type })
}

/// The message that stores `uaddr` in the slot `set_type`.
pub open spec fn set_addr_bytes(order: ByteOrder, set_type: u64, uaddr: u64) -> Seq<u8> {
    command_bytes(order, CommandView::SetAddr { set_type, uaddr })
}

/// The seven messages that tell the helper where the argument records lie,
/// in the order of the slots.
pub open spec fn setup_messages(order: ByteOrder, addrs: ArgAddrs) -> Seq<Seq<u8>> {
    seq![
        set_addr_bytes(order, SLOT_CAP, addrs.cap),
        set_addr_bytes(order, SLOT_FORMAT, addrs.format),
        set_addr_bytes(order, SLOT_STREAMPARM, addrs.streamparm),
        set_addr_bytes(order, SLOT_REQBUFS, addrs.reqbuffers),
        set_addr_bytes(order, SLOT_BUF, addrs.bufs),
        set_addr_bytes(order, SLOT_START_TYPE, addrs.start_cap_type),
        set_addr_bytes(order, SLOT_STOP_TYPE, addrs.stop_cap_type),
    ]
}

/// A format record with the buffer type of a capture stream.
pub open spec fn capture_format(format: v4l2_format) -> v4l2_format {
    v4l2_format { type_: V4L2_BUF_TYPE_VIDEO_CAPTURE, fmt: format.fmt }
}

/// A format record with the pixel format `YUYV`.
pub open spec fn yuyv_format(format: v4l2_format) -> v4l2_format {
    with_pix(format, v4l2_pix_format { pixelformat: V4L2_PIX_FMT_YUYV, ..pix_of(format) })
}

/// A stream parameter record that asks for `value` frames per second.
pub open spec fn fps_parm(parm: v4l2_streamparm, value: u32) -> v4l2_streamparm {
    v4l2_streamparm {
        type_: V4L2_BUF_TYPE_VIDEO_CAPTURE,
        numerator: 1,
        denominator: value,
        ..parm
    }
}

/// A buffer request record that asks for one mapped capture buffer.
pub open spec fn single_request(req: v4l2_requestbuffers) -> v4l2_requestbuffers {
    v4l2_requestbuffers {
        count: 1,
        type_: V4L2_BUF_TYPE_VIDEO_CAPTURE,
        memory: V4L2_MEMORY_MMAP,
        ..req
    }
}

/// A buffer record that names the first mapped capture buffer.
pub open spec fn first_buffer(buf: v4l2_buffer) -> v4l2_buffer {
    v4l2_buffer {
        type_: V4L2_BUF_TYPE_VIDEO_CAPTURE,
        memory: V4L2_MEMORY_MMAP,
        index: 0,
        ..buf
    }
}

/// A buffer record that names a mapped capture buffer.
pub open spec fn mapped_buffer(buf: v4l2_buffer) -> v4l2_buffer {
    v4l2_buffer { type_: V4L2_BUF_TYPE_VIDEO_CAPTURE, memory: V4L2_MEMORY_MMAP, ..buf }
}

/// The client with other argument records.
pub open spec fn with_args(s: CaptureView, args: ArgRecords) -> CaptureView {
    CaptureView { args, ..s }
}

/// The client in another phase.
pub open spec fn in_phase(s: CaptureView, phase: Phase) -> CaptureView {
    CaptureView { phase, ..s }
}

/// Asking the device what it is: one call, or none where the device is not
/// open.
pub open spec fn query_cap_spec(s: CaptureView) -> (CaptureView, Seq<Seq<u8>>) {
    (
        s,
        if s.is_open {
            seq![ioctl_bytes(s.order, IO_QUERYCAP)]
        } else {
            Seq::empty()
        },
    )
}

/// Asking for the current format of capture frames.
pub open spec fn check_img_format_spec(s: CaptureView) -> (CaptureView, Seq<Seq<u8>>) {
    (
        with_args(s, ArgRecords { format: capture_format(s.args.format), ..s.args }),
        seq![ioctl_bytes(s.order, IO_G_FMT)],
    )
}

/// Asking for frames in the pixel format `YUYV`.
pub open spec fn switch_to_yuyv_spec(s: CaptureView) -> (CaptureView, Seq<Seq<u8>>) {
    (
        with_args(s, ArgRecords { format: yuyv_format(s.args.format), ..s.args }),
        seq![ioctl_bytes(s.order, IO_S_FMT)],
    )
}

/// Asking for `value` frames per second and reading back what was granted.
pub open spec fn set_fps_spec(s: CaptureView, value: u32) -> (CaptureView, Seq<Seq<u8>>) {
    (
        with_args(s, ArgRecords { streamparm: fps_parm(s.args.streamparm, value), ..s.args }),
        seq![ioctl_bytes(s.order, IO_S_PARM), ioctl_bytes(s.order, IO_G_PARM)],
    )
}

/// Asking for buffers: for one, however many the caller wished for.
pub open spec fn request_buffer_spec(s: CaptureView, count: u32) -> (CaptureView, Seq<Seq<u8>>) {
    (
        with_args(s, ArgRecords { reqbuffers: single_request(s.args.reqbuffers), ..s.args }),
        seq![ioctl_bytes(s.order, IO_REQBUFS)],
    )
}

/// Asking where the first buffer lies.
pub open spec fn query_buffer_spec(s: CaptureView) -> (CaptureView, Seq<Seq<u8>>) {
    (
        with_args(s, ArgRecords { bufs: first_buffer(s.args.bufs), ..s.args }),
        seq![ioctl_bytes(s.order, IO_QUERYBUF)],
    )
}

/// Handing the first buffer to the driver.
pub open spec fn queue_buffer_spec(s: CaptureView) -> (CaptureView, Seq<Seq<u8>>) {
    (
        with_args(s, ArgRecords { bufs: first_buffer(s.args.bufs), ..s.args }),
        seq![ioctl_bytes(s.order, IO_QBUF)],
    )
}

/// A step that moves the client to `phase` and has it write `step.1`.
pub open spec fn write_step(step: (CaptureView, Seq<Seq<u8>>), phase: Phase) -> (
    CaptureView,
    ActionView,
) {
    (in_phase(step.0, phase), ActionView::Write { messages: step.1 })
}

/// A step that ends the bring-up with an error.
pub open spec fn fail_step(s: CaptureView, error: CaptureError) -> (CaptureView, ActionView) {
    (in_phase(s, Phase::Failed), ActionView::Fail { error })
}

/// The first step of the bring-up: the client notes where the argument
/// records lie and what the caller asks for, and tells the helper the
/// addresses.
pub open spec fn prep_stream_spec(
    s: CaptureView,
    addrs: ArgAddrs,
    buffer_count: Option<usize>,
    fps: Option<usize>,
) -> (CaptureView, ActionView) {
    let noted = CaptureView {
        addrs,
        requested_count: (match buffer_count {
            Some(count) => count,
            None => MAX_V4L_BUFFERS,
        }) as u32,
        requested_fps: (match fps {
            Some(value) => value,
            None => DEFAULT_STREAM_FPS,
        }) as u32,
        ..s
    };
    write_step((noted, setup_messages(s.order, addrs)), Phase::Setup)
}

/// The step after the helper took the messages of the last action; `records`
/// are the argument records as they then are in memory.
///
/// The steps follow one another in a fixed order: addresses, capabilities,
/// current format (whose frame size is the one reported at the end), format
/// `YUYV`, frame rate, buffer request, buffer query, mapping, page frames,
/// stream on, first buffer queued.
pub open spec fn written_spec(pre: CaptureView, records: ArgRecords) -> (CaptureView, ActionView) {
    let s = with_args(pre, records);
    match pre.phase {
        Phase::Setup => write_step(query_cap_spec(s), Phase::QueryCap),
        Phase::QueryCap => write_step(check_img_format_spec(s), Phase::CheckFormat),
        Phase::CheckFormat => write_step(
            switch_to_yuyv_spec(
                CaptureView {
                    frame_width: pix_of(records.format).width,
                    frame_height: pix_of(records.format).height,
                    ..s
                },
            ),
            Phase::SwitchFormat,
        ),
        Phase::SwitchFormat => write_step(set_fps_spec(s, s.requested_fps), Phase::SetFps),
        Phase::SetFps => write_step(
            request_buffer_spec(
                CaptureView { fps: records.streamparm.denominator, ..s },
                s.requested_count,
            ),
            Phase::RequestBuffers,
        ),
        Phase::RequestBuffers => write_step(
            query_buffer_spec(
                CaptureView {
                    buffers: Seq::new(records.reqbuffers.count as nat, |i: int| blank_buffer()),
                    ..s
                },
            ),
            Phase::QueryBuffer,
        ),
        Phase::QueryBuffer => (
            in_phase(s, Phase::MapBuffer),
            ActionView::MapBuffer { length: records.bufs.length, offset: records.bufs.offset },
        ),
        Phase::InformPfns => if s.buffers.len() == 0 {
            fail_step(s, CaptureError::NoBuffer)
        } else {
            write_step(
                (
                    CaptureView {
                        buffers: s.buffers.update(
                            0,
                            Buffer {
                                memories: Memory {
                                    start: s.mapped_at,
                                    length: records.bufs.length as usize,
                                },
                                bytesused: records.bufs.bytesused,
                            },
                        ),
                        ..s
                    },
                    seq![ioctl_bytes(s.order, IO_STREAMON)],
                ),
                Phase::StartStream,
            )
        },
        Phase::StartStream => write_step(queue_buffer_spec(s), Phase::QueueBuffer),
        Phase::QueueBuffer => (
            in_phase(s, Phase::Streaming),
            ActionView::Done { width: s.frame_width, height: s.frame_height },
        ),
        _ => fail_step(pre, CaptureError::OutOfOrder),
    }
}

/// The step after the buffer was mapped at `addr`, or could not be mapped.
pub open spec fn mapped_spec(pre: CaptureView, addr: Option<u64>) -> (CaptureView, ActionView) {
    if pre.phase != Phase::MapBuffer {
        fail_step(pre, CaptureError::OutOfOrder)
    } else {
        match addr {
            Some(addr) => (
                CaptureView { mapped_at: addr, phase: Phase::ResolvePfns, ..pre },
                ActionView::Resolve { addr, bytes: pre.args.bufs.length as u64 },
            ),
            None => fail_step(pre, CaptureError::MapFailed),
        }
    }
}

/// The step after the page frames of the mapping were found, or could not
/// be: the helper is told the page frames of its first buffer.
pub open spec fn resolved_spec(pre: CaptureView, pfns: Option<Seq<u64>>) -> (
    CaptureView,
    ActionView,
) {
    if pre.phase != Phase::ResolvePfns {
        fail_step(pre, CaptureError::OutOfOrder)
    } else {
        match pfns {
            Some(pfns) => (
                in_phase(pre, Phase::InformPfns),
                ActionView::SeekWrite {
                    pos: 0,
                    message: command_bytes(pre.order, CommandView::SetPfns { pfns }),
                },
            ),
            None => fail_step(pre, CaptureError::ResolveFailed),
        }
    }
}

/// The page frames that were reported, as a mathematical value.
pub open spec fn pfns_view(pfns: Option<&[u64]>) -> Option<Seq<u64>> {
    match pfns {
        Some(pfns) => Some(pfns@),
        None => None,
    }
}

/// A batch of one message.
fn batch_of_one(message: Vec<u8>) -> (messages: Vec<Vec<u8>>)
    ensures
        batch_view(messages) == seq![message@],
{
    let mut messages: Vec<Vec<u8>> = Vec::new();
    messages.push(message);
    assert(batch_view(messages) =~= seq![message@]);
    messages
}

impl Buffer {
    /// A buffer that is not mapped.
    pub fn new() -> (buffer: Self)
        ensures
            buffer == blank_buffer(),
    {
        Buffer { memories: Memory { start: 0, length: 0 }, bytesused: 0 }
    }
}

impl VideoCapture {
    /// A client that has not spoken to the helper yet, on a machine of the
    /// given byte order.
    pub fn new(order: ByteOrder) -> (capture: Self)
        ensures
            capture.order == order,
            capture.is_open,
            capture.fps == 0,
            capture.buffers@.len() == 0,
            capture.phase == Phase::Idle,
            capture.args.start_cap_type == V4L2_BUF_TYPE_VIDEO_CAPTURE,
            capture.args.stop_cap_type == V4L2_BUF_TYPE_VIDEO_CAPTURE,
            capture.frame_width == 0,
            capture.frame_height == 0,
            capture.addrs == (ArgAddrs {
                cap: 0,
                format: 0,
                streamparm: 0,
                reqbuffers: 0,
                bufs: 0,
                start_cap_type: 0,
                stop_cap_type: 0,
            }),
            capture.requested_fps == 0,
            capture.requested_count == 0,
            capture.mapped_at == 0,
    {
        VideoCapture {
            order,
            is_open: true,
            fps: 0,
            buffers: Vec::new(),
            args: ArgRecords::new(),
            addrs: ArgAddrs {
                cap: 0,
                format: 0,
                streamparm: 0,
                reqbuffers: 0,
                bufs: 0,
                start_cap_type: 0,
                stop_cap_type: 0,
            },
            phase: Phase::Idle,
            requested_fps: 0,
            requested_count: 0,
            frame_width: 0,
            frame_height: 0,
            mapped_at: 0,
        }
    }

    /// The message that stores `uaddr` in the slot `set_type` of the helper.
    pub fn write_uaddr(&self, set_type: u64, uaddr: u64) -> (message: Vec<u8>)
        ensures
            message@ == set_addr_bytes(self.order, set_type, uaddr),
    {
        set_addr_message(self.order, set_type, uaddr)
    }

    /// The seven messages that tell the helper where the argument records
    /// lie.
    pub fn setup_module(&self) -> (messages: Vec<Vec<u8>>)
        ensures
            batch_view(messages) == setup_messages(self.order, self.addrs),
    {
        let mut messages: Vec<Vec<u8>> = Vec::new();
        messages.push(self.write_uaddr(SLOT_CAP, self.addrs.cap));
        messages.push(self.write_uaddr(SLOT_FORMAT, self.addrs.format));
        messages.push(self.write_uaddr(SLOT_STREAMPARM, self.addrs.streamparm));
        messages.push(self.write_uaddr(SLOT_REQBUFS, self.addrs.reqbuffers));
        messages.push(self.write_uaddr(SLOT_BUF, self.addrs.bufs));
        messages.push(self.write_uaddr(SLOT_START_TYPE, self.addrs.start_cap_type));
        messages.push(self.write_uaddr(SLOT_STOP_TYPE, self.addrs.stop_cap_type));
        assert(batch_view(messages) =~= setup_messages(self.order, self.addrs));
        messages
    }

    /// The message that asks the helper for the call `io_type`.
    pub fn start_ioctl(&self, io_type: u64) -> (message: Vec<u8>)
        ensures
            message@ == ioctl_bytes(self.order, io_type),
    {
        ioctl_message(self.order, io_type)
    }

    /// Begins to bring the stream up.
    pub fn prep_stream(
        &mut self,
        addrs: ArgAddrs,
        buffer_count: Option<usize>,
        fps: Option<usize>,
    ) -> (action: Action)
        ensures
            (final(self)@, action@) == prep_stream_spec(old(self)@, addrs, buffer_count, fps),
    {
        self.addrs = addrs;
        self.requested_count = (match buffer_count {
            Some(count) => count,
            None => MAX_V4L_BUFFERS,
        }) as u32;
        self.requested_fps = (match fps {
            Some(value) => value,
            None => DEFAULT_STREAM_FPS,
        }) as u32;
        self.phase = Phase::Setup;
        Action::Write { messages: self.setup_module() }
    }

    /// Asks the device what it is.
    pub fn query_cap(&mut self) -> (messages: Vec<Vec<u8>>)
        ensures
            (final(self)@, batch_view(messages)) == query_cap_spec(old(self)@),
    {
        if !self.is_open {
            let messages: Vec<Vec<u8>> = Vec::new();
            assert(batch_view(messages) =~= Seq::<Seq<u8>>::empty());
            return messages;
        }
        batch_of_one(self.start_ioctl(IO_QUERYCAP))
    }

    /// Asks for the current format of capture frames.
    pub fn check_img_format(&mut self) -> (messages: Vec<Vec<u8>>)
        ensures
            (final(self)@, batch_view(messages)) == check_img_format_spec(old(self)@),
    {
        self.args.format.type_ = V4L2_BUF_TYPE_VIDEO_CAPTURE;
        batch_of_one(self.start_ioctl(IO_G_FMT))
    }

    /// Asks for frames in the pixel format `YUYV`.
    pub fn switch_to_yuyv(&mut self) -> (messages: Vec<Vec<u8>>)
        ensures
            (final(self)@, batch_view(messages)) == switch_to_yuyv_spec(old(self)@),
    {
        match self.args.format.fmt {
            Fmt::Pix(pix_format) => {
                let mut pix_format = pix_format;
                pix_format.pixelformat = V4L2_PIX_FMT_YUYV;
                self.args.format.fmt = Fmt::Pix(pix_format);
            },
        }
        batch_of_one(self.start_ioctl(IO_S_FMT))
    }

    /// Asks for `value` frames per second and for what was granted.
    pub fn set_fps(&mut self, value: u32) -> (messages: Vec<Vec<u8>>)
        ensures
            (final(self)@, batch_view(messages)) == set_fps_spec(old(self)@, value),
    {
        self.args.streamparm.type_ = V4L2_BUF_TYPE_VIDEO_CAPTURE;
        self.args.streamparm.numerator = 1;
        self.args.streamparm.denominator = value;
        let mut messages: Vec<Vec<u8>> = Vec::new();
        messages.push(self.start_ioctl(IO_S_PARM));
        messages.push(self.start_ioctl(IO_G_PARM));
        assert(batch_view(messages) =~= seq![
            ioctl_bytes(self.order, IO_S_PARM),
            ioctl_bytes(self.order, IO_G_PARM),
        ]);
        messages
    }

    /// Asks for buffers. The request is for one buffer, whatever `count`
    /// says: the client and the helper work with the first buffer alone.
    pub fn request_buffer(&mut self, count: u32) -> (messages: Vec<Vec<u8>>)
        ensures
            (final(self)@, batch_view(messages)) == request_buffer_spec(old(self)@, count),
    {
        self.args.reqbuffers.count = 1;
        self.args.reqbuffers.type_ = V4L2_BUF_TYPE_VIDEO_CAPTURE;
        self.args.reqbuffers.memory = V4L2_MEMORY_MMAP;
        batch_of_one(self.start_ioctl(IO_REQBUFS))
    }

    /// Asks where the first buffer lies.
    pub fn query_buffer(&mut self) -> (messages: Vec<Vec<u8>>)
        ensures
            (final(self)@, batch_view(messages)) == query_buffer_spec(old(self)@),
    {
        self.args.bufs.type_ = V4L2_BUF_TYPE_VIDEO_CAPTURE;
        self.args.bufs.memory = V4L2_MEMORY_MMAP;
        self.args.bufs.index = 0;
        batch_of_one(self.start_ioctl(IO_QUERYBUF))
    }

    /// The message that tells the helper the page frames of a buffer, and
    /// the position to seek to before it is written: the buffer's index.
    pub fn inform_pfns(&self, pfns: &[u64], index: usize) -> (r: (u64, Vec<u8>))
        ensures
            r.0 == index,
            r.1@ == command_bytes(self.order, CommandView::SetPfns { pfns: pfns@ }),
    {
        (index as u64, pfns_message(self.order, pfns))
    }

    /// The message that starts the stream.
    pub fn start_stream(&self) -> (message: Vec<u8>)
        ensures
            message@ == ioctl_bytes(self.order, IO_STREAMON),
    {
        self.start_ioctl(IO_STREAMON)
    }

    /// The message that stops the stream.
    pub fn stop_stream(&self) -> (message: Vec<u8>)
        ensures
            message@ == ioctl_bytes(self.order, IO_STREAMOFF),
    {
        self.start_ioctl(IO_STREAMOFF)
    }

    /// Hands the first buffer to the driver.
    pub fn queue_buffer(&mut self) -> (messages: Vec<Vec<u8>>)
        ensures
            (final(self)@, batch_view(messages)) == queue_buffer_spec(old(self)@),
    {
        self.args.bufs.type_ = V4L2_BUF_TYPE_VIDEO_CAPTURE;
        self.args.bufs.memory = V4L2_MEMORY_MMAP;
        self.args.bufs.index = 0;
        batch_of_one(self.start_ioctl(IO_QBUF))
    }

    /// Ends the bring-up with an error.
    fn fail(&mut self, error: CaptureError) -> (action: Action)
        ensures
            (final(self)@, action@) == fail_step(old(self)@, error),
    {
        self.phase = Phase::Failed;
        Action::Fail { error }
    }

    /// Takes the argument records as they are in memory after the messages
    /// of the last action were written, and returns the next action.
    pub fn written(&mut self, records: ArgRecords) -> (action: Action)
        ensures
            (final(self)@, action@) == written_spec(old(self)@, records),
    {
        match self.phase {
            Phase::Setup => {
                self.args = records;
                self.phase = Phase::QueryCap;
                Action::Write { messages: self.query_cap() }
            },
            Phase::QueryCap => {
                self.args = records;
                self.phase = Phase::CheckFormat;
                Action::Write { messages: self.check_img_format() }
            },
            Phase::CheckFormat => {
                self.args = records;
                match records.format.fmt {
                    Fmt::Pix(pix_format) => {
                        self.frame_width = pix_format.width;
                        self.frame_height = pix_format.height;
                    },
                }
                self.phase = Phase::SwitchFormat;
                Action::Write { messages: self.switch_to_yuyv() }
            },
            Phase::SwitchFormat => {
                self.args = records;
                self.phase = Phase::SetFps;
                let value: u32 = self.requested_fps;
                Action::Write { messages: self.set_fps(value) }
            },
            Phase::SetFps => {
                self.args = records;
                self.fps = records.streamparm.denominator;
                self.phase = Phase::RequestBuffers;
                let count: u32 = self.requested_count;
                Action::Write { messages: self.request_buffer(count) }
            },
            Phase::RequestBuffers => {
                self.args = records;
                let granted: u32 = records.reqbuffers.count;
                let mut buffers: Vec<Buffer> = Vec::new();
                let mut i: u32 = 0;
                while i < granted
                    invariant
                        i <= granted,
                        buffers@.len() == i,
                        forall|j: int| 0 <= j < i ==> buffers@[j] == blank_buffer(),
                    decreases granted - i,
                {
                    buffers.push(Buffer::new());
                    i = i + 1;
                }
                assert(buffers@ =~= Seq::new(granted as nat, |i: int| blank_buffer()));
                self.buffers = buffers;
                self.phase = Phase::QueryBuffer;
                Action::Write { messages: self.query_buffer() }
            },
            Phase::QueryBuffer => {
                self.args = records;
                self.phase = Phase::MapBuffer;
                Action::MapBuffer { length: records.bufs.length, offset: records.bufs.offset }
            },
            Phase::InformPfns => {
                self.args = records;
                if self.buffers.len() == 0 {
                    return self.fail(CaptureError::NoBuffer);
                }
                let mapped = Buffer {
                    memories: Memory {
                        start: self.mapped_at,
                        length: records.bufs.length as usize,
                    },
                    bytesused: records.bufs.bytesused,
                };
                self.buffers.set(0, mapped);
                self.phase = Phase::StartStream;
                Action::Write { messages: batch_of_one(self.start_stream()) }
            },
            Phase::StartStream => {
                self.args = records;
                self.phase = Phase::QueueBuffer;
                Action::Write { messages: self.queue_buffer() }
            },
            Phase::QueueBuffer => {
                self.args = records;
                self.phase = Phase::Streaming;
                Action::Done { width: self.frame_width, height: self.frame_height }
            },
            _ => self.fail(CaptureError::OutOfOrder),
        }
    }

    /// Takes the address at which the buffer was mapped, or nothing where it
    /// could not be mapped, and returns the next action.
    pub fn mapped(&mut self, addr: Option<u64>) -> (action: Action)
        ensures
            (final(self)@, action@) == mapped_spec(old(self)@, addr),
    {
        if self.phase != Phase::MapBuffer {
            return self.fail(CaptureError::OutOfOrder);
        }
        match addr {
            Some(addr) => {
                self.mapped_at = addr;
                self.phase = Phase::ResolvePfns;
                Action::Resolve { addr, bytes: self.args.bufs.length as u64 }
            },
            None => self.fail(CaptureError::MapFailed),
        }
    }

    /// Takes the page frames of the mapping, or nothing where they could not
    /// be found, and returns the next action.
    pub fn resolved(&mut self, pfns: Option<&[u64]>) -> (action: Action)
        ensures
            (final(self)@, action@) == resolved_spec(old(self)@, pfns_view(pfns)),
    {
        if self.phase != Phase::ResolvePfns {
            return self.fail(CaptureError::OutOfOrder);
        }
        match pfns {
            Some(pfns) => {
                let (pos, message) = self.inform_pfns(pfns, 0);
                self.phase = Phase::InformPfns;
                Action::SeekWrite { pos, message }
            },
            None => self.fail(CaptureError::ResolveFailed),
        }
    }

    /// Prepares the buffer record for a read and says how many bytes to read
    /// from the helper: the length of the first buffer.
    pub fn read_frame(&mut self) -> (length: usize)
        ensures
            final(self)@ == with_args(
                old(self)@,
                ArgRecords { bufs: mapped_buffer(old(self)@.args.bufs), ..old(self)@.args },
            ),
            length == old(self)@.args.bufs.length as usize,
    {
        self.args.bufs.type_ = V4L2_BUF_TYPE_VIDEO_CAPTURE;
        self.args.bufs.memory = V4L2_MEMORY_MMAP;
        self.args.bufs.length as usize
    }

    /// The first step of a read: wait for the helper.
    pub fn read(&self) -> (step: ReadStep)
        ensures
            step == (ReadStep::Wait { seconds: READ_TIMEOUT_SECS }),
    {
        ReadStep::Wait { seconds: READ_TIMEOUT_SECS }
    }

    /// The step after the wait for the helper ended.
    pub fn after_wait(&mut self, outcome: WaitOutcome) -> (step: ReadStep)
        ensures
            step == after_wait_spec(old(self)@, outcome),
            final(self)@ == (if outcome == WaitOutcome::Ready {
                with_args(
                    old(self)@,
                    ArgRecords { bufs: mapped_buffer(old(self)@.args.bufs), ..old(self)@.args },
                )
            } else {
                old(self)@
            }),
    {
        match outcome {
            WaitOutcome::Ready => ReadStep::ReadFrame { length: self.read_frame() },
            WaitOutcome::TimedOut => ReadStep::Wait { seconds: READ_TIMEOUT_SECS },
            WaitOutcome::Failed(Errno::EINTR) => ReadStep::Wait { seconds: READ_TIMEOUT_SECS },
            WaitOutcome::Failed(errno) => ReadStep::GiveUp { errno },
        }
    }

    /// The step after the read from the helper ended.
    pub fn after_frame(&self, outcome: FrameOutcome) -> (step: ReadStep)
        ensures
            step == after_frame_spec(outcome),
    {
        match frame_result(outcome) {
            Ok(()) => ReadStep::Deliver,
            Err(Errno::EAGAIN) => ReadStep::Wait { seconds: READ_TIMEOUT_SECS },
            Err(errno) => ReadStep::GiveUp { errno },
        }
    }

    /// What is to be given back when the client goes: the message that stops
    /// the stream, to be written first, and then every buffer's mapping.
    pub fn teardown(&self) -> (r: Teardown)
        ensures
            r.stop@ == ioctl_bytes(self.order, IO_STREAMOFF),
            r.unmaps@ == Seq::new(self.buffers@.len(), |i: int| self.buffers@[i].memories),
    {
        let stop = self.stop_stream();
        let mut unmaps: Vec<Memory> = Vec::new();
        let n: usize = self.buffers.len();
        let mut i: usize = 0;
        while i < n
            invariant
                i <= n == self.buffers@.len(),
                unmaps@.len() == i,
                forall|j: int| 0 <= j < i ==> unmaps@[j] == self.buffers@[j].memories,
            decreases n - i,
        {
            unmaps.push(self.buffers[i].memories);
            i = i + 1;
        }
        assert(unmaps@ =~= Seq::new(
            self.buffers@.len(),
            |i: int| self.buffers@[i].memories,
        ));
        Teardown { stop, unmaps }
    }
}

/// The error numbers that a read tells apart.
#[derive(Clone, Copy, Debug, PartialEq, Eq, Structural)]
pub enum Errno {
    /// The wait was interrupted.
    EINTR,
    /// Nothing to read yet.
    EAGAIN,
    /// The frame could not be read.
    EADDRNOTAVAIL,
    /// Any other error, by its number.
    Other(i32),
}

/// How the wait for the helper ended.
#[derive(Clone, Copy, Debug, PartialEq, Eq, Structural)]
pub enum WaitOutcome {
    /// The helper can be read.
    Ready,
    /// The time was up.
    TimedOut,
    /// The wait failed.
    Failed(Errno),
}

/// How the read from the helper ended.
#[derive(Clone, Copy, Debug, PartialEq, Eq, Structural)]
pub enum FrameOutcome {
    /// The read returned.
    Read,
    /// The read failed.
    Failed,
}

/// What the program around the client does next to get a frame.
#[derive(Clone, Copy, Debug, PartialEq, Eq, Structural)]
pub enum ReadStep {
    /// Wait until the helper can be read, this many seconds at most, then
    /// report with `after_wait`.
    Wait { seconds: i64 },
    /// Read this many bytes from the helper into a buffer of this length,
    /// then report with `after_frame`.
    ReadFrame { length: usize },
    /// The buffer is the frame.
    Deliver,
    /// The read has failed.
    GiveUp { errno: Errno },
}

/// What the client gives back at its end.
#[derive(Debug)]
pub struct Teardown {
    pub stop: Vec<u8>,
    pub unmaps: Vec<Memory>,
}

/// The result of reading a frame: any failure counts as an address that is
/// not available.
pub open spec fn frame_result_spec(outcome: FrameOutcome) -> Result<(), Errno> {
    match outcome {
        FrameOutcome::Read => Ok(()),
        FrameOutcome::Failed => Err(Errno::EADDRNOTAVAIL),
    }
}

/// The step after a wait: read when the helper is ready, wait again when
/// the time was up or the wait was interrupted, give up on any other error.
pub open spec fn after_wait_spec(s: CaptureView, outcome: WaitOutcome) -> ReadStep {
    match outcome {
        WaitOutcome::Ready => ReadStep::ReadFrame { length: s.args.bufs.length as usize },
        WaitOutcome::TimedOut => ReadStep::Wait { seconds: READ_TIMEOUT_SECS },
        WaitOutcome::Failed(errno) => if errno == Errno::EINTR {
            ReadStep::Wait { seconds: READ_TIMEOUT_SECS }
        } else {
            ReadStep::GiveUp { errno }
        },
    }
}

/// The step after a read: the frame is there, or the read has failed.
pub open spec fn after_frame_spec(outcome: FrameOutcome) -> ReadStep {
    match frame_result_spec(outcome) {
        Ok(_) => ReadStep::Deliver,
        Err(errno) => if errno == Errno::EAGAIN {
            ReadStep::Wait { seconds: READ_TIMEOUT_SECS }
        } else {
            ReadStep::GiveUp { errno }
        },
    }
}

/// The result of reading a frame.
pub fn frame_result(outcome: FrameOutcome) -> (r: Result<(), Errno>)
    ensures
        r == frame_result_spec(outcome),
{
    match outcome {
        FrameOutcome::Read => Ok(()),
        FrameOutcome::Failed => Err(Errno::EADDRNOTAVAIL),
    }
}

/// The writes of a bring-up come in one order, whatever the driver answers:
/// seven addresses; the calls for capabilities, current format, new format,
/// frame rate set and read back, buffer request and buffer query; the page
/// frames of the first buffer at position 0; stream on; first buffer queued.
/// In between, the buffer that the query described is mapped and resolved.
/// At the end the stream runs with the frame size that the current format
/// had, the frame rate that was read back, and the first buffer mapped.
pub proof fn lemma_bring_up_order(
    s: CaptureView,
    addrs: ArgAddrs,
    buffer_count: Option<usize>,
    fps: Option<usize>,
    records: Seq<ArgRecords>,
    addr: u64,
    pfns: Seq<u64>,
)
    requires
        s.is_open,
        records.len() == 10,
        records[5].reqbuffers.count > 0,
    ensures
        ({
            let order = s.order;
            let t0 = prep_stream_spec(s, addrs, buffer_count, fps);
            let t1 = written_spec(t0.0, records[0]);
            let t2 = written_spec(t1.0, records[1]);
            let t3 = written_spec(t2.0, records[2]);
            let t4 = written_spec(t3.0, records[3]);
            let t5 = written_spec(t4.0, records[4]);
            let t6 = written_spec(t5.0, records[5]);
            let t7 = written_spec(t6.0, records[6]);
            let t8 = mapped_spec(t7.0, Some(addr));
            let t9 = resolved_spec(t8.0, Some(pfns));
            let t10 = written_spec(t9.0, records[7]);
            let t11 = written_spec(t10.0, records[8]);
            let t12 = written_spec(t11.0, records[9]);
            &&& t0.1 == ActionView::Write { messages: setup_messages(order, addrs) }
            &&& t1.1 == ActionView::Write { messages: seq![ioctl_bytes(order, IO_QUERYCAP)] }
            &&& t2.1 == ActionView::Write { messages: seq![ioctl_bytes(order, IO_G_FMT)] }
            &&& t3.1 == ActionView::Write { messages: seq![ioctl_bytes(order, IO_S_FMT)] }
            &&& t4.1 == ActionView::Write {
                messages: seq![ioctl_bytes(order, IO_S_PARM), ioctl_bytes(order, IO_G_PARM)],
            }
            &&& t5.1 == ActionView::Write { messages: seq![ioctl_bytes(order, IO_REQBUFS)] }
            &&& t6.1 == ActionView::Write { messages: seq![ioctl_bytes(order, IO_QUERYBUF)] }
            &&& t7.1 == ActionView::MapBuffer {
                length: records[6].bufs.length,
                offset: records[6].bufs.offset,
            }
            &&& t8.1 == ActionView::Resolve { addr, bytes: records[6].bufs.length as u64 }
            &&& t9.1 == ActionView::SeekWrite {
                pos: 0,
                message: command_bytes(order, CommandView::SetPfns { pfns }),
            }
            &&& t10.1 == ActionView::Write { messages: seq![ioctl_bytes(order, IO_STREAMON)] }
            &&& t11.1 == ActionView::Write { messages: seq![ioctl_bytes(order, IO_QBUF)] }
            &&& t12.1 == ActionView::Done {
                width: pix_of(records[2].format).width,
                height: pix_of(records[2].format).height,
            }
            &&& t12.0.phase == Phase::Streaming
            &&& t12.0.fps == records[4].streamparm.denominator
            &&& t12.0.buffers.len() == records[5].reqbuffers.count
            &&& t12.0.buffers[0] == Buffer {
                memories: Memory { start: addr, length: records[7].bufs.length as usize },
                bytesused: records[7].bufs.bytesused,
            }
        }),
{
}

/// The argument records that the driver is called with carry what the
/// client asks for: before the format is read, the buffer type of a capture
/// stream; before it is set, the pixel format `YUYV`; before the frame rate
/// is set, one over the rate that was asked for; before buffers are
/// requested, one mapped capture buffer; before a buffer is queried or
/// queued, the first one.
pub proof fn lemma_records_before_calls(s: CaptureView, records: ArgRecords)
    ensures
        s.phase == Phase::QueryCap ==> written_spec(s, records).0.args.format.type_
            == V4L2_BUF_TYPE_VIDEO_CAPTURE,
        s.phase == Phase::CheckFormat ==> pix_of(written_spec(s, records).0.args.format).pixelformat
            == V4L2_PIX_FMT_YUYV,
        s.phase == Phase::SwitchFormat ==> {
            let parm = written_spec(s, records).0.args.streamparm;
            &&& parm.type_ == V4L2_BUF_TYPE_VIDEO_CAPTURE
            &&& parm.numerator == 1
            &&& parm.denominator == s.requested_fps
        },
        s.phase == Phase::SetFps ==> {
            let req = written_spec(s, records).0.args.reqbuffers;
            &&& req.count == 1
            &&& req.type_ == V4L2_BUF_TYPE_VIDEO_CAPTURE
            &&& req.memory == V4L2_MEMORY_MMAP
        },
        s.phase == Phase::RequestBuffers || s.phase == Phase::StartStream ==> {
            let buf = written_spec(s, records).0.args.bufs;
            &&& buf.index == 0
            &&& buf.type_ == V4L2_BUF_TYPE_VIDEO_CAPTURE
            &&& buf.memory == V4L2_MEMORY_MMAP
        },
{
}

} // verus!
