//! The state of the camera helper and what each operation on its character
//! device does to it.
//!
//! The helper keeps seven addresses of argument records that live in the
//! client's memory, the page frames of each capture buffer, and a seek cursor
//! that names the buffer whose page frames the next message sets. It never
//! looks behind the addresses: a call into the video driver gets the address
//! as it was stored.

use crate::bytes::{u64_at, ByteOrder};
use crate::ioctl::{
    VIDIOC_DQBUF, VIDIOC_G_FMT, VIDIOC_G_PARM, VIDIOC_QBUF, VIDIOC_QUERYBUF, VIDIOC_QUERYCAP,
    VIDIOC_REQBUFS, VIDIOC_STREAMOFF, VIDIOC_STREAMON, VIDIOC_S_FMT, VIDIOC_S_PARM,
};
use crate::pagemap::{lemma_page_count_covers, page_count_spec};
use crate::protocol::{
    parse_command, parse_spec, pfns_at, Command, CommandView, ProtocolError, CMD_SET_PFNS,
};
use vstd::prelude::*;
use vstd::wrapping::u64_specs::{wrapping_add, wrapping_mul};

verus! {

/// Slot of the capability record.
pub const SLOT_CAP: u64 = 0;

/// Slot of the format record.
pub const SLOT_FORMAT: u64 = 1;

/// Slot of the stream parameter record.
pub const SLOT_STREAMPARM: u64 = 2;

/// Slot of the buffer request record.
pub const SLOT_REQBUFS: u64 = 3;

/// Slot of the buffer record.
pub const SLOT_BUF: u64 = 4;

/// Slot of the buffer type that starts the stream.
pub const SLOT_START_TYPE: u64 = 5;

/// Slot of the buffer type that stops the stream.
pub const SLOT_STOP_TYPE: u64 = 6;

/// Number of slots.
pub const SLOT_COUNT: u64 = 7;

/// Call that fills the capability record.
pub const IO_QUERYCAP: u64 = 0;

/// Call that reads the current format.
pub const IO_G_FMT: u64 = 1;

/// Call that sets the format.
pub const IO_S_FMT: u64 = 2;

/// Call that sets the frame rate.
pub const IO_S_PARM: u64 = 3;

/// Call that reads the frame rate back.
pub const IO_G_PARM: u64 = 4;

/// Call that requests capture buffers.
pub const IO_REQBUFS: u64 = 5;

/// Call that fills length and offset of a buffer.
pub const IO_QUERYBUF: u64 = 6;

/// Call that hands a buffer to the driver.
pub const IO_QBUF: u64 = 7;

/// Call that starts the stream.
pub const IO_STREAMON: u64 = 8;

/// Call that stops the stream.
pub const IO_STREAMOFF: u64 = 9;

/// The addresses of the seven argument records, as the client sees them.
#[derive(Clone, Copy, Debug, PartialEq, Eq, Structural)]
pub struct ArgAddrs {
    pub cap: u64,
    pub format: u64,
    pub streamparm: u64,
    pub reqbuffers: u64,
    pub bufs: u64,
    pub start_cap_type: u64,
    pub stop_cap_type: u64,
}

/// One call into the video driver: the request number and the address that
/// is passed with it.
#[derive(Clone, Copy, Debug, PartialEq, Eq, Structural)]
pub struct IoctlCall {
    pub cmd: u32,
    pub arg: u64,
}

/// Where a seek on the helper's device is measured from.
#[derive(Clone, Copy, Debug, PartialEq, Eq, Structural)]
pub enum SeekFrom {
    Start(u64),
    End(i64),
    Current(i64),
}

/// What the helper remembers between operations.
#[derive(Debug)]
pub struct HelperState {
    pub seek_pos: u64,
    pub buffers: Vec<Vec<u64>>,
    pub addrs: ArgAddrs,
}

/// The helper's state as a mathematical value.
pub struct HelperView {
    pub seek_pos: u64,
    pub buffers: Seq<Seq<u64>>,
    pub addrs: ArgAddrs,
}

impl View for HelperState {
    type V = HelperView;

    open spec fn view(&self) -> HelperView {
        HelperView {
            seek_pos: self.seek_pos,
            buffers: Seq::new(self.buffers@.len(), |i: int| self.buffers@[i]@),
            addrs: self.addrs,
        }
    }
}

/// What one write on the device did.
#[derive(Clone, Copy, Debug, PartialEq, Eq, Structural)]
pub struct WriteOutcome {
    /// Bytes taken from the writer: always all of them.
    pub consumed: usize,
    /// The call into the video driver that the message asks for, if any.
    pub call: Option<IoctlCall>,
}

/// One page to copy into the frame that a read returns.
#[derive(Clone, Copy, Debug, PartialEq, Eq, Structural)]
pub struct PageCopy {
    /// Kernel address of the first byte of the page.
    pub src: u64,
    /// Where in the frame the page goes.
    pub dst: usize,
    /// Bytes to copy.
    pub len: usize,
}

/// The copies that make up one frame.
#[derive(Debug)]
pub struct ReadPlan {
    pub copies: Vec<PageCopy>,
    /// Length of the frame in bytes.
    pub total: usize,
}

/// Why a frame cannot be put together.
#[derive(Clone, Copy, Debug, PartialEq, Eq, Structural)]
pub enum ReadError {
    /// No page frames were ever set for the first buffer.
    NoBuffer,
    /// The pages together are longer than a length can say.
    LengthOverflow,
    /// The frame could not be copied to the reader.
    CopyFailed,
    /// The caller reported something that the read was not waiting for.
    OutOfOrder,
}

/// No address set yet.
pub open spec fn no_addrs() -> ArgAddrs {
    ArgAddrs {
        cap: 0,
        format: 0,
        streamparm: 0,
        reqbuffers: 0,
        bufs: 0,
        start_cap_type: 0,
        stop_cap_type: 0,
    }
}

/// The address in the slot `slot`; slots are numbered from 0 to 6.
pub open spec fn slot_value(addrs: ArgAddrs, slot: u64) -> u64 {
    if slot == SLOT_CAP {
        addrs.cap
    } else if slot == SLOT_FORMAT {
        addrs.format
    } else if slot == SLOT_STREAMPARM {
        addrs.streamparm
    } else if slot == SLOT_REQBUFS {
        addrs.reqbuffers
    } else if slot == SLOT_BUF {
        addrs.bufs
    } else if slot == SLOT_START_TYPE {
        addrs.start_cap_type
    } else {
        addrs.stop_cap_type
    }
}

/// The addresses after `uaddr` was stored in the slot `slot`. A slot number
/// that names no slot changes nothing.
pub open spec fn set_slot(addrs: ArgAddrs, slot: u64, uaddr: u64) -> ArgAddrs {
    if slot == SLOT_CAP {
        ArgAddrs { cap: uaddr, ..addrs }
    } else if slot == SLOT_FORMAT {
        ArgAddrs { format: uaddr, ..addrs }
    } else if slot == SLOT_STREAMPARM {
        ArgAddrs { streamparm: uaddr, ..addrs }
    } else if slot == SLOT_REQBUFS {
        ArgAddrs { reqbuffers: uaddr, ..addrs }
    } else if slot == SLOT_BUF {
        ArgAddrs { bufs: uaddr, ..addrs }
    } else if slot == SLOT_START_TYPE {
        ArgAddrs { start_cap_type: uaddr, ..addrs }
    } else if slot == SLOT_STOP_TYPE {
        ArgAddrs { stop_cap_type: uaddr, ..addrs }
    } else {
        addrs
    }
}

/// The request number of the call `io_type`, for the ten calls of the table.
pub open spec fn ioctl_request(io_type: u64) -> u32 {
    if io_type == IO_QUERYCAP {
        VIDIOC_QUERYCAP
    } else if io_type == IO_G_FMT {
        VIDIOC_G_FMT
    } else if io_type == IO_S_FMT {
        VIDIOC_S_FMT
    } else if io_type == IO_S_PARM {
        VIDIOC_S_PARM
    } else if io_type == IO_G_PARM {
        VIDIOC_G_PARM
    } else if io_type == IO_REQBUFS {
        VIDIOC_REQBUFS
    } else if io_type == IO_QUERYBUF {
        VIDIOC_QUERYBUF
    } else if io_type == IO_QBUF {
        VIDIOC_QBUF
    } else if io_type == IO_STREAMON {
        VIDIOC_STREAMON
    } else {
        VIDIOC_STREAMOFF
    }
}

/// The slot whose address the call `io_type` passes, for the ten calls of
/// the table.
pub open spec fn ioctl_slot(io_type: u64) -> u64 {
    if io_type == IO_QUERYCAP {
        SLOT_CAP
    } else if io_type == IO_G_FMT || io_type == IO_S_FMT {
        SLOT_FORMAT
    } else if io_type == IO_S_PARM || io_type == IO_G_PARM {
        SLOT_STREAMPARM
    } else if io_type == IO_REQBUFS {
        SLOT_REQBUFS
    } else if io_type == IO_QUERYBUF || io_type == IO_QBUF {
        SLOT_BUF
    } else if io_type == IO_STREAMON {
        SLOT_START_TYPE
    } else {
        SLOT_STOP_TYPE
    }
}

/// The call into the driver that the message `ioctl: io_type` leads to: none
/// where `io_type` is not in the table.
pub open spec fn ioctl_call(addrs: ArgAddrs, io_type: u64) -> Option<IoctlCall> {
    if io_type <= IO_STREAMOFF {
        Some(IoctlCall { cmd: ioctl_request(io_type), arg: slot_value(addrs, ioctl_slot(io_type)) })
    } else {
        None
    }
}

/// The buffers after `pfns` was stored under the cursor `pos`: the list at
/// `pos` is replaced; a cursor at or beyond the end appends a buffer.
pub open spec fn store_pfns(buffers: Seq<Seq<u64>>, pos: u64, pfns: Seq<u64>) -> Seq<Seq<u64>> {
    if pos >= buffers.len() {
        buffers.push(pfns)
    } else {
        buffers.update(pos as int, pfns)
    }
}

/// What a message does to the helper's state, and the call it leads to.
pub open spec fn apply_spec(s: HelperView, c: CommandView) -> (HelperView, Option<IoctlCall>) {
    match c {
        CommandView::SetAddr { set_type, uaddr } => (
            HelperView { addrs: set_slot(s.addrs, set_type, uaddr), ..s },
            None,
        ),
        CommandView::SetPfns { pfns } => (
            HelperView { buffers: store_pfns(s.buffers, s.seek_pos, pfns), ..s },
            None,
        ),
        CommandView::DoIoctl { io_type } => (s, ioctl_call(s.addrs, io_type)),
        CommandView::Unknown { cmd_type } => (s, None),
    }
}

/// The state after each message of `commands` was applied in turn.
pub open spec fn apply_all(s: HelperView, commands: Seq<CommandView>) -> HelperView
    decreases commands.len(),
{
    if commands.len() == 0 {
        s
    } else {
        apply_spec(apply_all(s, commands.drop_last()), commands.last()).0
    }
}

/// What a seek does to the helper's state: an absolute seek moves the cursor
/// and empties the page-frame list of the buffer it lands on, if there is
/// one; any other seek changes nothing.
pub open spec fn seek_spec(s: HelperView, offset: SeekFrom) -> HelperView {
    match offset {
        SeekFrom::Start(off) => HelperView {
            seek_pos: off,
            buffers: if off < s.buffers.len() {
                s.buffers.update(off as int, Seq::empty())
            } else {
                s.buffers
            },
            addrs: s.addrs,
        },
        _ => s,
    }
}

/// What a write of `data` does: a message that cannot be read changes
/// nothing.
pub open spec fn write_spec(s: HelperView, order: ByteOrder, data: Seq<u8>) -> (
    HelperView,
    Result<WriteOutcome, ProtocolError>,
) {
    match parse_spec(order, data) {
        Ok(c) => (
            apply_spec(s, c).0,
            Ok(WriteOutcome { consumed: data.len() as usize, call: apply_spec(s, c).1 }),
        ),
        Err(e) => (s, Err(e)),
    }
}

/// The kernel address of the first byte of the page frame `pfn`: the base
/// of the kernel's direct mapping plus the page frame's offset, in the
/// 64-bit arithmetic of addresses.
pub open spec fn page_address(page_offset_base: u64, pfn: u64, page_size: usize) -> u64 {
    wrapping_add(page_offset_base, wrapping_mul(pfn, page_size as u64))
}

/// Bytes in a frame of `pages` pages.
pub open spec fn frame_len(pages: nat, page_size: usize) -> int {
    pages * page_size
}

/// The copy that brings page `i` of a frame to its place.
pub open spec fn page_copy(page_offset_base: u64, pfns: Seq<u64>, page_size: usize, i: int)
    -> PageCopy {
    PageCopy {
        src: page_address(page_offset_base, pfns[i], page_size),
        dst: (i * page_size) as usize,
        len: page_size,
    }
}

/// The plan of a read after the dequeue call returned `dqbuf_result`.
///
/// A failed dequeue gives a frame of no bytes. Otherwise the frame is made of
/// the pages of the first buffer, in their order, one page after the other.
pub open spec fn read_plan_spec(
    s: HelperView,
    dqbuf_result: i32,
    page_offset_base: u64,
    page_size: usize,
) -> Result<(Seq<PageCopy>, usize), ReadError> {
    if dqbuf_result < 0 {
        Ok((Seq::empty(), 0usize))
    } else if s.buffers.len() == 0 {
        Err(ReadError::NoBuffer)
    } else if frame_len(s.buffers[0].len(), page_size) > usize::MAX {
        Err(ReadError::LengthOverflow)
    } else {
        Ok(
            (
                Seq::new(
                    s.buffers[0].len(),
                    |i: int| page_copy(page_offset_base, s.buffers[0], page_size, i),
                ),
                frame_len(s.buffers[0].len(), page_size) as usize,
            ),
        )
    }
}

/// The mathematical value of what `read_plan` returns.
pub open spec fn plan_view(r: Result<ReadPlan, ReadError>) -> Result<
    (Seq<PageCopy>, usize),
    ReadError,
> {
    match r {
        Ok(plan) => Ok((plan.copies@, plan.total)),
        Err(e) => Err(e),
    }
}

/// Stores `uaddr` in the slot `slot`.
pub fn store_addr(addrs: &mut ArgAddrs, slot: u64, uaddr: u64)
    ensures
        *final(addrs) == set_slot(*old(addrs), slot, uaddr),
{
    if slot == SLOT_CAP {
        addrs.cap = uaddr;
    } else if slot == SLOT_FORMAT {
        addrs.format = uaddr;
    } else if slot == SLOT_STREAMPARM {
        addrs.streamparm = uaddr;
    } else if slot == SLOT_REQBUFS {
        addrs.reqbuffers = uaddr;
    } else if slot == SLOT_BUF {
        addrs.bufs = uaddr;
    } else if slot == SLOT_START_TYPE {
        addrs.start_cap_type = uaddr;
    } else if slot == SLOT_STOP_TYPE {
        addrs.stop_cap_type = uaddr;
    }
}

/// The call into the driver that the message `ioctl: io_type` leads to.
pub fn dispatch(addrs: &ArgAddrs, io_type: u64) -> (call: Option<IoctlCall>)
    ensures
        call == ioctl_call(*addrs, io_type),
{
    if io_type == IO_QUERYCAP {
        Some(IoctlCall { cmd: VIDIOC_QUERYCAP, arg: addrs.cap })
    } else if io_type == IO_G_FMT {
        Some(IoctlCall { cmd: VIDIOC_G_FMT, arg: addrs.format })
    } else if io_type == IO_S_FMT {
        Some(IoctlCall { cmd: VIDIOC_S_FMT, arg: addrs.format })
    } else if io_type == IO_S_PARM {
        Some(IoctlCall { cmd: VIDIOC_S_PARM, arg: addrs.streamparm })
    } else if io_type == IO_G_PARM {
        Some(IoctlCall { cmd: VIDIOC_G_PARM, arg: addrs.streamparm })
    } else if io_type == IO_REQBUFS {
        Some(IoctlCall { cmd: VIDIOC_REQBUFS, arg: addrs.reqbuffers })
    } else if io_type == IO_QUERYBUF {
        Some(IoctlCall { cmd: VIDIOC_QUERYBUF, arg: addrs.bufs })
    } else if io_type == IO_QBUF {
        Some(IoctlCall { cmd: VIDIOC_QBUF, arg: addrs.bufs })
    } else if io_type == IO_STREAMON {
        Some(IoctlCall { cmd: VIDIOC_STREAMON, arg: addrs.start_cap_type })
    } else if io_type == IO_STREAMOFF {
        Some(IoctlCall { cmd: VIDIOC_STREAMOFF, arg: addrs.stop_cap_type })
    } else {
        None
    }
}

impl HelperState {
    /// The state of a helper that was just loaded: cursor at the first
    /// buffer, no buffer, no address.
    pub fn new() -> (s: HelperState)
        ensures
            s@ == (HelperView { seek_pos: 0, buffers: Seq::empty(), addrs: no_addrs() }),
    {
        let s = HelperState {
            seek_pos: 0,
            buffers: Vec::new(),
            addrs: ArgAddrs {
                cap: 0,
                format: 0,
                streamparm: 0,
                reqbuffers: 0,
                bufs: 0,
                start_cap_type: 0,
                stop_cap_type: 0,
            },
        };
        assert(s@.buffers =~= Seq::<Seq<u64>>::empty());
        s
    }

    /// Stores the page frames `pfns` for the buffer under the cursor.
    pub fn set_pfns(&mut self, pfns: Vec<u64>)
        ensures
            final(self)@ == (HelperView {
                buffers: store_pfns(old(self)@.buffers, old(self)@.seek_pos, pfns@),
                ..old(self)@
            }),
    {
        let count: usize = self.buffers.len();
        if self.seek_pos >= count as u64 {
            self.buffers.push(pfns);
        } else {
            let index: usize = self.seek_pos as usize;
            self.buffers.set(index, pfns);
        }
        assert(self@.buffers =~= store_pfns(old(self)@.buffers, old(self)@.seek_pos, pfns@));
    }

    /// Applies one message and returns the call into the driver that it asks
    /// for, if any.
    pub fn apply(&mut self, command: Command) -> (call: Option<IoctlCall>)
        ensures
            (final(self)@, call) == apply_spec(old(self)@, command@),
    {
        match command {
            Command::SetAddr { set_type, uaddr } => {
                store_addr(&mut self.addrs, set_type, uaddr);
                None
            },
            Command::SetPfns { pfns } => {
                self.set_pfns(pfns);
                None
            },
            Command::DoIoctl { io_type } => dispatch(&self.addrs, io_type),
            Command::Unknown { cmd_type } => None,
        }
    }

    /// A write of `data` on the device: reads the message, applies it, and
    /// reports all bytes as consumed.
    pub fn write(&mut self, order: ByteOrder, data: &[u8]) -> (r: Result<
        WriteOutcome,
        ProtocolError,
    >)
        ensures
            (final(self)@, r) == write_spec(old(self)@, order, data@),
    {
        match parse_command(order, data) {
            Ok(command) => {
                let call = self.apply(command);
                Ok(WriteOutcome { consumed: data.len(), call })
            },
            Err(e) => Err(e),
        }
    }

    /// A seek on the device; returns the cursor after it.
    pub fn seek(&mut self, offset: SeekFrom) -> (pos: u64)
        ensures
            final(self)@ == seek_spec(old(self)@, offset),
            pos == final(self)@.seek_pos,
    {
        match offset {
            SeekFrom::Start(off) => {
                let count: usize = self.buffers.len();
                if off < count as u64 {
                    self.buffers.set(off as usize, Vec::new());
                }
                self.seek_pos = off;
                assert(self@.buffers =~= seek_spec(old(self)@, offset).buffers);
            },
            _ => {},
        }
        self.seek_pos
    }

    /// The call that takes a filled buffer from the driver, with which every
    /// read begins.
    pub fn dequeue_call(&self) -> (call: IoctlCall)
        ensures
            call == (IoctlCall { cmd: VIDIOC_DQBUF, arg: self@.addrs.bufs }),
    {
        IoctlCall { cmd: VIDIOC_DQBUF, arg: self.addrs.bufs }
    }

    /// The call that hands the buffer back to the driver, with which every
    /// read ends.
    pub fn requeue_call(&self) -> (call: IoctlCall)
        ensures
            call == (IoctlCall { cmd: VIDIOC_QBUF, arg: self@.addrs.bufs }),
    {
        IoctlCall { cmd: VIDIOC_QBUF, arg: self.addrs.bufs }
    }

    /// The copies that put the frame together after the dequeue call
    /// returned `dqbuf_result`.
    pub fn read_plan(&self, dqbuf_result: i32, page_offset_base: u64, page_size: usize) -> (r:
        Result<ReadPlan, ReadError>)
        ensures
            plan_view(r) == read_plan_spec(self@, dqbuf_result, page_offset_base, page_size),
    {
        if dqbuf_result < 0 {
            return Ok(ReadPlan { copies: Vec::new(), total: 0 });
        }
        if self.buffers.len() == 0 {
            return Err(ReadError::NoBuffer);
        }
        let pfns: &Vec<u64> = &self.buffers[0];
        let count: usize = pfns.len();
        let total: usize = match count.checked_mul(page_size) {
            Some(total) => total,
            None => {
                return Err(ReadError::LengthOverflow);
            },
        };
        let mut copies: Vec<PageCopy> = Vec::new();
        let mut i: usize = 0;
        while i < count
            invariant
                i <= count == pfns@.len(),
                count * page_size == total,
                dqbuf_result >= 0,
                self@.buffers.len() > 0,
                pfns@ == self@.buffers[0],
                copies@.len() == i,
                forall|j: int|
                    0 <= j < i ==> copies@[j] == page_copy(
                        page_offset_base,
                        pfns@,
                        page_size,
                        j,
                    ),
            decreases count - i,
        {
            let pfn: u64 = pfns[i];
            let src: u64 = page_offset_base.wrapping_add(pfn.wrapping_mul(page_size as u64));
            assert(i * page_size <= count * page_size) by (nonlinear_arith)
                requires
                    i <= count,
            ;
            copies.push(PageCopy { src, dst: i * page_size, len: page_size });
            i = i + 1;
        }
        assert(copies@ =~= Seq::new(
            pfns@.len(),
            |i: int| page_copy(page_offset_base, pfns@, page_size, i),
        ));
        Ok(ReadPlan { copies, total })
    }

    /// The next step of a read on the device.
    ///
    /// A read takes a buffer from the driver, copies its pages, and hands the
    /// buffer back, in this order. The caller performs each action and comes
    /// back with what happened.
    pub fn read_step(
        &self,
        state: ReadState,
        event: ReadEvent,
        page_offset_base: u64,
        page_size: usize,
    ) -> (r: (ReadState, ReadAction))
        ensures
            (r.0, r.1@) == read_step_spec(self@, state, event, page_offset_base, page_size),
    {
        match (state, event) {
            (ReadState::Idle, ReadEvent::Begin) => (
                ReadState::AwaitDequeue,
                ReadAction::Ioctl(self.dequeue_call()),
            ),
            (ReadState::AwaitDequeue, ReadEvent::Dequeued(result)) => {
                match self.read_plan(result, page_offset_base, page_size) {
                    Ok(plan) => {
                        if result < 0 {
                            (
                                ReadState::AwaitRequeue { total: 0 },
                                ReadAction::Ioctl(self.requeue_call()),
                            )
                        } else {
                            (ReadState::AwaitCopy { total: plan.total }, ReadAction::Copy(plan))
                        }
                    },
                    Err(e) => (ReadState::Idle, ReadAction::Fail(e)),
                }
            },
            (ReadState::AwaitCopy { total }, ReadEvent::Copied(done)) => {
                if done {
                    (ReadState::AwaitRequeue { total }, ReadAction::Ioctl(self.requeue_call()))
                } else {
                    (ReadState::Idle, ReadAction::Fail(ReadError::CopyFailed))
                }
            },
            (ReadState::AwaitRequeue { total }, ReadEvent::Requeued(result)) => (
                ReadState::Idle,
                ReadAction::Return(total),
            ),
            _ => (ReadState::Idle, ReadAction::Fail(ReadError::OutOfOrder)),
        }
    }
}

/// How a state changes as messages are applied: the cursor stays, and so
/// does every slot that no message stores an address in.
pub proof fn lemma_apply_all_keeps_slot(s: HelperView, commands: Seq<CommandView>, slot: u64)
    requires
        slot < SLOT_COUNT,
        forall|i: int|
            0 <= i < commands.len() ==> !(#[trigger] commands[i] matches CommandView::SetAddr {
                set_type,
                ..
            } && set_type == slot),
    ensures
        slot_value(apply_all(s, commands).addrs, slot) == slot_value(s.addrs, slot),
        apply_all(s, commands).seek_pos == s.seek_pos,
    decreases commands.len(),
{
    if commands.len() > 0 {
        let init = commands.drop_last();
        assert forall|i: int| 0 <= i < init.len() implies !(#[trigger] init[i] matches CommandView::SetAddr {
            set_type,
            ..
        } && set_type == slot) by {
            assert(init[i] == commands[i]);
        }
        lemma_apply_all_keeps_slot(s, init, slot);
        assert(commands.last() == commands[commands.len() - 1]);
    }
}

/// An address that was stored in a slot is the address that the next call
/// on that slot passes, unchanged, whatever other messages arrive in
/// between.
pub proof fn lemma_stored_address_is_passed(
    s: HelperView,
    slot: u64,
    uaddr: u64,
    between: Seq<CommandView>,
    io_type: u64,
)
    requires
        slot < SLOT_COUNT,
        io_type <= IO_STREAMOFF,
        ioctl_slot(io_type) == slot,
        forall|i: int|
            0 <= i < between.len() ==> !(#[trigger] between[i] matches CommandView::SetAddr {
                set_type,
                ..
            } && set_type == slot),
    ensures
        apply_spec(
            apply_all(apply_spec(s, CommandView::SetAddr { set_type: slot, uaddr }).0, between),
            CommandView::DoIoctl { io_type },
        ).1 == Some(IoctlCall { cmd: ioctl_request(io_type), arg: uaddr }),
{
    let stored = apply_spec(s, CommandView::SetAddr { set_type: slot, uaddr }).0;
    lemma_apply_all_keeps_slot(stored, between, slot);
}

/// A page-frame message replaces the list of the buffer under the cursor and
/// no other: every other list, the cursor and the addresses stay as they
/// were. With the cursor at the end, the list becomes a new last buffer.
pub proof fn lemma_set_pfns_replaces_one(s: HelperView, pfns: Seq<u64>)
    requires
        s.seek_pos <= s.buffers.len(),
    ensures
        ({
            let after = apply_spec(s, CommandView::SetPfns { pfns }).0;
            &&& after.buffers.len() == (if s.seek_pos == s.buffers.len() {
                s.buffers.len() + 1
            } else {
                s.buffers.len()
            })
            &&& after.buffers[s.seek_pos as int] == pfns
            &&& forall|j: int|
                0 <= j < s.buffers.len() && j != s.seek_pos ==> after.buffers[j] == s.buffers[j]
            &&& after.seek_pos == s.seek_pos
            &&& after.addrs == s.addrs
        }),
{
}

/// A write of a page-frame message always succeeds and takes every byte:
/// the page frames are the whole words after the first, and bytes after the
/// last whole word are taken and ignored.
pub proof fn lemma_write_of_page_frames_succeeds(s: HelperView, order: ByteOrder, data: Seq<u8>)
    requires
        data.len() >= 8,
        u64_at(order, data, 0) == CMD_SET_PFNS,
    ensures
        ({
            let pfns = pfns_at(order, data, ((data.len() - 8) / 8) as nat);
            &&& write_spec(s, order, data).1 == Ok::<WriteOutcome, ProtocolError>(
                WriteOutcome { consumed: data.len() as usize, call: None },
            )
            &&& write_spec(s, order, data).0 == apply_spec(s, CommandView::SetPfns { pfns }).0
            &&& pfns.len() == (data.len() - 8) / 8
        }),
{
}

/// Where the sum does not leave the range of addresses, the address of a
/// page frame is the base plus the page frame's number times the page size.
pub proof fn lemma_page_address_is_sum(page_offset_base: u64, pfn: u64, page_size: usize)
    requires
        page_offset_base + pfn * page_size <= u64::MAX,
    ensures
        page_address(page_offset_base, pfn, page_size) == page_offset_base + pfn * page_size,
{
    let product = pfn as nat * (page_size as u64) as nat;
    assert(0 <= product <= u64::MAX) by (nonlinear_arith)
        requires
            product == pfn as nat * (page_size as u64) as nat,
            page_offset_base + pfn * page_size <= u64::MAX,
            page_offset_base >= 0,
    ;
    assert(product % 0x1_0000_0000_0000_0000nat == product);
}

/// A read whose dequeue succeeds returns every page of the first buffer:
/// with at least one buffer, and pages that together are no longer than a
/// length can say, the steps of the read are the dequeue, the copies of all
/// pages, the requeue, and the return of as many bytes as the pages hold
/// together, which is also what the copies bring together.
pub proof fn lemma_read_returns_all_pages(
    s: HelperView,
    dqbuf_result: i32,
    qbuf_result: i32,
    page_offset_base: u64,
    page_size: usize,
)
    requires
        s.buffers.len() >= 1,
        dqbuf_result >= 0,
        s.buffers[0].len() * page_size <= usize::MAX,
    ensures
        ({
            let total = (s.buffers[0].len() * page_size) as usize;
            let copies = Seq::new(
                s.buffers[0].len(),
                |i: int| page_copy(page_offset_base, s.buffers[0], page_size, i),
            );
            let t0 = read_step_spec(s, ReadState::Idle, ReadEvent::Begin, page_offset_base, page_size);
            let t1 = read_step_spec(
                s,
                t0.0,
                ReadEvent::Dequeued(dqbuf_result),
                page_offset_base,
                page_size,
            );
            let t2 = read_step_spec(s, t1.0, ReadEvent::Copied(true), page_offset_base, page_size);
            let t3 = read_step_spec(
                s,
                t2.0,
                ReadEvent::Requeued(qbuf_result),
                page_offset_base,
                page_size,
            );
            &&& read_plan_spec(s, dqbuf_result, page_offset_base, page_size) == Ok::<
                (Seq<PageCopy>, usize),
                ReadError,
            >((copies, total))
            &&& t0.1 == ReadActionView::Ioctl(IoctlCall { cmd: VIDIOC_DQBUF, arg: s.addrs.bufs })
            &&& t1.1 == ReadActionView::Copy(copies, total)
            &&& t2.1 == ReadActionView::Ioctl(IoctlCall { cmd: VIDIOC_QBUF, arg: s.addrs.bufs })
            &&& t3.1 == ReadActionView::Return(total)
            &&& t3.0 == ReadState::Idle
            &&& copies_len(copies) == total
            &&& copies.len() == s.buffers[0].len()
        }),
{
    lemma_copies_len(page_offset_base, s.buffers[0], page_size, s.buffers[0].len());
    let copies = Seq::new(
        s.buffers[0].len(),
        |i: int| page_copy(page_offset_base, s.buffers[0], page_size, i),
    );
    assert(copies.take(copies.len() as int) =~= copies);
}

/// A read that returns bytes returns as many as the pages of the first
/// buffer hold together.
pub proof fn lemma_read_length_is_sum_of_pages(
    s: HelperView,
    dqbuf_result: i32,
    page_offset_base: u64,
    page_size: usize,
)
    ensures
        read_plan_spec(s, dqbuf_result, page_offset_base, page_size) matches Ok(plan) ==> {
            &&& plan.1 > 0 ==> plan.1 == s.buffers[0].len() * page_size
            &&& plan.1 == copies_len(plan.0)
            &&& dqbuf_result < 0 ==> plan.1 == 0
        },
{
    if let Ok(plan) = read_plan_spec(s, dqbuf_result, page_offset_base, page_size) {
        if dqbuf_result >= 0 {
            lemma_copies_len(page_offset_base, s.buffers[0], page_size, s.buffers[0].len());
            assert(plan.0.take(plan.0.len() as int) =~= plan.0);
        }
    }
}

/// A read returns the length that the buffer query reported: where the
/// first buffer holds the page frames of the pages that cover a buffer of
/// `length` bytes, and `length` is a whole number of pages, a read whose
/// dequeue succeeds returns `length` bytes, and one whose dequeue fails
/// returns none.
pub proof fn lemma_read_returns_buffer_length(
    s: HelperView,
    length: u32,
    dqbuf_result: i32,
    page_offset_base: u64,
    page_size: usize,
)
    requires
        page_size > 0,
        length % page_size as u32 == 0,
        page_size <= u32::MAX,
        s.buffers.len() > 0,
        s.buffers[0].len() == page_count_spec(length as u64, page_size as u64),
    ensures
        read_plan_spec(s, dqbuf_result, page_offset_base, page_size) is Ok,
        read_plan_spec(s, dqbuf_result, page_offset_base, page_size).unwrap().1 == (if dqbuf_result
            >= 0 {
            length as int
        } else {
            0
        }),
{
    lemma_page_count_covers(length as u64, page_size as u64);
}

/// Bytes that the copies `copies` bring together.
pub open spec fn copies_len(copies: Seq<PageCopy>) -> int
    decreases copies.len(),
{
    if copies.len() == 0 {
        0
    } else {
        copies_len(copies.drop_last()) + copies.last().len
    }
}

/// The first `n` copies of a frame bring `n` pages together.
pub proof fn lemma_copies_len(page_offset_base: u64, pfns: Seq<u64>, page_size: usize, n: nat)
    requires
        n <= pfns.len(),
    ensures
        copies_len(
            Seq::new(pfns.len(), |i: int| page_copy(page_offset_base, pfns, page_size, i)).take(
                n as int,
            ),
        ) == n * page_size,
    decreases n,
{
    let all = Seq::new(pfns.len(), |i: int| page_copy(page_offset_base, pfns, page_size, i));
    if n > 0 {
        lemma_copies_len(page_offset_base, pfns, page_size, (n - 1) as nat);
        let first = all.take(n as int);
        assert(first.drop_last() =~= all.take(n - 1));
        assert(first.last() == all[n - 1]);
        assert(first.last().len == page_size);
        assert(n * page_size == (n - 1) * page_size + page_size) by (nonlinear_arith);
    } else {
        assert(all.take(0).len() == 0);
        assert(0 * page_size == 0);
    }
}

/// Where a read stands.
#[derive(Clone, Copy, Debug, PartialEq, Eq, Structural)]
pub enum ReadState {
    /// No read is under way.
    Idle,
    /// The call that takes a buffer from the driver was handed out.
    AwaitDequeue,
    /// The copies of a frame of `total` bytes were handed out.
    AwaitCopy { total: usize },
    /// The call that hands the buffer back was handed out.
    AwaitRequeue { total: usize },
}

/// What the caller reports back to `read_step`.
#[derive(Clone, Copy, Debug, PartialEq, Eq, Structural)]
pub enum ReadEvent {
    /// A reader asks for a frame.
    Begin,
    /// The call that takes a buffer returned this value.
    Dequeued(i32),
    /// The frame was copied to the reader, or could not be.
    Copied(bool),
    /// The call that hands the buffer back returned this value.
    Requeued(i32),
}

/// What the caller of `read_step` does next.
#[derive(Debug)]
pub enum ReadAction {
    /// Issue this call into the video driver.
    Ioctl(IoctlCall),
    /// Copy these pages into a frame and the frame to the reader.
    Copy(ReadPlan),
    /// The read is over and gave this many bytes.
    Return(usize),
    /// The read is over and gave an error.
    Fail(ReadError),
}

/// An action as a mathematical value.
pub enum ReadActionView {
    Ioctl(IoctlCall),
    Copy(Seq<PageCopy>, usize),
    Return(usize),
    Fail(ReadError),
}

impl View for ReadAction {
    type V = ReadActionView;

    open spec fn view(&self) -> ReadActionView {
        match *self {
            ReadAction::Ioctl(call) => ReadActionView::Ioctl(call),
            ReadAction::Copy(plan) => ReadActionView::Copy(plan.copies@, plan.total),
            ReadAction::Return(total) => ReadActionView::Return(total),
            ReadAction::Fail(e) => ReadActionView::Fail(e),
        }
    }
}

/// The step of a read: where it stands next and what is to be done.
///
/// A failed dequeue skips the copies and still hands the buffer back; the
/// read then returns no bytes. A frame that cannot reach the reader ends the
/// read at once. What the call that hands the buffer back returns does not
/// change the result.
pub open spec fn read_step_spec(
    s: HelperView,
    state: ReadState,
    event: ReadEvent,
    page_offset_base: u64,
    page_size: usize,
) -> (ReadState, ReadActionView) {
    let dequeue = IoctlCall { cmd: VIDIOC_DQBUF, arg: s.addrs.bufs };
    let requeue = IoctlCall { cmd: VIDIOC_QBUF, arg: s.addrs.bufs };
    match (state, event) {
        (ReadState::Idle, ReadEvent::Begin) => (
            ReadState::AwaitDequeue,
            ReadActionView::Ioctl(dequeue),
        ),
        (ReadState::AwaitDequeue, ReadEvent::Dequeued(result)) => match read_plan_spec(
            s,
            result,
            page_offset_base,
            page_size,
        ) {
            Ok(plan) => if result < 0 {
                (ReadState::AwaitRequeue { total: 0 }, ReadActionView::Ioctl(requeue))
            } else {
                (ReadState::AwaitCopy { total: plan.1 }, ReadActionView::Copy(plan.0, plan.1))
            },
            Err(e) => (ReadState::Idle, ReadActionView::Fail(e)),
        },
        (ReadState::AwaitCopy { total }, ReadEvent::Copied(done)) => if done {
            (ReadState::AwaitRequeue { total }, ReadActionView::Ioctl(requeue))
        } else {
            (ReadState::Idle, ReadActionView::Fail(ReadError::CopyFailed))
        },
        (ReadState::AwaitRequeue { total }, ReadEvent::Requeued(result)) => (
            ReadState::Idle,
            ReadActionView::Return(total),
        ),
        _ => (ReadState::Idle, ReadActionView::Fail(ReadError::OutOfOrder)),
    }
}

} // verus!
