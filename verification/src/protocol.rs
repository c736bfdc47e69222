//! The control protocol between the capture client and the camera helper.
//!
//! Every message is a string of eight-byte words in the byte order of the
//! machine that both sides run on. The first word names the command:
//!
//! ```text
//! set address:  0 | slot | address
//! set PFNs:     1 | pfn | pfn | ...
//! ioctl:        2 | call
//! ```
//!
//! A page-frame message carries as many page frames as whole words fit in
//! what follows its first word.

use crate::bytes::{
    lemma_int_bytes_len, lemma_u64_at_bytes, push_u64, read_u64, u64_at, u64_bytes, ByteOrder,
};
use vstd::prelude::*;

verus! {

/// First word of a message that stores an address in a slot.
pub const CMD_SET_ADDR: u64 = 0;

/// First word of a message that carries the page frames of a buffer.
pub const CMD_SET_PFNS: u64 = 1;

/// First word of a message that asks for a call into the video driver.
pub const CMD_IOCTL: u64 = 2;

/// One message of the control protocol.
#[derive(Debug, PartialEq, Eq)]
pub enum Command {
    /// Store `uaddr` in the slot that `set_type` names.
    SetAddr { set_type: u64, uaddr: u64 },
    /// Store these page frames for the buffer under the seek cursor.
    SetPfns { pfns: Vec<u64> },
    /// Issue the call that `io_type` names.
    DoIoctl { io_type: u64 },
    /// A first word that names no command; the helper ignores the message.
    Unknown { cmd_type: u64 },
}

/// A message as a mathematical value.
pub enum CommandView {
    SetAddr { set_type: u64, uaddr: u64 },
    SetPfns { pfns: Seq<u64> },
    DoIoctl { io_type: u64 },
    Unknown { cmd_type: u64 },
}

impl View for Command {
    type V = CommandView;

    open spec fn view(&self) -> CommandView {
        match *self {
            Command::SetAddr { set_type, uaddr } => CommandView::SetAddr { set_type, uaddr },
            Command::SetPfns { pfns } => CommandView::SetPfns { pfns: pfns@ },
            Command::DoIoctl { io_type } => CommandView::DoIoctl { io_type },
            Command::Unknown { cmd_type } => CommandView::Unknown { cmd_type },
        }
    }
}

/// Why a message could not be read.
#[derive(Clone, Copy, Debug, PartialEq, Eq, Structural)]
pub enum ProtocolError {
    /// The message ends inside a word that the command needs.
    ShortRead,
}

/// The words of a page-frame list, one after the other.
pub open spec fn pfn_bytes(order: ByteOrder, pfns: Seq<u64>) -> Seq<u8>
    decreases pfns.len(),
{
    if pfns.len() == 0 {
        Seq::empty()
    } else {
        pfn_bytes(order, pfns.drop_last()) + u64_bytes(order, pfns.last())
    }
}

/// The bytes of a message.
pub open spec fn command_bytes(order: ByteOrder, c: CommandView) -> Seq<u8> {
    match c {
        CommandView::SetAddr { set_type, uaddr } => u64_bytes(order, CMD_SET_ADDR) + u64_bytes(
            order,
            set_type,
        ) + u64_bytes(order, uaddr),
        CommandView::SetPfns { pfns } => u64_bytes(order, CMD_SET_PFNS) + pfn_bytes(order, pfns),
        CommandView::DoIoctl { io_type } => u64_bytes(order, CMD_IOCTL) + u64_bytes(
            order,
            io_type,
        ),
        CommandView::Unknown { cmd_type } => u64_bytes(order, cmd_type),
    }
}

/// The `count` words that follow the first word of `data`.
pub open spec fn pfns_at(order: ByteOrder, data: Seq<u8>, count: nat) -> Seq<u64> {
    Seq::new(count, |i: int| u64_at(order, data, 8 + 8 * i))
}

/// What the helper reads out of the bytes of one write.
///
/// Bytes after the last word that a command needs are ignored. A page-frame
/// list holds as many page frames as whole words follow the first word;
/// bytes after the last whole word are ignored too.
pub open spec fn parse_spec(order: ByteOrder, data: Seq<u8>) -> Result<CommandView, ProtocolError> {
    if data.len() < 8 {
        Err(ProtocolError::ShortRead)
    } else {
        let cmd_type = u64_at(order, data, 0);
        if cmd_type == CMD_SET_ADDR {
            if data.len() < 24 {
                Err(ProtocolError::ShortRead)
            } else {
                Ok(
                    CommandView::SetAddr {
                        set_type: u64_at(order, data, 8),
                        uaddr: u64_at(order, data, 16),
                    },
                )
            }
        } else if cmd_type == CMD_SET_PFNS {
            Ok(CommandView::SetPfns { pfns: pfns_at(order, data, ((data.len() - 8) / 8) as nat) })
        } else if cmd_type == CMD_IOCTL {
            if data.len() < 16 {
                Err(ProtocolError::ShortRead)
            } else {
                Ok(CommandView::DoIoctl { io_type: u64_at(order, data, 8) })
            }
        } else {
            Ok(CommandView::Unknown { cmd_type })
        }
    }
}

/// The mathematical value of what `parse_command` returns.
pub open spec fn parsed_view(r: Result<Command, ProtocolError>) -> Result<
    CommandView,
    ProtocolError,
> {
    match r {
        Ok(c) => Ok(c@),
        Err(e) => Err(e),
    }
}

/// A command is one that a client sends if it is one of the three commands
/// of the protocol, or has a first word that names none of them.
pub open spec fn well_formed(c: CommandView) -> bool {
    c matches CommandView::Unknown { cmd_type } ==> cmd_type > CMD_IOCTL
}

pub proof fn lemma_pfn_bytes_len(order: ByteOrder, pfns: Seq<u64>)
    ensures
        pfn_bytes(order, pfns).len() == 8 * pfns.len(),
    decreases pfns.len(),
{
    if pfns.len() > 0 {
        lemma_pfn_bytes_len(order, pfns.drop_last());
        lemma_int_bytes_len(order, pfns.last() as nat, 8);
    }
}

/// The `i`-th word of a page-frame list reads back as the `i`-th page frame,
/// whatever stands before the list.
pub proof fn lemma_pfn_bytes_word(order: ByteOrder, before: Seq<u8>, pfns: Seq<u64>, i: int)
    requires
        0 <= i < pfns.len(),
    ensures
        u64_at(order, before + pfn_bytes(order, pfns), before.len() + 8 * i) == pfns[i],
    decreases pfns.len(),
{
    let init = pfns.drop_last();
    let last = u64_bytes(order, pfns.last());
    lemma_pfn_bytes_len(order, init);
    lemma_int_bytes_len(order, pfns.last() as nat, 8);
    let whole = before + pfn_bytes(order, pfns);
    if i == pfns.len() - 1 {
        lemma_u64_at_bytes(order, before + pfn_bytes(order, init), pfns.last(), Seq::empty());
        assert(whole =~= before + pfn_bytes(order, init) + last + Seq::<u8>::empty());
    } else {
        lemma_pfn_bytes_word(order, before, init, i);
        let shorter = before + pfn_bytes(order, init);
        assert(whole.subrange(before.len() + 8 * i, before.len() + 8 * i + 8) =~= shorter.subrange(
            before.len() + 8 * i,
            before.len() + 8 * i + 8,
        ));
    }
}

/// The helper reads every message of a client as the command that the client
/// wrote.
pub proof fn lemma_parse_command_bytes(order: ByteOrder, c: CommandView)
    requires
        well_formed(c),
    ensures
        parse_spec(order, command_bytes(order, c)) == Ok::<CommandView, ProtocolError>(c),
{
    let data = command_bytes(order, c);
    let empty = Seq::<u8>::empty();
    match c {
        CommandView::SetAddr { set_type, uaddr } => {
            let w0 = u64_bytes(order, CMD_SET_ADDR);
            let w1 = u64_bytes(order, set_type);
            let w2 = u64_bytes(order, uaddr);
            lemma_u64_at_bytes(order, empty, CMD_SET_ADDR, w1 + w2);
            lemma_u64_at_bytes(order, w0, set_type, w2);
            lemma_u64_at_bytes(order, w0 + w1, uaddr, empty);
            assert(data =~= empty + w0 + (w1 + w2));
            assert(data =~= w0 + w1 + w2 + empty);
        },
        CommandView::SetPfns { pfns } => {
            let w0 = u64_bytes(order, CMD_SET_PFNS);
            let list = pfn_bytes(order, pfns);
            lemma_u64_at_bytes(order, empty, CMD_SET_PFNS, list);
            lemma_pfn_bytes_len(order, pfns);
            assert(data =~= empty + w0 + list);
            let read = pfns_at(order, data, ((data.len() - 8) / 8) as nat);
            assert forall|i: int| 0 <= i < pfns.len() implies read[i] == pfns[i] by {
                lemma_pfn_bytes_word(order, w0, pfns, i);
            }
            assert(read =~= pfns);
        },
        CommandView::DoIoctl { io_type } => {
            let w0 = u64_bytes(order, CMD_IOCTL);
            let w1 = u64_bytes(order, io_type);
            lemma_u64_at_bytes(order, empty, CMD_IOCTL, w1);
            lemma_u64_at_bytes(order, w0, io_type, empty);
            assert(data =~= empty + w0 + w1);
            assert(data =~= w0 + w1 + empty);
        },
        CommandView::Unknown { cmd_type } => {
            lemma_u64_at_bytes(order, empty, cmd_type, empty);
            assert(data =~= empty + u64_bytes(order, cmd_type) + empty);
        },
    }
}

/// Bytes that follow a page-frame message and make up no whole word change
/// nothing: the helper reads the page frames that stand before them.
pub proof fn lemma_parse_page_frames_with_tail(order: ByteOrder, pfns: Seq<u64>, tail: Seq<u8>)
    requires
        tail.len() < 8,
    ensures
        parse_spec(order, command_bytes(order, CommandView::SetPfns { pfns }) + tail) == Ok::<
            CommandView,
            ProtocolError,
        >(CommandView::SetPfns { pfns }),
{
    let message = command_bytes(order, CommandView::SetPfns { pfns });
    let data = message + tail;
    let w0 = u64_bytes(order, CMD_SET_PFNS);
    let list = pfn_bytes(order, pfns);
    lemma_u64_at_bytes(order, Seq::<u8>::empty(), CMD_SET_PFNS, list + tail);
    lemma_pfn_bytes_len(order, pfns);
    assert(data =~= Seq::<u8>::empty() + w0 + (list + tail));
    assert(data.len() == 8 + 8 * pfns.len() + tail.len());
    assert((data.len() - 8) / 8 == pfns.len());
    let read = pfns_at(order, data, ((data.len() - 8) / 8) as nat);
    assert forall|i: int| 0 <= i < pfns.len() implies read[i] == pfns[i] by {
        lemma_pfn_bytes_word(order, w0, pfns, i);
        assert(data.subrange(8 + 8 * i, 8 + 8 * i + 8) =~= message.subrange(
            8 + 8 * i,
            8 + 8 * i + 8,
        ));
    }
    assert(read =~= pfns);
}

/// The message that stores `uaddr` in the slot `set_type`.
pub fn set_addr_message(order: ByteOrder, set_type: u64, uaddr: u64) -> (out: Vec<u8>)
    ensures
        out@ == command_bytes(order, CommandView::SetAddr { set_type, uaddr }),
{
    let mut out: Vec<u8> = Vec::new();
    push_u64(order, CMD_SET_ADDR, &mut out);
    push_u64(order, set_type, &mut out);
    push_u64(order, uaddr, &mut out);
    assert(out@ =~= command_bytes(order, CommandView::SetAddr { set_type, uaddr }));
    out
}

/// The message that carries the page frames `pfns`.
pub fn pfns_message(order: ByteOrder, pfns: &[u64]) -> (out: Vec<u8>)
    ensures
        out@ == command_bytes(order, CommandView::SetPfns { pfns: pfns@ }),
{
    let mut out: Vec<u8> = Vec::new();
    push_u64(order, CMD_SET_PFNS, &mut out);
    let ghost head = out@;
    let n: usize = pfns.len();
    let mut i: usize = 0;
    while i < n
        invariant
            i <= n == pfns@.len(),
            head == u64_bytes(order, CMD_SET_PFNS),
            out@ == head + pfn_bytes(order, pfns@.take(i as int)),
        decreases n - i,
    {
        push_u64(order, pfns[i], &mut out);
        proof {
            let next = pfns@.take(i + 1);
            assert(next.drop_last() =~= pfns@.take(i as int));
            assert(out@ =~= head + pfn_bytes(order, next));
        }
        i = i + 1;
    }
    assert(pfns@.take(n as int) =~= pfns@);
    out
}

/// The message that asks for the call `io_type`.
pub fn ioctl_message(order: ByteOrder, io_type: u64) -> (out: Vec<u8>)
    ensures
        out@ == command_bytes(order, CommandView::DoIoctl { io_type }),
{
    let mut out: Vec<u8> = Vec::new();
    push_u64(order, CMD_IOCTL, &mut out);
    push_u64(order, io_type, &mut out);
    assert(out@ =~= command_bytes(order, CommandView::DoIoctl { io_type }));
    out
}

/// The bytes of any message.
pub fn encode_command(order: ByteOrder, command: &Command) -> (out: Vec<u8>)
    ensures
        out@ == command_bytes(order, command@),
{
    match command {
        Command::SetAddr { set_type, uaddr } => set_addr_message(order, *set_type, *uaddr),
        Command::SetPfns { pfns } => pfns_message(order, pfns.as_slice()),
        Command::DoIoctl { io_type } => ioctl_message(order, *io_type),
        Command::Unknown { cmd_type } => {
            let mut out: Vec<u8> = Vec::new();
            push_u64(order, *cmd_type, &mut out);
            assert(out@ =~= u64_bytes(order, *cmd_type));
            out
        },
    }
}

/// Reads the bytes of one write as a message.
pub fn parse_command(order: ByteOrder, data: &[u8]) -> (r: Result<Command, ProtocolError>)
    ensures
        parsed_view(r) == parse_spec(order, data@),
{
    let len: usize = data.len();
    if len < 8 {
        return Err(ProtocolError::ShortRead);
    }
    let cmd_type: u64 = read_u64(order, data, 0);
    if cmd_type == CMD_SET_ADDR {
        if len < 24 {
            return Err(ProtocolError::ShortRead);
        }
        let set_type: u64 = read_u64(order, data, 8);
        let uaddr: u64 = read_u64(order, data, 16);
        Ok(Command::SetAddr { set_type, uaddr })
    } else if cmd_type == CMD_SET_PFNS {
        let count: usize = (len - 8) / 8;
        let mut pfns: Vec<u64> = Vec::new();
        let mut i: usize = 0;
        while i < count
            invariant
                i <= count,
                len == data@.len(),
                len >= 8,
                count == (len - 8) / 8,
                pfns@.len() == i,
                forall|j: int| 0 <= j < i ==> pfns@[j] == u64_at(order, data@, 8 + 8 * j),
            decreases count - i,
        {
            let pfn: u64 = read_u64(order, data, 8 + 8 * i);
            pfns.push(pfn);
            i = i + 1;
        }
        assert(pfns@ =~= pfns_at(order, data@, count as nat));
        Ok(Command::SetPfns { pfns })
    } else if cmd_type == CMD_IOCTL {
        if len < 16 {
            return Err(ProtocolError::ShortRead);
        }
        let io_type: u64 = read_u64(order, data, 8);
        Ok(Command::DoIoctl { io_type })
    } else {
        Ok(Command::Unknown { cmd_type })
    }
}

} // verus!
