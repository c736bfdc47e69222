//! Request numbers of the V4L2 calls that the helper issues, in the kernel's
//! standard encoding: two direction bits, fourteen bits for the size of the
//! argument record, eight for the subsystem's letter and eight for the call's
//! number.

use vstd::prelude::*;

verus! {

pub const IOC_NRSHIFT: u32 = 0;

pub const IOC_TYPESHIFT: u32 = 8;

pub const IOC_SIZESHIFT: u32 = 16;

pub const IOC_DIRSHIFT: u32 = 30;

/// The caller's record is read by the driver.
pub const IOC_WRITE: u32 = 1;

/// The caller's record is filled by the driver.
pub const IOC_READ: u32 = 2;

/// The letter of the video subsystem, `'V'`.
pub const V4L2_MAGIC: u32 = 0x56;

/// Bytes of the capability record.
pub const SIZE_CAPABILITY: u32 = 104;

/// Bytes of the format record.
pub const SIZE_FORMAT: u32 = 208;

/// Bytes of the stream parameter record.
pub const SIZE_STREAMPARM: u32 = 204;

/// Bytes of the buffer request record.
pub const SIZE_REQUESTBUFFERS: u32 = 20;

/// Bytes of the buffer record.
pub const SIZE_BUFFER: u32 = 88;

/// Bytes of a buffer type selector.
pub const SIZE_BUF_TYPE: u32 = 4;

pub const VIDIOC_QUERYCAP: u32 = 0x8068_5600;

pub const VIDIOC_G_FMT: u32 = 0xC0D0_5604;

pub const VIDIOC_S_FMT: u32 = 0xC0D0_5605;

pub const VIDIOC_S_PARM: u32 = 0xC0CC_5616;

pub const VIDIOC_G_PARM: u32 = 0xC0CC_5615;

pub const VIDIOC_REQBUFS: u32 = 0xC014_5608;

pub const VIDIOC_QUERYBUF: u32 = 0xC058_5609;

pub const VIDIOC_QBUF: u32 = 0xC058_560F;

pub const VIDIOC_DQBUF: u32 = 0xC058_5611;

pub const VIDIOC_STREAMON: u32 = 0x4004_5612;

pub const VIDIOC_STREAMOFF: u32 = 0x4004_5613;

/// The request number made of a direction, a subsystem letter, a call number
/// and an argument size.
pub open spec fn ioc_spec(dir: u32, tp: u32, nr: u32, size: u32) -> u32 {
    (dir << 30u32) | (tp << 8u32) | (nr << 0u32) | (size << 16u32)
}

/// A request whose record travels both ways.
pub open spec fn iowr_spec(tp: u32, nr: u32, size: u32) -> u32 {
    ioc_spec(3, tp, nr, size)
}

/// A request whose record the driver fills.
pub open spec fn ior_spec(tp: u32, nr: u32, size: u32) -> u32 {
    ioc_spec(2, tp, nr, size)
}

/// A request whose record the driver reads.
pub open spec fn iow_spec(tp: u32, nr: u32, size: u32) -> u32 {
    ioc_spec(1, tp, nr, size)
}

/// Where each part fits its field, the fields do not overlap and the number
/// is their weighted sum.
pub proof fn lemma_ioc_is_sum(dir: u32, tp: u32, nr: u32, size: u32)
    requires
        dir < 4,
        tp < 0x100,
        nr < 0x100,
        size < 0x4000,
    ensures
        ioc_spec(dir, tp, nr, size) == dir * 0x4000_0000 + size * 0x1_0000 + tp * 0x100 + nr,
{
    assert(((dir << 30u32) | (tp << 8u32) | (nr << 0u32) | (size << 16u32)) == dir * 0x4000_0000
        + size * 0x1_0000 + tp * 0x100 + nr) by (bit_vector)
        requires
            dir < 4,
            tp < 0x100,
            nr < 0x100,
            size < 0x4000,
    ;
}

/// Each request number of the table is the standard encoding of its
/// direction, the letter `'V'`, its call number and its record's size.
pub proof fn lemma_request_numbers()
    ensures
        VIDIOC_QUERYCAP == ior_spec(V4L2_MAGIC, 0, SIZE_CAPABILITY),
        VIDIOC_G_FMT == iowr_spec(V4L2_MAGIC, 4, SIZE_FORMAT),
        VIDIOC_S_FMT == iowr_spec(V4L2_MAGIC, 5, SIZE_FORMAT),
        VIDIOC_S_PARM == iowr_spec(V4L2_MAGIC, 22, SIZE_STREAMPARM),
        VIDIOC_G_PARM == iowr_spec(V4L2_MAGIC, 21, SIZE_STREAMPARM),
        VIDIOC_REQBUFS == iowr_spec(V4L2_MAGIC, 8, SIZE_REQUESTBUFFERS),
        VIDIOC_QUERYBUF == iowr_spec(V4L2_MAGIC, 9, SIZE_BUFFER),
        VIDIOC_QBUF == iowr_spec(V4L2_MAGIC, 15, SIZE_BUFFER),
        VIDIOC_DQBUF == iowr_spec(V4L2_MAGIC, 17, SIZE_BUFFER),
        VIDIOC_STREAMON == iow_spec(V4L2_MAGIC, 18, SIZE_BUF_TYPE),
        VIDIOC_STREAMOFF == iow_spec(V4L2_MAGIC, 19, SIZE_BUF_TYPE),
{
    lemma_ioc_is_sum(2, V4L2_MAGIC, 0, SIZE_CAPABILITY);
    lemma_ioc_is_sum(3, V4L2_MAGIC, 4, SIZE_FORMAT);
    lemma_ioc_is_sum(3, V4L2_MAGIC, 5, SIZE_FORMAT);
    lemma_ioc_is_sum(3, V4L2_MAGIC, 22, SIZE_STREAMPARM);
    lemma_ioc_is_sum(3, V4L2_MAGIC, 21, SIZE_STREAMPARM);
    lemma_ioc_is_sum(3, V4L2_MAGIC, 8, SIZE_REQUESTBUFFERS);
    lemma_ioc_is_sum(3, V4L2_MAGIC, 9, SIZE_BUFFER);
    lemma_ioc_is_sum(3, V4L2_MAGIC, 15, SIZE_BUFFER);
    lemma_ioc_is_sum(3, V4L2_MAGIC, 17, SIZE_BUFFER);
    lemma_ioc_is_sum(1, V4L2_MAGIC, 18, SIZE_BUF_TYPE);
    lemma_ioc_is_sum(1, V4L2_MAGIC, 19, SIZE_BUF_TYPE);
}

/// Builds a request number from its four parts.
pub fn ioc(dir: u32, tp: u32, nr: u32, size: u32) -> (r: u32)
    ensures
        r == ioc_spec(dir, tp, nr, size),
{
    (dir << IOC_DIRSHIFT) | (tp << IOC_TYPESHIFT) | (nr << IOC_NRSHIFT) | (size << IOC_SIZESHIFT)
}

/// A request whose record travels both ways.
pub fn iowr(tp: u32, nr: u32, size: u32) -> (r: u32)
    ensures
        r == iowr_spec(tp, nr, size),
{
    assert(IOC_READ | IOC_WRITE == 3) by (bit_vector);
    ioc(IOC_READ | IOC_WRITE, tp, nr, size)
}

/// A request whose record the driver fills.
pub fn ior(tp: u32, nr: u32, size: u32) -> (r: u32)
    ensures
        r == ior_spec(tp, nr, size),
{
    ioc(IOC_READ, tp, nr, size)
}

/// A request whose record the driver reads.
pub fn iow(tp: u32, nr: u32, size: u32) -> (r: u32)
    ensures
        r == iow_spec(tp, nr, size),
{
    ioc(IOC_WRITE, tp, nr, size)
}

} // verus!
