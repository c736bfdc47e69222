//! The argument records of the video calls, as the values that the capture
//! client reads and writes in them.
//!
//! The records that the video driver sees lie in the client's memory in the
//! layout of the kernel's interface; the program around this library keeps
//! them there and copies the fields to and from the records here.

use vstd::prelude::*;

verus! {

/// Buffer type of a video capture stream.
pub const V4L2_BUF_TYPE_VIDEO_CAPTURE: u32 = 1;

/// Buffers that the driver allocates and the client maps.
pub const V4L2_MEMORY_MMAP: u32 = 1;

/// The pixel format code of packed YUV 4:2:2, `YUYV`.
pub const V4L2_PIX_FMT_YUYV: u32 = 0x5659_5559;

/// What a device says of itself.
#[allow(non_camel_case_types)]
#[derive(Clone, Copy, Debug, PartialEq, Eq)]
pub struct v4l2_capability {
    pub driver: [u8; 16],
    pub card: [u8; 32],
    pub bus_info: [u8; 32],
    pub version: u32,
    pub capabilities: u32,
    pub device_caps: u32,
    pub reserved: [u32; 3],
}

/// The format of single-planar frames.
#[allow(non_camel_case_types)]
#[derive(Clone, Copy, Debug, PartialEq, Eq)]
pub struct v4l2_pix_format {
    pub width: u32,
    pub height: u32,
    pub pixelformat: u32,
    pub others: [u8; 188],
}

/// The format of multi-planar frames.
#[allow(non_camel_case_types)]
#[derive(Clone, Copy, Debug, PartialEq, Eq)]
pub struct v4l2_pix_format_mplane {
    pub width: u32,
    pub height: u32,
    pub pixelformat: u32,
    pub others: [u8; 188],
}

/// The format of a stream, by the kind of its buffers.
#[derive(Clone, Copy, Debug, PartialEq, Eq)]
pub enum Fmt {
    Pix(v4l2_pix_format),
}

/// The format record: a buffer type and the format of its frames.
#[allow(non_camel_case_types)]
#[derive(Clone, Copy, Debug, PartialEq, Eq)]
pub struct v4l2_format {
    pub type_: u32,
    pub fmt: Fmt,
}

/// A fraction.
#[allow(non_camel_case_types)]
#[derive(Clone, Copy, Debug, PartialEq, Eq, Structural)]
pub struct v4l2_fract {
    pub numerator: u32,
    pub denominator: u32,
}

/// The parameters of a capture stream.
#[allow(non_camel_case_types)]
#[derive(Clone, Copy, Debug, PartialEq, Eq)]
pub struct v4l2_captureparm {
    pub capability: u32,
    pub capturemode: u32,
    pub timeperframe: v4l2_fract,
    pub extendedmode: u32,
    pub readbuffers: u32,
    pub reserved: [u32; 4],
}

/// The stream parameter record: a buffer type and, for a capture stream, the
/// time per frame as a fraction of a second.
#[allow(non_camel_case_types)]
#[derive(Clone, Copy, Debug, PartialEq, Eq)]
pub struct v4l2_streamparm {
    pub type_: u32,
    pub capability: u32,
    pub capturemode: u32,
    pub numerator: u32,
    pub denominator: u32,
    pub extendedmode: u32,
    pub readbuffers: u32,
    pub others: [u8; 176],
}

/// A time in seconds and microseconds.
#[allow(non_camel_case_types)]
#[derive(Clone, Copy, Debug, PartialEq, Eq, Structural)]
pub struct timeval {
    pub tv_sec: i64,
    pub tv_usec: i64,
}

/// A time code.
#[allow(non_camel_case_types)]
#[derive(Clone, Copy, Debug, PartialEq, Eq)]
pub struct v4l2_timecode {
    pub type_: u32,
    pub flags: u32,
    pub frames: u8,
    pub seconds: u8,
    pub minutes: u8,
    pub hours: u8,
    pub userbits: [u8; 4],
}

/// The buffer record: which buffer, where it lies and how much of it is
/// filled.
#[allow(non_camel_case_types)]
#[derive(Clone, Copy, Debug, PartialEq, Eq)]
pub struct v4l2_buffer {
    pub index: u32,
    pub type_: u32,
    pub bytesused: u32,
    pub flags: u32,
    pub field: u32,
    pub timestamp: timeval,
    pub timecode: v4l2_timecode,
    pub sequence: u32,
    pub memory: u32,
    pub offset: u32,
    pub aligned: u32,
    pub length: u32,
    pub reserved2: u32,
    pub reserved: u32,
}

/// The buffer request record: how many buffers, of which type and memory.
#[allow(non_camel_case_types)]
#[derive(Clone, Copy, Debug, PartialEq, Eq)]
pub struct v4l2_requestbuffers {
    pub count: u32,
    pub type_: u32,
    pub memory: u32,
    pub capabilities: u32,
    pub reserved: [u32; 1],
}

/// The seven argument records of a capture client.
#[derive(Clone, Copy, Debug, PartialEq, Eq)]
pub struct ArgRecords {
    pub cap: v4l2_capability,
    pub format: v4l2_format,
    pub streamparm: v4l2_streamparm,
    pub reqbuffers: v4l2_requestbuffers,
    pub bufs: v4l2_buffer,
    pub start_cap_type: u32,
    pub stop_cap_type: u32,
}

/// Whether every element of `s` is zero.
pub open spec fn all_zero_u8(s: Seq<u8>) -> bool {
    forall|i: int| 0 <= i < s.len() ==> s[i] == 0
}

/// Whether every element of `s` is zero.
pub open spec fn all_zero_u32(s: Seq<u32>) -> bool {
    forall|i: int| 0 <= i < s.len() ==> s[i] == 0
}

/// The single-planar format of a format record.
pub open spec fn pix_of(format: v4l2_format) -> v4l2_pix_format {
    match format.fmt {
        Fmt::Pix(pix) => pix,
    }
}

/// A format record with another single-planar format.
pub open spec fn with_pix(format: v4l2_format, pix: v4l2_pix_format) -> v4l2_format {
    v4l2_format { type_: format.type_, fmt: Fmt::Pix(pix) }
}

impl Default for v4l2_capability {
    fn default() -> (r: Self)
        ensures
            all_zero_u8(r.driver@),
            all_zero_u8(r.card@),
            all_zero_u8(r.bus_info@),
            r.version == 0,
            r.capabilities == 0,
            r.device_caps == 0,
            all_zero_u32(r.reserved@),
    {
        Self {
            driver: [0u8; 16],
            card: [0u8; 32],
            bus_info: [0u8; 32],
            version: 0,
            capabilities: 0,
            device_caps: 0,
            reserved: [0u32; 3],
        }
    }
}

impl Default for v4l2_pix_format {
    fn default() -> (r: Self)
        ensures
            r.width == 0,
            r.height == 0,
            r.pixelformat == 0,
            all_zero_u8(r.others@),
    {
        Self { width: 0, height: 0, pixelformat: 0, others: [0u8; 188] }
    }
}

impl Default for v4l2_pix_format_mplane {
    fn default() -> (r: Self)
        ensures
            r.width == 0,
            r.height == 0,
            r.pixelformat == 0,
            all_zero_u8(r.others@),
    {
        Self { width: 0, height: 0, pixelformat: 0, others: [0u8; 188] }
    }
}

impl Default for Fmt {
    fn default() -> (r: Self)
        ensures
            r matches Fmt::Pix(pix) && pix.width == 0 && pix.height == 0 && pix.pixelformat == 0
                && all_zero_u8(pix.others@),
    {
        Fmt::Pix(v4l2_pix_format::default())
    }
}

impl Default for v4l2_format {
    fn default() -> (r: Self)
        ensures
            r.type_ == 0,
            pix_of(r).width == 0,
            pix_of(r).height == 0,
            pix_of(r).pixelformat == 0,
            all_zero_u8(pix_of(r).others@),
    {
        Self { type_: 0, fmt: Fmt::default() }
    }
}

impl Default for v4l2_fract {
    fn default() -> (r: Self)
        ensures
            r == (v4l2_fract { numerator: 0, denominator: 0 }),
    {
        Self { numerator: 0, denominator: 0 }
    }
}

impl Default for v4l2_captureparm {
    fn default() -> (r: Self)
        ensures
            r.capability == 0,
            r.capturemode == 0,
            r.timeperframe == (v4l2_fract { numerator: 0, denominator: 0 }),
            r.extendedmode == 0,
            r.readbuffers == 0,
            all_zero_u32(r.reserved@),
    {
        Self {
            capability: 0,
            capturemode: 0,
            timeperframe: v4l2_fract::default(),
            extendedmode: 0,
            readbuffers: 0,
            reserved: [0u32; 4],
        }
    }
}

impl Default for v4l2_streamparm {
    fn default() -> (r: Self)
        ensures
            r.type_ == 0,
            r.capability == 0,
            r.capturemode == 0,
            r.numerator == 0,
            r.denominator == 0,
            r.extendedmode == 0,
            r.readbuffers == 0,
            all_zero_u8(r.others@),
    {
        Self {
            type_: 0,
            capability: 0,
            capturemode: 0,
            numerator: 0,
            denominator: 0,
            extendedmode: 0,
            readbuffers: 0,
            others: [0u8; 176],
        }
    }
}

impl Default for timeval {
    fn default() -> (r: Self)
        ensures
            r == (timeval { tv_sec: 0, tv_usec: 0 }),
    {
        Self { tv_sec: 0, tv_usec: 0 }
    }
}

impl Default for v4l2_timecode {
    fn default() -> (r: Self)
        ensures
            r.type_ == 0,
            r.flags == 0,
            r.frames == 0,
            r.seconds == 0,
            r.minutes == 0,
            r.hours == 0,
            all_zero_u8(r.userbits@),
    {
        Self {
            type_: 0,
            flags: 0,
            frames: 0,
            seconds: 0,
            minutes: 0,
            hours: 0,
            userbits: [0u8; 4],
        }
    }
}

impl Default for v4l2_buffer {
    fn default() -> (r: Self)
        ensures
            r.index == 0,
            r.type_ == 0,
            r.bytesused == 0,
            r.flags == 0,
            r.field == 0,
            r.timestamp == (timeval { tv_sec: 0, tv_usec: 0 }),
            r.sequence == 0,
            r.memory == 0,
            r.offset == 0,
            r.aligned == 0,
            r.length == 0,
            r.reserved2 == 0,
            r.reserved == 0,
    {
        Self {
            index: 0,
            type_: 0,
            bytesused: 0,
            flags: 0,
            field: 0,
            timestamp: timeval::default(),
            timecode: v4l2_timecode::default(),
            sequence: 0,
            memory: 0,
            offset: 0,
            aligned: 0,
            length: 0,
            reserved2: 0,
            reserved: 0,
        }
    }
}

impl Default for v4l2_requestbuffers {
    fn default() -> (r: Self)
        ensures
            r.count == 0,
            r.type_ == 0,
            r.memory == 0,
            r.capabilities == 0,
            all_zero_u32(r.reserved@),
    {
        Self { count: 0, type_: 0, memory: 0, capabilities: 0, reserved: [0u32; 1] }
    }
}

impl ArgRecords {
    /// The records of a client that has not spoken to the driver yet: all
    /// fields zero, but for the two buffer types, which are those of a
    /// capture stream.
    pub fn new() -> (r: Self)
        ensures
            r.format.type_ == 0,
            pix_of(r.format).width == 0,
            pix_of(r.format).height == 0,
            pix_of(r.format).pixelformat == 0,
            r.streamparm.type_ == 0,
            r.streamparm.numerator == 0,
            r.streamparm.denominator == 0,
            r.reqbuffers.count == 0,
            r.reqbuffers.type_ == 0,
            r.reqbuffers.memory == 0,
            r.bufs.index == 0,
            r.bufs.type_ == 0,
            r.bufs.memory == 0,
            r.bufs.bytesused == 0,
            r.bufs.offset == 0,
            r.bufs.length == 0,
            r.start_cap_type == V4L2_BUF_TYPE_VIDEO_CAPTURE,
            r.stop_cap_type == V4L2_BUF_TYPE_VIDEO_CAPTURE,
    {
        Self {
            cap: v4l2_capability::default(),
            format: v4l2_format::default(),
            streamparm: v4l2_streamparm::default(),
            reqbuffers: v4l2_requestbuffers::default(),
            bufs: v4l2_buffer::default(),
            start_cap_type: V4L2_BUF_TYPE_VIDEO_CAPTURE,
            stop_cap_type: V4L2_BUF_TYPE_VIDEO_CAPTURE,
        }
    }
}

} // verus!
