//! The client side of the inference RPC: what it sends, what it makes of the
//! answer, and what it reports when the exchange breaks off.
//!
//! An exchange is: connect, write the request, read the eight bytes that say
//! how many values follow, read the values. The program around this library
//! does the connecting, writing and reading; every step that can fail has its
//! own report here, and the caller of a detection that failed gets no values.

use crate::rpc::{
    body_len, body_len_spec, decode_values, encode_request, request_bytes, response_count,
    values_at, FrameError, RequestView, RESPONSE_HEADER_LEN, VALUE_LEN,
};
use crate::bytes::{u64_at, ByteOrder};
use vstd::prelude::*;

verus! {

/// An exchange with the server that gave no values.
#[derive(Debug)]
pub struct RecogError {
    info: String,
}

impl View for RecogError {
    type V = Seq<char>;

    closed spec fn view(&self) -> Seq<char> {
        self.info@
    }
}

impl RecogError {
    /// An error with the message `msg`.
    pub fn new(msg: &str) -> (error: RecogError)
        ensures
            error@ == msg@,
    {
        RecogError { info: msg.to_owned() }
    }

    /// The message of the error.
    pub fn description(&self) -> (msg: &str)
        ensures
            msg@ == self@,
    {
        self.info.as_str()
    }

    /// The message of the error, as a string of its own.
    pub fn message(&self) -> (msg: String)
        ensures
            msg@ == self@,
    {
        self.info.clone()
    }
}

/// The step at which an exchange broke off.
#[derive(Clone, Copy, Debug, PartialEq, Eq, Structural)]
pub enum DetectFailure {
    /// No connection to the server.
    Connect,
    /// The request could not be written.
    Write,
    /// The number of values could not be read.
    ReadLength,
    /// The values could not be read.
    ReadBody,
}

/// The message that reports a failure. A failure to read the values has an
/// empty message.
pub open spec fn failure_text(failure: DetectFailure) -> Seq<char> {
    match failure {
        DetectFailure::Connect => "Failed to connect to the server."@,
        DetectFailure::Write => "Failed to write data to the server."@,
        DetectFailure::ReadLength => "Failed to read out output data length."@,
        DetectFailure::ReadBody => ""@,
    }
}

/// Milliseconds since the epoch of a time given in seconds and nanoseconds.
pub open spec fn millis_spec(tv_sec: i64, tv_nsec: i64) -> int {
    1000 * tv_sec + tv_nsec / 1_000_000
}

/// The error that reports a failure.
pub fn detect_error(failure: DetectFailure) -> (error: RecogError)
    ensures
        error@ == failure_text(failure),
{
    match failure {
        DetectFailure::Connect => RecogError::new("Failed to connect to the server."),
        DetectFailure::Write => RecogError::new("Failed to write data to the server."),
        DetectFailure::ReadLength => RecogError::new("Failed to read out output data length."),
        DetectFailure::ReadBody => RecogError::new(""),
    }
}

/// What the caller of a detection gets: the values that the server sent,
/// and no values where the exchange broke off. A request that the server
/// dropped and an exchange that failed look alike to the caller.
pub fn detect_outcome(result: Result<Vec<u32>, DetectFailure>) -> (values: Vec<u32>)
    ensures
        values@ == (match result {
            Ok(v) => v@,
            Err(_) => Seq::<u32>::empty(),
        }),
{
    match result {
        Ok(values) => values,
        Err(_) => Vec::new(),
    }
}

/// The timestamp of a request sent at the given time: milliseconds since the
/// epoch. There is none for a time before the epoch.
pub fn prepare_timestamp(tv_sec: i64, tv_nsec: i64) -> (timestamp_ms: Option<u128>)
    ensures
        timestamp_ms == (if tv_sec >= 0 && tv_nsec >= 0 {
            Some(millis_spec(tv_sec, tv_nsec) as u128)
        } else {
            None
        }),
{
    if tv_sec < 0 || tv_nsec < 0 {
        return None;
    }
    let seconds: u128 = tv_sec as u128;
    let nanos: u128 = tv_nsec as u128;
    Some(1000 * seconds + nanos / 1_000_000)
}

/// The bytes to write to the server for a frame of `data` of the size
/// `frame_size`, sent at `timestamp_ms`.
pub fn detect_request(timestamp_ms: u128, data: &[u8], frame_size: [u32; 2]) -> (out: Vec<u8>)
    ensures
        out@ == request_bytes(
            RequestView {
                timestamp_ms,
                width: frame_size@[0],
                height: frame_size@[1],
                payload: data@,
            },
        ),
{
    encode_request(timestamp_ms, frame_size[0], frame_size[1], data)
}

/// The number of bytes to read after the eight bytes `header` of a response:
/// four for each value that the header announces. A header that announces
/// none tells of a dropped request, and nothing is left to read.
pub fn detect_body_len(header: &[u8]) -> (r: Result<usize, FrameError>)
    ensures
        r == (if header@.len() < RESPONSE_HEADER_LEN {
            Err::<usize, FrameError>(FrameError::Truncated)
        } else {
            match body_len_spec(u64_at(ByteOrder::Big, header@, 0)) {
                Some(len) => Ok::<usize, FrameError>(len),
                None => Err::<usize, FrameError>(FrameError::TooLong),
            }
        }),
{
    let count: u64 = match response_count(header) {
        Ok(count) => count,
        Err(e) => {
            return Err(e);
        },
    };
    match body_len(count) {
        Some(len) => Ok(len),
        None => Err(FrameError::TooLong),
    }
}

/// The values in the bytes `body` that were read after a response header:
/// one for every four bytes, in their order. No bytes give no values.
pub fn detect_values(body: &[u8]) -> (values: Vec<u32>)
    ensures
        values@ == values_at(body@, body@.len() / VALUE_LEN as nat),
{
    let count: usize = body.len() / VALUE_LEN;
    decode_values(body, count)
}

} // verus!
