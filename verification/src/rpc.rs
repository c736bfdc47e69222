//! The frames of the inference RPC. All integers are big-endian.
//!
//! ```text
//! request:   timestamp_ms (16) | width (4) | height (4) | len (8) | len bytes
//! response:  n (8) | n values of 4 bytes each
//! ```
//!
//! A response of no values says that the server dropped the request. A value
//! is the bit pattern of a 32-bit float; this module moves the patterns and
//! never looks at them as numbers.

use crate::bytes::{
    append_bytes, copy_range, lemma_int_bytes_len, lemma_u128_at_bytes, lemma_u128_bytes_at,
    lemma_u32_at_bytes, lemma_u32_bytes_at, lemma_u64_at_bytes, lemma_u64_bytes_at, push_u128,
    push_u32, push_u64, read_u128, read_u32, read_u64, u128_at, u128_bytes, u32_at, u32_bytes,
    u64_at, u64_bytes, ByteOrder,
};
use vstd::prelude::*;

verus! {

/// Bytes of a request before its payload.
pub const REQUEST_HEADER_LEN: usize = 32;

/// Bytes of a response before its values.
pub const RESPONSE_HEADER_LEN: usize = 8;

/// Bytes of one value of a response.
pub const VALUE_LEN: usize = 4;

/// What stands in a request before the payload.
#[derive(Clone, Copy, Debug, PartialEq, Eq, Structural)]
pub struct RequestHeader {
    pub timestamp_ms: u128,
    pub width: u32,
    pub height: u32,
    /// Bytes of the payload that follows.
    pub len: u64,
}

/// One request: a frame of raw pixels with its size and the time the client
/// sent it.
#[derive(Debug, PartialEq, Eq)]
pub struct Request {
    pub timestamp_ms: u128,
    pub width: u32,
    pub height: u32,
    pub payload: Vec<u8>,
}

/// A request as a mathematical value.
pub struct RequestView {
    pub timestamp_ms: u128,
    pub width: u32,
    pub height: u32,
    pub payload: Seq<u8>,
}

impl View for Request {
    type V = RequestView;

    open spec fn view(&self) -> RequestView {
        RequestView {
            timestamp_ms: self.timestamp_ms,
            width: self.width,
            height: self.height,
            payload: self.payload@,
        }
    }
}

/// Why a frame could not be read.
#[derive(Clone, Copy, Debug, PartialEq, Eq, Structural)]
pub enum FrameError {
    /// The bytes end before the frame does.
    Truncated,
    /// The frame announces more bytes than a length can say.
    TooLong,
}

/// The bytes of a request header.
pub open spec fn header_bytes(h: RequestHeader) -> Seq<u8> {
    u128_bytes(ByteOrder::Big, h.timestamp_ms) + u32_bytes(ByteOrder::Big, h.width) + u32_bytes(
        ByteOrder::Big,
        h.height,
    ) + u64_bytes(ByteOrder::Big, h.len)
}

/// The header that stands before the payload of `r`.
pub open spec fn header_of(r: RequestView) -> RequestHeader {
    RequestHeader {
        timestamp_ms: r.timestamp_ms,
        width: r.width,
        height: r.height,
        len: r.payload.len() as u64,
    }
}

/// The bytes of a request.
pub open spec fn request_bytes(r: RequestView) -> Seq<u8> {
    header_bytes(header_of(r)) + r.payload
}

/// The header in the first 32 bytes of `data`.
pub open spec fn header_at(data: Seq<u8>) -> RequestHeader {
    RequestHeader {
        timestamp_ms: u128_at(ByteOrder::Big, data, 0),
        width: u32_at(ByteOrder::Big, data, 16),
        height: u32_at(ByteOrder::Big, data, 20),
        len: u64_at(ByteOrder::Big, data, 24),
    }
}

/// The header that `data` begins with.
pub open spec fn parse_header_spec(data: Seq<u8>) -> Result<RequestHeader, FrameError> {
    if data.len() < REQUEST_HEADER_LEN {
        Err(FrameError::Truncated)
    } else {
        Ok(header_at(data))
    }
}

/// The request that `data` begins with, and the bytes it takes.
pub open spec fn parse_request_spec(data: Seq<u8>) -> Result<(RequestView, nat), FrameError> {
    if data.len() < REQUEST_HEADER_LEN {
        Err(FrameError::Truncated)
    } else {
        let h = header_at(data);
        if data.len() - REQUEST_HEADER_LEN < h.len {
            Err(FrameError::Truncated)
        } else {
            Ok(
                (
                    RequestView {
                        timestamp_ms: h.timestamp_ms,
                        width: h.width,
                        height: h.height,
                        payload: data.subrange(
                            REQUEST_HEADER_LEN as int,
                            REQUEST_HEADER_LEN + h.len,
                        ),
                    },
                    (REQUEST_HEADER_LEN + h.len) as nat,
                ),
            )
        }
    }
}

/// The mathematical value of what `parse_request` returns.
pub open spec fn parsed_request_view(r: Result<(Request, usize), FrameError>) -> Result<
    (RequestView, nat),
    FrameError,
> {
    match r {
        Ok((request, used)) => Ok((request@, used as nat)),
        Err(e) => Err(e),
    }
}

/// The bytes of the values of a response, one after the other.
pub open spec fn value_bytes(values: Seq<u32>) -> Seq<u8>
    decreases values.len(),
{
    if values.len() == 0 {
        Seq::empty()
    } else {
        value_bytes(values.drop_last()) + u32_bytes(ByteOrder::Big, values.last())
    }
}

/// The bytes of a response.
pub open spec fn response_bytes(values: Seq<u32>) -> Seq<u8> {
    u64_bytes(ByteOrder::Big, values.len() as u64) + value_bytes(values)
}

/// The `count` values that stand in `body`.
pub open spec fn values_at(body: Seq<u8>, count: nat) -> Seq<u32> {
    Seq::new(count, |i: int| u32_at(ByteOrder::Big, body, 4 * i))
}

/// The bytes that the values take which a response header announces: none
/// where their number times four is more than a length can say.
pub open spec fn body_len_spec(count: u64) -> Option<usize> {
    if count * VALUE_LEN <= usize::MAX {
        Some((count * VALUE_LEN) as usize)
    } else {
        None
    }
}

/// The response that `data` begins with, and the bytes it takes.
pub open spec fn parse_response_spec(data: Seq<u8>) -> Result<(Seq<u32>, nat), FrameError> {
    if data.len() < RESPONSE_HEADER_LEN {
        Err(FrameError::Truncated)
    } else {
        let count = u64_at(ByteOrder::Big, data, 0);
        if body_len_spec(count) is None {
            Err(FrameError::TooLong)
        } else if data.len() - RESPONSE_HEADER_LEN < count * VALUE_LEN {
            Err(FrameError::Truncated)
        } else {
            Ok(
                (
                    values_at(
                        data.subrange(
                            RESPONSE_HEADER_LEN as int,
                            RESPONSE_HEADER_LEN + count * VALUE_LEN,
                        ),
                        count as nat,
                    ),
                    (RESPONSE_HEADER_LEN + count * VALUE_LEN) as nat,
                ),
            )
        }
    }
}

/// The mathematical value of what `parse_response` returns.
pub open spec fn parsed_response_view(r: Result<(Vec<u32>, usize), FrameError>) -> Result<
    (Seq<u32>, nat),
    FrameError,
> {
    match r {
        Ok((values, used)) => Ok((values@, used as nat)),
        Err(e) => Err(e),
    }
}

pub proof fn lemma_header_bytes_len(h: RequestHeader)
    ensures
        header_bytes(h).len() == REQUEST_HEADER_LEN,
{
    lemma_int_bytes_len(ByteOrder::Big, h.timestamp_ms as nat, 16);
    lemma_int_bytes_len(ByteOrder::Big, h.width as nat, 4);
    lemma_int_bytes_len(ByteOrder::Big, h.height as nat, 4);
    lemma_int_bytes_len(ByteOrder::Big, h.len as nat, 8);
}

/// A header reads back as it was written, whatever follows it.
pub proof fn lemma_header_at_bytes(h: RequestHeader, after: Seq<u8>)
    ensures
        header_at(header_bytes(h) + after) == h,
{
    let big = ByteOrder::Big;
    let empty = Seq::<u8>::empty();
    let ts = u128_bytes(big, h.timestamp_ms);
    let w = u32_bytes(big, h.width);
    let ht = u32_bytes(big, h.height);
    let len = u64_bytes(big, h.len);
    let data = header_bytes(h) + after;
    lemma_header_bytes_len(h);
    lemma_u128_at_bytes(big, empty, h.timestamp_ms, w + ht + len + after);
    lemma_u32_at_bytes(big, ts, h.width, ht + len + after);
    lemma_u32_at_bytes(big, ts + w, h.height, len + after);
    lemma_u64_at_bytes(big, ts + w + ht, h.len, after);
    assert(data =~= empty + ts + (w + ht + len + after));
    assert(data =~= ts + w + (ht + len + after));
    assert(data =~= ts + w + ht + (len + after));
    assert(data =~= ts + w + ht + len + after);
}

/// The first 32 bytes of any byte string are the bytes of the header that
/// is read from them.
pub proof fn lemma_header_bytes_at(data: Seq<u8>)
    requires
        data.len() >= REQUEST_HEADER_LEN,
    ensures
        header_bytes(header_at(data)) == data.subrange(0, REQUEST_HEADER_LEN as int),
{
    let big = ByteOrder::Big;
    lemma_u128_bytes_at(big, data, 0);
    lemma_u32_bytes_at(big, data, 16);
    lemma_u32_bytes_at(big, data, 20);
    lemma_u64_bytes_at(big, data, 24);
    assert(header_bytes(header_at(data)) =~= data.subrange(0, REQUEST_HEADER_LEN as int));
}

/// Every request reads back from its bytes as it was written, with nothing
/// left of the frame and nothing taken of what follows it.
pub proof fn lemma_parse_request_bytes(r: RequestView, after: Seq<u8>)
    requires
        r.payload.len() <= u64::MAX,
    ensures
        parse_request_spec(request_bytes(r) + after) == Ok::<(RequestView, nat), FrameError>(
            (r, request_bytes(r).len()),
        ),
{
    let h = header_of(r);
    let data = request_bytes(r) + after;
    lemma_header_bytes_len(h);
    lemma_header_at_bytes(h, r.payload + after);
    assert(data =~= header_bytes(h) + (r.payload + after));
    assert(data.subrange(REQUEST_HEADER_LEN as int, REQUEST_HEADER_LEN + h.len) =~= r.payload);
}

/// Whatever bytes a request is read from, its own bytes are the bytes that
/// were taken: a frame has one reading and a request has one frame.
pub proof fn lemma_request_bytes_parse(data: Seq<u8>)
    ensures
        parse_request_spec(data) matches Ok(parsed) ==> {
            &&& parsed.1 <= data.len()
            &&& request_bytes(parsed.0) == data.subrange(0, parsed.1 as int)
        },
{
    if let Ok(parsed) = parse_request_spec(data) {
        let h = header_at(data);
        lemma_header_bytes_at(data);
        assert(header_of(parsed.0) == h);
        assert(request_bytes(parsed.0) =~= data.subrange(0, parsed.1 as int));
    }
}

pub proof fn lemma_value_bytes_len(values: Seq<u32>)
    ensures
        value_bytes(values).len() == 4 * values.len(),
    decreases values.len(),
{
    if values.len() > 0 {
        lemma_value_bytes_len(values.drop_last());
        lemma_int_bytes_len(ByteOrder::Big, values.last() as nat, 4);
    }
}

/// The `i`-th value of a response body reads back as it was written.
pub proof fn lemma_value_bytes_word(values: Seq<u32>, after: Seq<u8>, i: int)
    requires
        0 <= i < values.len(),
    ensures
        u32_at(ByteOrder::Big, value_bytes(values) + after, 4 * i) == values[i],
    decreases values.len(),
{
    let big = ByteOrder::Big;
    let init = values.drop_last();
    let last = u32_bytes(big, values.last());
    lemma_value_bytes_len(init);
    lemma_int_bytes_len(big, values.last() as nat, 4);
    let whole = value_bytes(values) + after;
    if i == values.len() - 1 {
        lemma_u32_at_bytes(big, value_bytes(init), values.last(), after);
        assert(whole =~= value_bytes(init) + last + after);
    } else {
        lemma_value_bytes_word(init, last + after, i);
        assert(whole =~= value_bytes(init) + (last + after));
    }
}

/// The bytes of the values that are read from a body are the body.
pub proof fn lemma_value_bytes_at(body: Seq<u8>, count: nat)
    requires
        body.len() == 4 * count,
    ensures
        value_bytes(values_at(body, count)) == body,
    decreases count,
{
    let big = ByteOrder::Big;
    let values = values_at(body, count);
    if count > 0 {
        let shorter = body.subrange(0, 4 * (count - 1));
        lemma_value_bytes_at(shorter, (count - 1) as nat);
        assert forall|i: int| 0 <= i < count - 1 implies values_at(shorter, (count - 1) as nat)[i]
            == values[i] by {
            assert(shorter.subrange(4 * i, 4 * i + 4) =~= body.subrange(4 * i, 4 * i + 4));
        }
        assert(values.drop_last() =~= values_at(shorter, (count - 1) as nat));
        lemma_u32_bytes_at(big, body, 4 * (count - 1));
        assert(value_bytes(values) =~= body);
    } else {
        assert(value_bytes(values) =~= body);
    }
}

/// Every response reads back from its bytes as it was written, bit for bit,
/// with nothing taken of what follows it.
pub proof fn lemma_parse_response_bytes(values: Seq<u32>, after: Seq<u8>)
    requires
        values.len() * VALUE_LEN <= usize::MAX,
        values.len() <= u64::MAX,
    ensures
        parse_response_spec(response_bytes(values) + after) == Ok::<(Seq<u32>, nat), FrameError>(
            (values, response_bytes(values).len()),
        ),
{
    let big = ByteOrder::Big;
    let count = values.len() as u64;
    let head = u64_bytes(big, count);
    let data = response_bytes(values) + after;
    lemma_u64_at_bytes(big, Seq::empty(), count, value_bytes(values) + after);
    lemma_value_bytes_len(values);
    assert(data =~= Seq::<u8>::empty() + head + (value_bytes(values) + after));
    let body = data.subrange(RESPONSE_HEADER_LEN as int, RESPONSE_HEADER_LEN + count * VALUE_LEN);
    assert(body =~= value_bytes(values));
    let read = values_at(body, count as nat);
    assert forall|i: int| 0 <= i < values.len() implies read[i] == values[i] by {
        lemma_value_bytes_word(values, Seq::empty(), i);
        assert(value_bytes(values) + Seq::<u8>::empty() =~= value_bytes(values));
    }
    assert(read =~= values);
}

/// Whatever bytes a response is read from, its own bytes are the bytes that
/// were taken.
pub proof fn lemma_response_bytes_parse(data: Seq<u8>)
    ensures
        parse_response_spec(data) matches Ok(parsed) ==> {
            &&& parsed.1 <= data.len()
            &&& response_bytes(parsed.0) == data.subrange(0, parsed.1 as int)
        },
{
    if let Ok(parsed) = parse_response_spec(data) {
        let big = ByteOrder::Big;
        let count = u64_at(big, data, 0);
        let body = data.subrange(
            RESPONSE_HEADER_LEN as int,
            RESPONSE_HEADER_LEN + count * VALUE_LEN,
        );
        lemma_u64_bytes_at(big, data, 0);
        lemma_value_bytes_at(body, count as nat);
        assert(parsed.0.len() == count);
        assert(response_bytes(parsed.0) =~= data.subrange(0, parsed.1 as int));
    }
}

/// The bytes of the request with these fields.
pub fn encode_request(timestamp_ms: u128, width: u32, height: u32, payload: &[u8]) -> (out: Vec<
    u8,
>)
    ensures
        out@ == request_bytes(RequestView { timestamp_ms, width, height, payload: payload@ }),
{
    let mut out: Vec<u8> = Vec::new();
    push_u128(ByteOrder::Big, timestamp_ms, &mut out);
    push_u32(ByteOrder::Big, width, &mut out);
    push_u32(ByteOrder::Big, height, &mut out);
    push_u64(ByteOrder::Big, payload.len() as u64, &mut out);
    append_bytes(&mut out, payload);
    assert(out@ =~= request_bytes(
        RequestView { timestamp_ms, width, height, payload: payload@ },
    ));
    out
}

/// Reads the header that `data` begins with.
pub fn parse_header(data: &[u8]) -> (r: Result<RequestHeader, FrameError>)
    ensures
        r == parse_header_spec(data@),
{
    if data.len() < REQUEST_HEADER_LEN {
        return Err(FrameError::Truncated);
    }
    Ok(
        RequestHeader {
            timestamp_ms: read_u128(ByteOrder::Big, data, 0),
            width: read_u32(ByteOrder::Big, data, 16),
            height: read_u32(ByteOrder::Big, data, 20),
            len: read_u64(ByteOrder::Big, data, 24),
        },
    )
}

/// Reads the request that `data` begins with and says how many bytes it
/// took.
pub fn parse_request(data: &[u8]) -> (r: Result<(Request, usize), FrameError>)
    ensures
        parsed_request_view(r) == parse_request_spec(data@),
{
    let h = match parse_header(data) {
        Ok(h) => h,
        Err(e) => {
            return Err(e);
        },
    };
    let rest: usize = data.len() - REQUEST_HEADER_LEN;
    if (rest as u64) < h.len {
        return Err(FrameError::Truncated);
    }
    let end: usize = REQUEST_HEADER_LEN + h.len as usize;
    let payload = copy_range(data, REQUEST_HEADER_LEN, end);
    Ok(
        (
            Request { timestamp_ms: h.timestamp_ms, width: h.width, height: h.height, payload },
            end,
        ),
    )
}

/// The bytes of the response with these values.
pub fn encode_response(values: &[u32]) -> (out: Vec<u8>)
    ensures
        out@ == response_bytes(values@),
{
    let mut out: Vec<u8> = Vec::new();
    let n: usize = values.len();
    push_u64(ByteOrder::Big, n as u64, &mut out);
    let ghost head = out@;
    let mut i: usize = 0;
    while i < n
        invariant
            i <= n == values@.len(),
            head == u64_bytes(ByteOrder::Big, n as u64),
            out@ == head + value_bytes(values@.take(i as int)),
        decreases n - i,
    {
        push_u32(ByteOrder::Big, values[i], &mut out);
        proof {
            let next = values@.take(i + 1);
            assert(next.drop_last() =~= values@.take(i as int));
            assert(out@ =~= head + value_bytes(next));
        }
        i = i + 1;
    }
    assert(values@.take(n as int) =~= values@);
    out
}

/// The response that tells a client that its request was dropped.
pub fn dropped_response() -> (out: Vec<u8>)
    ensures
        out@ == response_bytes(Seq::empty()),
{
    let mut out: Vec<u8> = Vec::new();
    push_u64(ByteOrder::Big, 0, &mut out);
    assert(out@ =~= response_bytes(Seq::empty()));
    out
}

/// Reads the number of values that a response header announces.
pub fn response_count(header: &[u8]) -> (r: Result<u64, FrameError>)
    ensures
        r == (if header@.len() < RESPONSE_HEADER_LEN {
            Err::<u64, FrameError>(FrameError::Truncated)
        } else {
            Ok::<u64, FrameError>(u64_at(ByteOrder::Big, header@, 0))
        }),
{
    if header.len() < RESPONSE_HEADER_LEN {
        return Err(FrameError::Truncated);
    }
    Ok(read_u64(ByteOrder::Big, header, 0))
}

/// The bytes that `count` values take.
pub fn body_len(count: u64) -> (r: Option<usize>)
    ensures
        r == body_len_spec(count),
{
    if count > (usize::MAX / VALUE_LEN) as u64 {
        None
    } else {
        Some(count as usize * VALUE_LEN)
    }
}

/// Reads the `count` values that stand at the beginning of `body`.
pub fn decode_values(body: &[u8], count: usize) -> (values: Vec<u32>)
    requires
        count * VALUE_LEN <= body@.len(),
    ensures
        values@ == values_at(body@, count as nat),
{
    let total: usize = body.len();
    let mut values: Vec<u32> = Vec::new();
    let mut i: usize = 0;
    while i < count
        invariant
            i <= count,
            count * VALUE_LEN <= total == body@.len(),
            values@.len() == i,
            forall|j: int| 0 <= j < i ==> values@[j] == u32_at(ByteOrder::Big, body@, 4 * j),
        decreases count - i,
    {
        let value: u32 = read_u32(ByteOrder::Big, body, VALUE_LEN * i);
        values.push(value);
        i = i + 1;
    }
    assert(values@ =~= values_at(body@, count as nat));
    values
}

/// Reads the response that `data` begins with and says how many bytes it
/// took.
pub fn parse_response(data: &[u8]) -> (r: Result<(Vec<u32>, usize), FrameError>)
    ensures
        parsed_response_view(r) == parse_response_spec(data@),
{
    let count: u64 = match response_count(data) {
        Ok(count) => count,
        Err(e) => {
            return Err(e);
        },
    };
    let len: usize = match body_len(count) {
        Some(len) => len,
        None => {
            return Err(FrameError::TooLong);
        },
    };
    if data.len() - RESPONSE_HEADER_LEN < len {
        return Err(FrameError::Truncated);
    }
    let body = copy_range(data, RESPONSE_HEADER_LEN, RESPONSE_HEADER_LEN + len);
    let values = decode_values(body.as_slice(), count as usize);
    Ok((values, RESPONSE_HEADER_LEN + len))
}

} // verus!
