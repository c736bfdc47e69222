//! The inference server: what it does with each connection and with each
//! request.
//!
//! A request passes through fixed stations: its header is read, then its
//! payload, then admission control decides. A dropped request is answered
//! with a response of no values; an admitted one is handed to inference and
//! answered with what inference gave. A read that fails ends the request and
//! nothing else.

use crate::rpc::{
    dropped_response, encode_response, parse_header, parse_header_spec, response_bytes,
    RequestHeader, REQUEST_HEADER_LEN,
};
use crate::throttle::{
    adjust_time_interval, admit_spec, drop_spec, next_interval, should_drop, ExecutionCounter,
    Throttle, ThrottleView,
};
use vstd::prelude::*;

verus! {

/// Workers that handle requests.
pub const N_WORKERS: usize = 10;

/// Milliseconds to sleep when no connection waits.
pub const ACCEPT_RETRY_MS: u64 = 50;

/// Side of the square that a frame is fitted into before inference.
pub const MODEL_INPUT_SIDE: i32 = 192;

/// How an attempt to accept a connection ended.
#[derive(Clone, Copy, Debug, PartialEq, Eq, Structural)]
pub enum AcceptOutcome {
    /// A client has connected.
    Connected,
    /// No client waits.
    WouldBlock,
    /// The listening socket has failed.
    Failed,
}

/// What the accept loop does next.
#[derive(Clone, Copy, Debug, PartialEq, Eq, Structural)]
pub enum AcceptAction {
    /// Hand the connection to a worker.
    Submit,
    /// Sleep this many milliseconds, then try again.
    Sleep { millis: u64 },
    /// Stop the server.
    Abort,
}

/// Where the handling of a request stands.
#[derive(Clone, Copy, Debug, PartialEq, Eq, Structural)]
pub enum HandlerState {
    /// Nothing was read yet.
    Start,
    /// The header is being read.
    ReadHeader,
    /// The payload that `header` announces is being read.
    ReadBody { header: RequestHeader },
    /// Inference runs.
    Infer,
    /// The response is being written.
    Respond,
    /// The connection is closed.
    Closed,
}

/// What a worker reports back to `handler_step`.
#[derive(Debug)]
pub enum HandlerEvent {
    /// A connection was handed over.
    Begin,
    /// These bytes were read as the header.
    Header { bytes: Vec<u8> },
    /// The payload was read in full.
    Body,
    /// Inference gave these values.
    Inferred { values: Vec<u32> },
    /// The response was written.
    Sent,
    /// A read or a write failed.
    Failed,
}

/// An event as a mathematical value.
pub enum HandlerEventView {
    Begin,
    Header { bytes: Seq<u8> },
    Body,
    Inferred { values: Seq<u32> },
    Sent,
    Failed,
}

impl View for HandlerEvent {
    type V = HandlerEventView;

    open spec fn view(&self) -> HandlerEventView {
        match *self {
            HandlerEvent::Begin => HandlerEventView::Begin,
            HandlerEvent::Header { bytes } => HandlerEventView::Header { bytes: bytes@ },
            HandlerEvent::Body => HandlerEventView::Body,
            HandlerEvent::Inferred { values } => HandlerEventView::Inferred { values: values@ },
            HandlerEvent::Sent => HandlerEventView::Sent,
            HandlerEvent::Failed => HandlerEventView::Failed,
        }
    }
}

/// What a worker does next.
#[derive(Debug)]
pub enum HandlerAction {
    /// Read exactly this many bytes.
    Read { len: usize },
    /// Convert the payload, fit it into the model's input and run inference.
    RunInference { width: u32, height: u32 },
    /// Write these bytes.
    Write { bytes: Vec<u8> },
    /// Close the connection.
    Close,
}

/// An action as a mathematical value.
pub enum HandlerActionView {
    Read { len: usize },
    RunInference { width: u32, height: u32 },
    Write { bytes: Seq<u8> },
    Close,
}

impl View for HandlerAction {
    type V = HandlerActionView;

    open spec fn view(&self) -> HandlerActionView {
        match *self {
            HandlerAction::Read { len } => HandlerActionView::Read { len },
            HandlerAction::RunInference { width, height } => HandlerActionView::RunInference {
                width,
                height,
            },
            HandlerAction::Write { bytes } => HandlerActionView::Write { bytes: bytes@ },
            HandlerAction::Close => HandlerActionView::Close,
        }
    }
}

/// What the accept loop does after an attempt to accept.
pub open spec fn accept_spec(outcome: AcceptOutcome) -> AcceptAction {
    match outcome {
        AcceptOutcome::Connected => AcceptAction::Submit,
        AcceptOutcome::WouldBlock => AcceptAction::Sleep { millis: ACCEPT_RETRY_MS },
        AcceptOutcome::Failed => AcceptAction::Abort,
    }
}

/// The step of a request: the throttle after it, where the request stands
/// next, and what is to be done.
///
/// Admission control is asked once for each request, when its payload is
/// there, and with the timestamp of its header. A step that the request was
/// not waiting for closes the connection.
pub open spec fn handler_step_spec(
    throttle: ThrottleView,
    state: HandlerState,
    event: HandlerEventView,
) -> (ThrottleView, HandlerState, HandlerActionView) {
    match (state, event) {
        (HandlerState::Start, HandlerEventView::Begin) => (
            throttle,
            HandlerState::ReadHeader,
            HandlerActionView::Read { len: REQUEST_HEADER_LEN },
        ),
        (HandlerState::ReadHeader, HandlerEventView::Header { bytes }) => match parse_header_spec(
            bytes,
        ) {
            Ok(header) => if header.len <= usize::MAX {
                (
                    throttle,
                    HandlerState::ReadBody { header },
                    HandlerActionView::Read { len: header.len as usize },
                )
            } else {
                (throttle, HandlerState::Closed, HandlerActionView::Close)
            },
            Err(_) => (throttle, HandlerState::Closed, HandlerActionView::Close),
        },
        (HandlerState::ReadBody { header }, HandlerEventView::Body) => if drop_spec(
            throttle,
            header.timestamp_ms,
        ) {
            (
                throttle,
                HandlerState::Respond,
                HandlerActionView::Write { bytes: response_bytes(Seq::empty()) },
            )
        } else {
            (
                admit_spec(throttle, header.timestamp_ms),
                HandlerState::Infer,
                HandlerActionView::RunInference { width: header.width, height: header.height },
            )
        },
        (HandlerState::Infer, HandlerEventView::Inferred { values }) => (
            throttle,
            HandlerState::Respond,
            HandlerActionView::Write { bytes: response_bytes(values) },
        ),
        (HandlerState::Respond, HandlerEventView::Sent) => (
            throttle,
            HandlerState::Closed,
            HandlerActionView::Close,
        ),
        _ => (throttle, HandlerState::Closed, HandlerActionView::Close),
    }
}

/// Decides what the accept loop does after an attempt to accept, and counts
/// a connection as a request that runs.
pub fn accept_step(counter: &mut ExecutionCounter, outcome: AcceptOutcome) -> (action:
    AcceptAction)
    requires
        old(counter)@ < u64::MAX,
    ensures
        action == accept_spec(outcome),
        final(counter)@ == (if outcome == AcceptOutcome::Connected {
            old(counter)@ + 1
        } else {
            old(counter)@ as int
        }),
{
    match outcome {
        AcceptOutcome::Connected => {
            counter.mark_received();
            AcceptAction::Submit
        },
        AcceptOutcome::WouldBlock => AcceptAction::Sleep { millis: ACCEPT_RETRY_MS },
        AcceptOutcome::Failed => AcceptAction::Abort,
    }
}

/// Notes that the handler of a request has returned: the request no longer
/// runs, and the interval moves by one step.
pub fn finish_request(counter: &mut ExecutionCounter, throttle: &mut Throttle)
    requires
        old(counter)@ > 0,
    ensures
        final(counter)@ == old(counter)@ - 1,
        final(throttle)@.interval_ms == next_interval(
            old(throttle)@.interval_ms,
            final(counter)@,
        ),
        final(throttle)@.latest_ts == old(throttle)@.latest_ts,
{
    counter.mark_finished();
    adjust_time_interval(throttle, counter);
}

/// Takes what came of the last action on a request and returns where the
/// request stands next and what is to be done.
pub fn handler_step(throttle: &mut Throttle, state: HandlerState, event: HandlerEvent) -> (r: (
    HandlerState,
    HandlerAction,
))
    ensures
        (final(throttle)@, r.0, r.1@) == handler_step_spec(old(throttle)@, state, event@),
{
    match (state, event) {
        (HandlerState::Start, HandlerEvent::Begin) => (
            HandlerState::ReadHeader,
            HandlerAction::Read { len: REQUEST_HEADER_LEN },
        ),
        (HandlerState::ReadHeader, HandlerEvent::Header { bytes }) => {
            match parse_header(bytes.as_slice()) {
                Ok(header) => {
                    if header.len <= usize::MAX as u64 {
                        (
                            HandlerState::ReadBody { header },
                            HandlerAction::Read { len: header.len as usize },
                        )
                    } else {
                        (HandlerState::Closed, HandlerAction::Close)
                    }
                },
                Err(_) => (HandlerState::Closed, HandlerAction::Close),
            }
        },
        (HandlerState::ReadBody { header }, HandlerEvent::Body) => {
            if should_drop(throttle, header.timestamp_ms) {
                (HandlerState::Respond, HandlerAction::Write { bytes: dropped_response() })
            } else {
                (
                    HandlerState::Infer,
                    HandlerAction::RunInference { width: header.width, height: header.height },
                )
            }
        },
        (HandlerState::Infer, HandlerEvent::Inferred { values }) => (
            HandlerState::Respond,
            HandlerAction::Write { bytes: encode_response(values.as_slice()) },
        ),
        (HandlerState::Respond, HandlerEvent::Sent) => (HandlerState::Closed, HandlerAction::Close),
        _ => (HandlerState::Closed, HandlerAction::Close),
    }
}

} // verus!
