use movenet::rpc::{dropped_response, encode_request, encode_response, RequestHeader};
use movenet::server::{
    accept_step, finish_request, handler_step, AcceptAction, AcceptOutcome, HandlerAction,
    HandlerEvent, HandlerState, ACCEPT_RETRY_MS, N_WORKERS,
};
use movenet::throttle::{ExecutionCounter, Throttle};

fn run_request(throttle: &mut Throttle, ts: u128, values: &[u32]) -> (Vec<u8>, bool) {
    let frame = encode_request(ts, 320, 240, &[0; 16]);
    let (state, action) = handler_step(throttle, HandlerState::Start, HandlerEvent::Begin);
    match action {
        HandlerAction::Read { len } => assert_eq!(len, 32),
        other => panic!("{:?}", other),
    }
    let (state, action) =
        handler_step(throttle, state, HandlerEvent::Header { bytes: frame[..32].to_vec() });
    match action {
        HandlerAction::Read { len } => assert_eq!(len, 16),
        other => panic!("{:?}", other),
    }
    let (state, action) = handler_step(throttle, state, HandlerEvent::Body);
    let (state, action, inferred) = match action {
        HandlerAction::RunInference { width, height } => {
            assert_eq!((width, height), (320, 240));
            let (state, action) =
                handler_step(throttle, state, HandlerEvent::Inferred { values: values.to_vec() });
            (state, action, true)
        }
        other => (state, other, false),
    };
    let bytes = match action {
        HandlerAction::Write { bytes } => bytes,
        other => panic!("{:?}", other),
    };
    assert_eq!(state, HandlerState::Respond);
    let (state, action) = handler_step(throttle, state, HandlerEvent::Sent);
    assert_eq!(state, HandlerState::Closed);
    assert!(matches!(action, HandlerAction::Close));
    (bytes, inferred)
}

#[test]
fn admitted_request_is_answered_with_the_values() {
    let mut throttle = Throttle::new();
    let (bytes, inferred) = run_request(&mut throttle, 1000, &[1, 2, 3]);
    assert!(inferred);
    assert_eq!(bytes, encode_response(&[1, 2, 3]));
    assert_eq!(throttle.latest_ts(), Some(1000));
}

#[test]
fn request_inside_the_interval_is_dropped_with_an_empty_response() {
    let mut throttle = Throttle::with_state(500, Some(1000)).unwrap();
    let (bytes, inferred) = run_request(&mut throttle, 1400, &[1, 2, 3]);
    assert!(!inferred);
    assert_eq!(bytes, dropped_response());
    assert_eq!(bytes, vec![0; 8]);
    assert_eq!(throttle.latest_ts(), Some(1000));
    let (bytes, inferred) = run_request(&mut throttle, 1500, &[7]);
    assert!(inferred);
    assert_eq!(bytes, encode_response(&[7]));
    assert_eq!(throttle.latest_ts(), Some(1500));
}

#[test]
fn failed_reads_end_the_request_only() {
    let mut throttle = Throttle::new();
    let (state, _) = handler_step(&mut throttle, HandlerState::Start, HandlerEvent::Begin);
    let (state, action) = handler_step(&mut throttle, state, HandlerEvent::Failed);
    assert_eq!(state, HandlerState::Closed);
    assert!(matches!(action, HandlerAction::Close));
    assert_eq!(throttle.latest_ts(), None);
    assert_eq!(throttle.interval_ms(), 500);
    let header = RequestHeader { timestamp_ms: 5, width: 1, height: 1, len: 4 };
    let (state, action) =
        handler_step(&mut throttle, HandlerState::ReadBody { header }, HandlerEvent::Failed);
    assert_eq!(state, HandlerState::Closed);
    assert!(matches!(action, HandlerAction::Close));
    assert_eq!(throttle.latest_ts(), None);
}

#[test]
fn short_header_closes_the_connection() {
    let mut throttle = Throttle::new();
    let (state, action) = handler_step(
        &mut throttle,
        HandlerState::ReadHeader,
        HandlerEvent::Header { bytes: vec![0; 31] },
    );
    assert_eq!(state, HandlerState::Closed);
    assert!(matches!(action, HandlerAction::Close));
}

#[test]
fn steps_out_of_order_close_the_connection() {
    let mut throttle = Throttle::new();
    let (state, action) = handler_step(&mut throttle, HandlerState::Start, HandlerEvent::Sent);
    assert_eq!(state, HandlerState::Closed);
    assert!(matches!(action, HandlerAction::Close));
    let (state, _) = handler_step(
        &mut throttle,
        HandlerState::Infer,
        HandlerEvent::Body,
    );
    assert_eq!(state, HandlerState::Closed);
}

#[test]
fn accept_loop_submits_sleeps_or_stops() {
    let mut counter = ExecutionCounter::new();
    assert_eq!(accept_step(&mut counter, AcceptOutcome::Connected), AcceptAction::Submit);
    assert_eq!(counter.get_num_running(), 1);
    assert_eq!(
        accept_step(&mut counter, AcceptOutcome::WouldBlock),
        AcceptAction::Sleep { millis: 50 }
    );
    assert_eq!(accept_step(&mut counter, AcceptOutcome::Failed), AcceptAction::Abort);
    assert_eq!(counter.get_num_running(), 1);
    assert_eq!(ACCEPT_RETRY_MS, 50);
    assert_eq!(N_WORKERS, 10);
}

#[test]
fn finished_request_moves_the_interval() {
    let mut counter = ExecutionCounter::new();
    let mut throttle = Throttle::new();
    for _ in 0..12 {
        accept_step(&mut counter, AcceptOutcome::Connected);
    }
    finish_request(&mut counter, &mut throttle);
    assert_eq!(counter.get_num_running(), 11);
    assert_eq!(throttle.interval_ms(), 600);
    finish_request(&mut counter, &mut throttle);
    assert_eq!(counter.get_num_running(), 10);
    assert_eq!(throttle.interval_ms(), 500);
}
