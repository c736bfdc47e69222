use movenet::bytes::ByteOrder;
use movenet::capture::{
    frame_result, Action, Buffer, CaptureError, Errno, FrameOutcome, Memory, Phase, ReadStep,
    VideoCapture, WaitOutcome, DEFAULT_STREAM_FPS, MAX_V4L_BUFFERS, READ_TIMEOUT_SECS,
};
use movenet::helper::{ArgAddrs, HelperState, IoctlCall, SeekFrom};
use movenet::ioctl::{
    VIDIOC_G_FMT, VIDIOC_G_PARM, VIDIOC_QBUF, VIDIOC_QUERYBUF, VIDIOC_QUERYCAP, VIDIOC_REQBUFS,
    VIDIOC_STREAMON, VIDIOC_S_FMT, VIDIOC_S_PARM,
};
use movenet::protocol::{
    ioctl_message, parse_command, pfns_message, set_addr_message, Command,
};
use movenet::v4l2::{
    ArgRecords, Fmt, V4L2_BUF_TYPE_VIDEO_CAPTURE, V4L2_MEMORY_MMAP, V4L2_PIX_FMT_YUYV,
};

const ORDER: ByteOrder = ByteOrder::Little;

fn addrs() -> ArgAddrs {
    ArgAddrs {
        cap: 0x100,
        format: 0x200,
        streamparm: 0x300,
        reqbuffers: 0x400,
        bufs: 0x500,
        start_cap_type: 0x600,
        stop_cap_type: 0x700,
    }
}

/// A driver that answers every call as a camera of 320 by 240 would.
fn answer(call: u32, records: &mut ArgRecords) {
    if call == VIDIOC_G_FMT {
        let Fmt::Pix(mut pix) = records.format.fmt;
        pix.width = 320;
        pix.height = 240;
        records.format.fmt = Fmt::Pix(pix);
    } else if call == VIDIOC_G_PARM {
        records.streamparm.denominator = 30;
    } else if call == VIDIOC_REQBUFS {
        records.reqbuffers.count = 1;
    } else if call == VIDIOC_QUERYBUF {
        records.bufs.length = 2 * 4096;
        records.bufs.offset = 0;
    }
}

struct Run {
    writes: Vec<Command>,
    calls: Vec<IoctlCall>,
    seeks: Vec<u64>,
    records_at_call: Vec<(u32, ArgRecords)>,
    helper: HelperState,
    done: Option<(u32, u32)>,
}

fn bring_up(capture: &mut VideoCapture, pfns: &[u64]) -> Run {
    let mut run = Run {
        writes: Vec::new(),
        calls: Vec::new(),
        seeks: Vec::new(),
        records_at_call: Vec::new(),
        helper: HelperState::new(),
        done: None,
    };
    let mut action = capture.prep_stream(addrs(), Some(1), None);
    for _ in 0..40 {
        action = match action {
            Action::Write { messages } => {
                let mut records = capture.args;
                for message in &messages {
                    run.writes.push(parse_command(ORDER, message).unwrap());
                    let out = run.helper.write(ORDER, message).unwrap();
                    assert_eq!(out.consumed, message.len());
                    if let Some(call) = out.call {
                        run.calls.push(call);
                        run.records_at_call.push((call.cmd, records));
                        answer(call.cmd, &mut records);
                    }
                }
                capture.written(records)
            }
            Action::SeekWrite { pos, message } => {
                run.seeks.push(run.helper.seek(SeekFrom::Start(pos)));
                run.writes.push(parse_command(ORDER, &message).unwrap());
                run.helper.write(ORDER, &message).unwrap();
                capture.written(capture.args)
            }
            Action::MapBuffer { length, offset } => {
                assert_eq!((length, offset), (8192, 0));
                capture.mapped(Some(0x7F00_0000_0000))
            }
            Action::Resolve { addr, bytes } => {
                assert_eq!((addr, bytes), (0x7F00_0000_0000, 8192));
                capture.resolved(Some(pfns))
            }
            Action::Done { width, height } => {
                run.done = Some((width, height));
                break;
            }
            Action::Fail { error } => panic!("{:?}", error),
        };
    }
    run
}

#[test]
fn bring_up_writes_come_in_the_fixed_order() {
    let mut capture = VideoCapture::new(ORDER);
    let run = bring_up(&mut capture, &[0x11, 0x22]);
    let a = addrs();
    let want = vec![
        Command::SetAddr { set_type: 0, uaddr: a.cap },
        Command::SetAddr { set_type: 1, uaddr: a.format },
        Command::SetAddr { set_type: 2, uaddr: a.streamparm },
        Command::SetAddr { set_type: 3, uaddr: a.reqbuffers },
        Command::SetAddr { set_type: 4, uaddr: a.bufs },
        Command::SetAddr { set_type: 5, uaddr: a.start_cap_type },
        Command::SetAddr { set_type: 6, uaddr: a.stop_cap_type },
        Command::DoIoctl { io_type: 0 },
        Command::DoIoctl { io_type: 1 },
        Command::DoIoctl { io_type: 2 },
        Command::DoIoctl { io_type: 3 },
        Command::DoIoctl { io_type: 4 },
        Command::DoIoctl { io_type: 5 },
        Command::DoIoctl { io_type: 6 },
        Command::SetPfns { pfns: vec![0x11, 0x22] },
        Command::DoIoctl { io_type: 8 },
        Command::DoIoctl { io_type: 7 },
    ];
    assert_eq!(run.writes, want);
    assert_eq!(run.seeks, vec![0]);
    assert_eq!(run.done, Some((320, 240)));
}

#[test]
fn bring_up_leaves_client_and_helper_ready() {
    let mut capture = VideoCapture::new(ORDER);
    let run = bring_up(&mut capture, &[0x11, 0x22]);
    assert_eq!(capture.phase, Phase::Streaming);
    assert_eq!(capture.fps, 30);
    assert_eq!((capture.frame_width, capture.frame_height), (320, 240));
    assert_eq!(
        capture.buffers,
        vec![Buffer { memories: Memory { start: 0x7F00_0000_0000, length: 8192 }, bytesused: 0 }]
    );
    assert_eq!(run.helper.addrs, addrs());
    assert_eq!(run.helper.buffers, vec![vec![0x11, 0x22]]);
    let a = addrs();
    let calls: Vec<(u32, u64)> = run.calls.iter().map(|c| (c.cmd, c.arg)).collect();
    assert_eq!(
        calls,
        vec![
            (VIDIOC_QUERYCAP, a.cap),
            (VIDIOC_G_FMT, a.format),
            (VIDIOC_S_FMT, a.format),
            (VIDIOC_S_PARM, a.streamparm),
            (VIDIOC_G_PARM, a.streamparm),
            (VIDIOC_REQBUFS, a.reqbuffers),
            (VIDIOC_QUERYBUF, a.bufs),
            (VIDIOC_STREAMON, a.start_cap_type),
            (VIDIOC_QBUF, a.bufs),
        ]
    );
}

#[test]
fn records_carry_the_request_when_the_driver_is_called() {
    let mut capture = VideoCapture::new(ORDER);
    let run = bring_up(&mut capture, &[1]);
    for (cmd, records) in &run.records_at_call {
        if *cmd == VIDIOC_G_FMT {
            assert_eq!(records.format.type_, V4L2_BUF_TYPE_VIDEO_CAPTURE);
        } else if *cmd == VIDIOC_S_FMT {
            let Fmt::Pix(pix) = records.format.fmt;
            assert_eq!(pix.pixelformat, V4L2_PIX_FMT_YUYV);
            assert_eq!(pix.pixelformat, 0x5659_5559);
            assert_eq!((pix.width, pix.height), (320, 240));
        } else if *cmd == VIDIOC_S_PARM {
            assert_eq!(records.streamparm.type_, V4L2_BUF_TYPE_VIDEO_CAPTURE);
            assert_eq!(records.streamparm.numerator, 1);
            assert_eq!(records.streamparm.denominator, DEFAULT_STREAM_FPS as u32);
        } else if *cmd == VIDIOC_REQBUFS {
            assert_eq!(records.reqbuffers.count, 1);
            assert_eq!(records.reqbuffers.type_, V4L2_BUF_TYPE_VIDEO_CAPTURE);
            assert_eq!(records.reqbuffers.memory, V4L2_MEMORY_MMAP);
        } else if *cmd == VIDIOC_QUERYBUF || *cmd == VIDIOC_QBUF {
            assert_eq!(records.bufs.index, 0);
            assert_eq!(records.bufs.type_, V4L2_BUF_TYPE_VIDEO_CAPTURE);
            assert_eq!(records.bufs.memory, V4L2_MEMORY_MMAP);
        }
    }
    assert_eq!(run.records_at_call.len(), 9);
}

#[test]
fn caller_wishes_are_noted() {
    let mut capture = VideoCapture::new(ORDER);
    capture.prep_stream(addrs(), None, Some(15));
    assert_eq!(capture.requested_count, MAX_V4L_BUFFERS as u32);
    assert_eq!(capture.requested_fps, 15);
    assert_eq!(capture.phase, Phase::Setup);
    assert_eq!(capture.addrs, addrs());
}

fn advance_to(capture: &mut VideoCapture, phase: Phase) {
    capture.prep_stream(addrs(), Some(1), Some(30));
    let mut records = ArgRecords::new();
    records.reqbuffers.count = 1;
    records.bufs.length = 4096;
    for _ in 0..20 {
        if capture.phase == phase {
            return;
        }
        capture.written(records);
    }
    panic!("phase not reached");
}

#[test]
fn mapping_failure_ends_the_bring_up() {
    let mut capture = VideoCapture::new(ORDER);
    advance_to(&mut capture, Phase::MapBuffer);
    match capture.mapped(None) {
        Action::Fail { error } => assert_eq!(error, CaptureError::MapFailed),
        other => panic!("{:?}", other),
    }
    assert_eq!(capture.phase, Phase::Failed);
}

#[test]
fn resolver_failure_ends_the_bring_up() {
    let mut capture = VideoCapture::new(ORDER);
    advance_to(&mut capture, Phase::MapBuffer);
    capture.mapped(Some(0x1000));
    match capture.resolved(None) {
        Action::Fail { error } => assert_eq!(error, CaptureError::ResolveFailed),
        other => panic!("{:?}", other),
    }
    assert_eq!(capture.phase, Phase::Failed);
}

#[test]
fn no_granted_buffer_ends_the_bring_up() {
    let mut capture = VideoCapture::new(ORDER);
    capture.prep_stream(addrs(), Some(1), Some(30));
    let records = ArgRecords::new();
    for _ in 0..7 {
        capture.written(records);
    }
    assert_eq!(capture.phase, Phase::MapBuffer);
    assert!(capture.buffers.is_empty());
    capture.mapped(Some(0x1000));
    capture.resolved(Some(&[1, 2]));
    match capture.written(records) {
        Action::Fail { error } => assert_eq!(error, CaptureError::NoBuffer),
        other => panic!("{:?}", other),
    }
}

#[test]
fn reports_out_of_order_end_the_bring_up() {
    let mut capture = VideoCapture::new(ORDER);
    match capture.written(ArgRecords::new()) {
        Action::Fail { error } => assert_eq!(error, CaptureError::OutOfOrder),
        other => panic!("{:?}", other),
    }
    let mut capture = VideoCapture::new(ORDER);
    capture.prep_stream(addrs(), None, None);
    match capture.mapped(Some(1)) {
        Action::Fail { error } => assert_eq!(error, CaptureError::OutOfOrder),
        other => panic!("{:?}", other),
    }
    let mut capture = VideoCapture::new(ORDER);
    capture.prep_stream(addrs(), None, None);
    match capture.resolved(Some(&[1])) {
        Action::Fail { error } => assert_eq!(error, CaptureError::OutOfOrder),
        other => panic!("{:?}", other),
    }
}

#[test]
fn closed_device_skips_the_capability_call() {
    let mut capture = VideoCapture::new(ORDER);
    capture.is_open = false;
    assert!(capture.query_cap().is_empty());
    capture.is_open = true;
    assert_eq!(capture.query_cap(), vec![ioctl_message(ORDER, 0)]);
}

#[test]
fn single_steps_give_their_messages() {
    let mut capture = VideoCapture::new(ByteOrder::Big);
    capture.addrs = addrs();
    let order = ByteOrder::Big;
    assert_eq!(capture.write_uaddr(3, 0x400), set_addr_message(order, 3, 0x400));
    assert_eq!(capture.setup_module().len(), 7);
    assert_eq!(capture.setup_module()[6], set_addr_message(order, 6, 0x700));
    assert_eq!(capture.start_ioctl(4), ioctl_message(order, 4));
    assert_eq!(capture.check_img_format(), vec![ioctl_message(order, 1)]);
    assert_eq!(capture.switch_to_yuyv(), vec![ioctl_message(order, 2)]);
    assert_eq!(capture.set_fps(25), vec![ioctl_message(order, 3), ioctl_message(order, 4)]);
    assert_eq!(capture.args.streamparm.denominator, 25);
    assert_eq!(capture.request_buffer(10), vec![ioctl_message(order, 5)]);
    assert_eq!(capture.args.reqbuffers.count, 1);
    assert_eq!(capture.query_buffer(), vec![ioctl_message(order, 6)]);
    assert_eq!(capture.queue_buffer(), vec![ioctl_message(order, 7)]);
    assert_eq!(capture.start_stream(), ioctl_message(order, 8));
    assert_eq!(capture.stop_stream(), ioctl_message(order, 9));
    assert_eq!(capture.inform_pfns(&[5, 6], 0), (0, pfns_message(order, &[5, 6])));
    assert_eq!(Buffer::new(), Buffer { memories: Memory { start: 0, length: 0 }, bytesused: 0 });
}

#[test]
fn read_waits_two_seconds_and_reads_the_buffer_length() {
    let mut capture = VideoCapture::new(ORDER);
    capture.args.bufs.length = 153_600;
    assert_eq!(capture.read(), ReadStep::Wait { seconds: 2 });
    assert_eq!(READ_TIMEOUT_SECS, 2);
    assert_eq!(capture.after_wait(WaitOutcome::Ready), ReadStep::ReadFrame { length: 153_600 });
    assert_eq!(capture.args.bufs.type_, V4L2_BUF_TYPE_VIDEO_CAPTURE);
    assert_eq!(capture.args.bufs.memory, V4L2_MEMORY_MMAP);
    assert_eq!(capture.read_frame(), 153_600);
    assert_eq!(capture.after_frame(FrameOutcome::Read), ReadStep::Deliver);
}

#[test]
fn read_polls_again_on_timeout_and_interrupt() {
    let mut capture = VideoCapture::new(ORDER);
    assert_eq!(capture.after_wait(WaitOutcome::TimedOut), ReadStep::Wait { seconds: 2 });
    assert_eq!(
        capture.after_wait(WaitOutcome::Failed(Errno::EINTR)),
        ReadStep::Wait { seconds: 2 }
    );
    assert_eq!(
        capture.after_wait(WaitOutcome::Failed(Errno::EAGAIN)),
        ReadStep::GiveUp { errno: Errno::EAGAIN }
    );
    assert_eq!(
        capture.after_wait(WaitOutcome::Failed(Errno::Other(5))),
        ReadStep::GiveUp { errno: Errno::Other(5) }
    );
}

#[test]
fn failed_read_is_reported_as_unavailable_address() {
    let capture = VideoCapture::new(ORDER);
    assert_eq!(frame_result(FrameOutcome::Failed), Err(Errno::EADDRNOTAVAIL));
    assert_eq!(frame_result(FrameOutcome::Read), Ok(()));
    assert_eq!(
        capture.after_frame(FrameOutcome::Failed),
        ReadStep::GiveUp { errno: Errno::EADDRNOTAVAIL }
    );
}

#[test]
fn teardown_stops_the_stream_and_unmaps_every_buffer() {
    let mut capture = VideoCapture::new(ORDER);
    let run = bring_up(&mut capture, &[3]);
    assert!(run.done.is_some());
    let teardown = capture.teardown();
    assert_eq!(teardown.stop, ioctl_message(ORDER, 9));
    assert_eq!(teardown.unmaps, vec![Memory { start: 0x7F00_0000_0000, length: 8192 }]);
    let fresh = VideoCapture::new(ORDER);
    assert!(fresh.teardown().unmaps.is_empty());
}
