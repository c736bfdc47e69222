use movenet::bytes::ByteOrder;
use movenet::helper::{
    dispatch, store_addr, ArgAddrs, HelperState, IoctlCall, PageCopy, ReadAction, ReadError,
    ReadEvent, ReadState, SeekFrom, WriteOutcome,
};
use movenet::ioctl::{
    VIDIOC_DQBUF, VIDIOC_G_FMT, VIDIOC_G_PARM, VIDIOC_QBUF, VIDIOC_QUERYBUF, VIDIOC_QUERYCAP,
    VIDIOC_REQBUFS, VIDIOC_STREAMOFF, VIDIOC_STREAMON, VIDIOC_S_FMT, VIDIOC_S_PARM,
};
use movenet::protocol::{ioctl_message, pfns_message, set_addr_message, Command, ProtocolError};
use std::collections::HashMap;

const ORDER: ByteOrder = ByteOrder::Little;
const PAGE: usize = 4096;
const BASE: u64 = 0xFFFF_8880_0000_0000;

fn helper_with_addrs() -> HelperState {
    let mut helper = HelperState::new();
    for slot in 0..7u64 {
        helper.write(ORDER, &set_addr_message(ORDER, slot, 0x1000 + slot)).unwrap();
    }
    helper
}

#[test]
fn new_helper_is_empty() {
    let helper = HelperState::new();
    assert_eq!(helper.seek_pos, 0);
    assert!(helper.buffers.is_empty());
    assert_eq!(
        helper.addrs,
        ArgAddrs {
            cap: 0,
            format: 0,
            streamparm: 0,
            reqbuffers: 0,
            bufs: 0,
            start_cap_type: 0,
            stop_cap_type: 0
        }
    );
}

#[test]
fn stored_address_is_passed_to_the_call_on_its_slot() {
    let mut helper = HelperState::new();
    let out = helper.write(ORDER, &set_addr_message(ORDER, 1, 0xDEAD_BEEF)).unwrap();
    assert_eq!(out, WriteOutcome { consumed: 24, call: None });
    helper.write(ORDER, &set_addr_message(ORDER, 0, 0x11)).unwrap();
    helper.write(ORDER, &pfns_message(ORDER, &[5])).unwrap();
    let out = helper.write(ORDER, &ioctl_message(ORDER, 1)).unwrap();
    assert_eq!(
        out,
        WriteOutcome { consumed: 16, call: Some(IoctlCall { cmd: VIDIOC_G_FMT, arg: 0xDEAD_BEEF }) }
    );
    let out = helper.write(ORDER, &ioctl_message(ORDER, 2)).unwrap();
    assert_eq!(out.call, Some(IoctlCall { cmd: VIDIOC_S_FMT, arg: 0xDEAD_BEEF }));
}

#[test]
fn every_call_of_the_table_has_its_number_and_slot() {
    let mut helper = helper_with_addrs();
    let want = [
        (VIDIOC_QUERYCAP, 0x1000),
        (VIDIOC_G_FMT, 0x1001),
        (VIDIOC_S_FMT, 0x1001),
        (VIDIOC_S_PARM, 0x1002),
        (VIDIOC_G_PARM, 0x1002),
        (VIDIOC_REQBUFS, 0x1003),
        (VIDIOC_QUERYBUF, 0x1004),
        (VIDIOC_QBUF, 0x1004),
        (VIDIOC_STREAMON, 0x1005),
        (VIDIOC_STREAMOFF, 0x1006),
    ];
    for (io_type, (cmd, arg)) in want.iter().enumerate() {
        let out = helper.write(ORDER, &ioctl_message(ORDER, io_type as u64)).unwrap();
        assert_eq!(out.call, Some(IoctlCall { cmd: *cmd, arg: *arg }));
    }
    let out = helper.write(ORDER, &ioctl_message(ORDER, 10)).unwrap();
    assert_eq!(out, WriteOutcome { consumed: 16, call: None });
}

#[test]
fn unknown_slot_and_unknown_command_change_nothing() {
    let mut helper = helper_with_addrs();
    let before = helper.addrs;
    let out = helper.write(ORDER, &set_addr_message(ORDER, 7, 0x99)).unwrap();
    assert_eq!(out, WriteOutcome { consumed: 24, call: None });
    assert_eq!(helper.addrs, before);
    assert_eq!(helper.apply(Command::Unknown { cmd_type: 5 }), None);
    assert_eq!(helper.addrs, before);
    assert!(helper.buffers.is_empty());
}

#[test]
fn unreadable_write_changes_nothing() {
    let mut helper = helper_with_addrs();
    helper.write(ORDER, &pfns_message(ORDER, &[1, 2])).unwrap();
    let before = helper.addrs;
    assert_eq!(helper.write(ORDER, &[1, 2, 3]), Err(ProtocolError::ShortRead));
    let mut short = set_addr_message(ORDER, 2, 0x55);
    short.pop();
    assert_eq!(helper.write(ORDER, &short), Err(ProtocolError::ShortRead));
    let mut short = ioctl_message(ORDER, 0);
    short.pop();
    assert_eq!(helper.write(ORDER, &short), Err(ProtocolError::ShortRead));
    assert_eq!(helper.buffers, vec![vec![1, 2]]);
    assert_eq!(helper.addrs, before);
    assert_eq!(helper.seek_pos, 0);
}

#[test]
fn page_frames_before_a_stray_tail_are_stored() {
    let mut helper = HelperState::new();
    let mut message = pfns_message(ORDER, &[10]);
    message.extend_from_slice(&[0xAA, 0xBB, 0xCC]);
    assert_eq!(message.len(), 19);
    assert_eq!(helper.write(ORDER, &message), Ok(WriteOutcome { consumed: 19, call: None }));
    assert_eq!(helper.buffers, vec![vec![10]]);

    let mut helper = helper_with_addrs();
    helper.write(ORDER, &pfns_message(ORDER, &[1, 2])).unwrap();
    let mut ragged = pfns_message(ORDER, &[9, 9, 9]);
    ragged.pop();
    assert_eq!(helper.write(ORDER, &ragged), Ok(WriteOutcome { consumed: 31, call: None }));
    assert_eq!(helper.buffers, vec![vec![9, 9]]);
}

#[test]
fn page_frames_replace_only_the_buffer_under_the_cursor() {
    let mut helper = HelperState::new();
    helper.write(ORDER, &pfns_message(ORDER, &[1, 2])).unwrap();
    assert_eq!(helper.buffers, vec![vec![1, 2]]);
    assert_eq!(helper.seek(SeekFrom::Start(1)), 1);
    helper.write(ORDER, &pfns_message(ORDER, &[3])).unwrap();
    assert_eq!(helper.seek(SeekFrom::Start(2)), 2);
    helper.write(ORDER, &pfns_message(ORDER, &[4, 5, 6])).unwrap();
    assert_eq!(helper.buffers, vec![vec![1, 2], vec![3], vec![4, 5, 6]]);
    helper.seek(SeekFrom::Start(1));
    assert_eq!(helper.buffers, vec![vec![1, 2], vec![], vec![4, 5, 6]]);
    helper.write(ORDER, &pfns_message(ORDER, &[7, 8])).unwrap();
    assert_eq!(helper.buffers, vec![vec![1, 2], vec![7, 8], vec![4, 5, 6]]);
    assert_eq!(helper.seek_pos, 1);
}

#[test]
fn cursor_beyond_the_end_appends() {
    let mut helper = HelperState::new();
    helper.seek(SeekFrom::Start(5));
    helper.set_pfns(vec![42]);
    assert_eq!(helper.buffers, vec![vec![42]]);
    assert_eq!(helper.seek_pos, 5);
}

#[test]
fn only_absolute_seeks_move_the_cursor() {
    let mut helper = HelperState::new();
    helper.set_pfns(vec![1]);
    assert_eq!(helper.seek(SeekFrom::Start(3)), 3);
    assert_eq!(helper.seek(SeekFrom::Current(2)), 3);
    assert_eq!(helper.seek(SeekFrom::End(-1)), 3);
    assert_eq!(helper.buffers, vec![vec![1]]);
    assert_eq!(helper.seek(SeekFrom::Start(0)), 0);
    assert_eq!(helper.buffers, vec![Vec::<u64>::new()]);
}

#[test]
fn slots_and_dispatch_work_on_plain_addresses() {
    let mut addrs = HelperState::new().addrs;
    store_addr(&mut addrs, 3, 0x33);
    store_addr(&mut addrs, 6, 0x66);
    store_addr(&mut addrs, 9, 0x99);
    assert_eq!(addrs.reqbuffers, 0x33);
    assert_eq!(addrs.stop_cap_type, 0x66);
    assert_eq!(dispatch(&addrs, 5), Some(IoctlCall { cmd: VIDIOC_REQBUFS, arg: 0x33 }));
    assert_eq!(dispatch(&addrs, 9), Some(IoctlCall { cmd: VIDIOC_STREAMOFF, arg: 0x66 }));
    assert_eq!(dispatch(&addrs, 4), Some(IoctlCall { cmd: VIDIOC_G_PARM, arg: 0 }));
    assert_eq!(dispatch(&addrs, 10), None);
}

#[test]
fn read_plan_copies_each_page_to_its_place() {
    let mut helper = helper_with_addrs();
    helper.set_pfns(vec![0x10, 0x25]);
    let plan = helper.read_plan(0, BASE, PAGE).unwrap();
    assert_eq!(plan.total, 2 * PAGE);
    assert_eq!(
        plan.copies,
        vec![
            PageCopy { src: BASE + (0x10 << 12), dst: 0, len: PAGE },
            PageCopy { src: BASE + (0x25 << 12), dst: PAGE, len: PAGE },
        ]
    );
}

#[test]
fn frame_copy_returns_the_pages_in_order() {
    let p0: u64 = 0x77;
    let p1: u64 = 0x12;
    let mut memory: HashMap<u64, Vec<u8>> = HashMap::new();
    memory.insert(BASE + (p0 << 12), vec![0xA0; PAGE]);
    memory.insert(BASE + (p1 << 12), vec![0xB1; PAGE]);
    let mut helper = helper_with_addrs();
    helper.set_pfns(vec![p0, p1]);

    let (state, action) = helper.read_step(ReadState::Idle, ReadEvent::Begin, BASE, PAGE);
    match action {
        ReadAction::Ioctl(call) => assert_eq!(call, IoctlCall { cmd: VIDIOC_DQBUF, arg: 0x1004 }),
        other => panic!("{:?}", other),
    }
    let (state, action) = helper.read_step(state, ReadEvent::Dequeued(0), BASE, PAGE);
    let frame = match action {
        ReadAction::Copy(plan) => {
            let mut frame = vec![0u8; plan.total];
            for copy in &plan.copies {
                frame[copy.dst..copy.dst + copy.len].copy_from_slice(&memory[&copy.src]);
            }
            frame
        }
        other => panic!("{:?}", other),
    };
    let mut want = vec![0xA0u8; PAGE];
    want.extend_from_slice(&vec![0xB1u8; PAGE]);
    assert_eq!(frame, want);
    let (state, action) = helper.read_step(state, ReadEvent::Copied(true), BASE, PAGE);
    match action {
        ReadAction::Ioctl(call) => assert_eq!(call, IoctlCall { cmd: VIDIOC_QBUF, arg: 0x1004 }),
        other => panic!("{:?}", other),
    }
    let (state, action) = helper.read_step(state, ReadEvent::Requeued(0), BASE, PAGE);
    assert_eq!(state, ReadState::Idle);
    match action {
        ReadAction::Return(total) => assert_eq!(total, 2 * PAGE),
        other => panic!("{:?}", other),
    }
}

#[test]
fn failed_dequeue_gives_no_bytes_and_still_requeues() {
    let mut helper = helper_with_addrs();
    helper.set_pfns(vec![1, 2, 3]);
    let plan = helper.read_plan(-11, BASE, PAGE).unwrap();
    assert_eq!(plan.total, 0);
    assert!(plan.copies.is_empty());
    let (state, _) = helper.read_step(ReadState::Idle, ReadEvent::Begin, BASE, PAGE);
    let (state, action) = helper.read_step(state, ReadEvent::Dequeued(-11), BASE, PAGE);
    assert_eq!(state, ReadState::AwaitRequeue { total: 0 });
    match action {
        ReadAction::Ioctl(call) => assert_eq!(call.cmd, VIDIOC_QBUF),
        other => panic!("{:?}", other),
    }
    let (_, action) = helper.read_step(state, ReadEvent::Requeued(-5), BASE, PAGE);
    match action {
        ReadAction::Return(total) => assert_eq!(total, 0),
        other => panic!("{:?}", other),
    }
}

#[test]
fn reads_that_cannot_be_planned_fail() {
    let helper = HelperState::new();
    assert_eq!(helper.read_plan(0, BASE, PAGE).err(), Some(ReadError::NoBuffer));
    let mut helper = HelperState::new();
    helper.set_pfns(vec![1, 2, 3]);
    assert_eq!(helper.read_plan(0, BASE, usize::MAX).err(), Some(ReadError::LengthOverflow));
    let (state, action) = helper.read_step(ReadState::AwaitDequeue, ReadEvent::Dequeued(0), BASE, usize::MAX);
    assert_eq!(state, ReadState::Idle);
    match action {
        ReadAction::Fail(e) => assert_eq!(e, ReadError::LengthOverflow),
        other => panic!("{:?}", other),
    }
}

#[test]
fn page_addresses_are_counted_in_sixty_four_bits() {
    let mut helper = HelperState::new();
    helper.set_pfns(vec![1 << 60, 3, (1 << 52) + 2]);
    let plan = helper.read_plan(0, BASE, PAGE).unwrap();
    assert_eq!(plan.total, 3 * PAGE);
    assert_eq!(
        plan.copies,
        vec![
            PageCopy { src: BASE, dst: 0, len: PAGE },
            PageCopy { src: BASE + 0x3000, dst: PAGE, len: PAGE },
            PageCopy { src: BASE + 0x2000, dst: 2 * PAGE, len: PAGE },
        ]
    );
    let mut helper = HelperState::new();
    helper.set_pfns(vec![0x0000_8000_0000_0000 >> 12]);
    let plan = helper.read_plan(0, BASE, PAGE).unwrap();
    assert_eq!(plan.copies, vec![PageCopy { src: 0x0000_0880_0000_0000, dst: 0, len: PAGE }]);
}

#[test]
fn a_read_returns_every_page_of_the_first_buffer() {
    for count in [1usize, 2, 5, 150] {
        let mut helper = helper_with_addrs();
        let pfns: Vec<u64> = (0..count as u64).map(|i| 0x4000 + 3 * i).collect();
        helper.set_pfns(pfns.clone());
        helper.seek(SeekFrom::Start(1));
        helper.set_pfns(vec![1, 2, 3]);
        let (state, _) = helper.read_step(ReadState::Idle, ReadEvent::Begin, BASE, PAGE);
        let (state, action) = helper.read_step(state, ReadEvent::Dequeued(0), BASE, PAGE);
        match action {
            ReadAction::Copy(plan) => {
                assert_eq!(plan.total, count * PAGE);
                assert_eq!(plan.copies.len(), count);
                for (i, copy) in plan.copies.iter().enumerate() {
                    let want = PageCopy { src: BASE + (pfns[i] << 12), dst: i * PAGE, len: PAGE };
                    assert_eq!(*copy, want);
                }
            }
            other => panic!("{:?}", other),
        }
        let (state, _) = helper.read_step(state, ReadEvent::Copied(true), BASE, PAGE);
        let (state, action) = helper.read_step(state, ReadEvent::Requeued(-1), BASE, PAGE);
        assert_eq!(state, ReadState::Idle);
        match action {
            ReadAction::Return(total) => assert_eq!(total, count * PAGE),
            other => panic!("{:?}", other),
        }
    }
}

#[test]
fn read_steps_out_of_order_and_failed_copies_end_the_read() {
    let mut helper = helper_with_addrs();
    helper.set_pfns(vec![1]);
    let (state, action) = helper.read_step(ReadState::Idle, ReadEvent::Copied(true), BASE, PAGE);
    assert_eq!(state, ReadState::Idle);
    match action {
        ReadAction::Fail(e) => assert_eq!(e, ReadError::OutOfOrder),
        other => panic!("{:?}", other),
    }
    let (state, action) =
        helper.read_step(ReadState::AwaitCopy { total: PAGE }, ReadEvent::Copied(false), BASE, PAGE);
    assert_eq!(state, ReadState::Idle);
    match action {
        ReadAction::Fail(e) => assert_eq!(e, ReadError::CopyFailed),
        other => panic!("{:?}", other),
    }
}

#[test]
fn read_calls_use_the_buffer_record() {
    let helper = helper_with_addrs();
    assert_eq!(helper.dequeue_call(), IoctlCall { cmd: VIDIOC_DQBUF, arg: 0x1004 });
    assert_eq!(helper.requeue_call(), IoctlCall { cmd: VIDIOC_QBUF, arg: 0x1004 });
    assert_eq!(
        dispatch(&helper.addrs, 6),
        Some(IoctlCall { cmd: VIDIOC_QUERYBUF, arg: 0x1004 })
    );
    assert_eq!(dispatch(&helper.addrs, 0), Some(IoctlCall { cmd: VIDIOC_QUERYCAP, arg: 0x1000 }));
    assert_eq!(dispatch(&helper.addrs, 3), Some(IoctlCall { cmd: VIDIOC_S_PARM, arg: 0x1002 }));
    assert_eq!(dispatch(&helper.addrs, 8), Some(IoctlCall { cmd: VIDIOC_STREAMON, arg: 0x1005 }));
}
