use neodos::syscall::cm::{key_handle_check, name_record, value_reply};
use neodos::syscall::handlers::{
    brk_plan, cursor_blink_request, exit_plan, io_buffer_check, keyboard_take, mmap_file_check,
    mmap_request, munmap_check, poll_args_check, poll_fds, poll_revents, read_route, waitpid_action,
    write_route, BrkPlan, ExitPlan, HandleKind, MmapRequest, PollFd, ReadRoute, WaitPidAction,
    WriteRoute, POLLERR, POLLHUP, POLLIN, POLLOUT, WAIT_ANY_CHILD,
};
use neodos::syscall::resched::{
    pick_user_thread, resched_decision, syscall_trace_frame, FrameTrace, NextThread,
    ReschedCandidate, ReschedDecision, SavedUserFrame,
};
use neodos::syscall::{err_to_u64, SyscallError};
use neodos::vfs::kdrive::ThreadRunState;

fn e(err: SyscallError) -> u64 {
    err_to_u64(err)
}

#[test]
fn mmap_arguments() {
    assert_eq!(mmap_request(0, 0, 1), Err(e(SyscallError::Inval)));
    assert_eq!(mmap_request(0x10_0001, 0, 1), Err(e(SyscallError::Inval)));
    assert_eq!(mmap_request(100, 4, 1), Err(e(SyscallError::Inval)));
    assert_eq!(mmap_request(1, 3, 1), Ok(MmapRequest { alloc_size: 0x1000, anonymous: true }));
    assert_eq!(mmap_request(0x1001, 1, 0), Ok(MmapRequest { alloc_size: 0x2000, anonymous: false }));
    assert_eq!(mmap_request(0x10_0000, 0, 2), Ok(MmapRequest { alloc_size: 0x10_0000, anonymous: false }));
    assert_eq!(mmap_file_check(false, Some((10, true))), Err(e(SyscallError::BadF)));
    assert_eq!(mmap_file_check(true, None), Err(e(SyscallError::NoEnt)));
    assert_eq!(mmap_file_check(true, Some((10, false))), Err(e(SyscallError::IsDir)));
    assert_eq!(mmap_file_check(true, Some((10, true))), Ok(10));
    assert_eq!(munmap_check(0x1000, 0), Err(e(SyscallError::Inval)));
    assert_eq!(munmap_check(0x1001, 10), Err(e(SyscallError::Inval)));
    assert_eq!(munmap_check(0x2000, 10), Ok(()));
}

#[test]
fn brk_plans() {
    let base = 0x4000_0000u64;
    let size = 0x10_0000u64;
    assert_eq!(brk_plan(base + 5, 0, size, 0), Err(e(SyscallError::NoMem)));
    assert_eq!(brk_plan(0, base, size, base + 0x10), Ok(BrkPlan::Query { current: base + 0x10 }));
    assert_eq!(brk_plan(base - 1, base, size, base), Err(e(SyscallError::Inval)));
    assert_eq!(brk_plan(base + size + 1, base, size, base), Err(e(SyscallError::Inval)));
    assert_eq!(
        brk_plan(base + 0x3800, base, size, base + 0x10),
        Ok(BrkPlan::Grow { first_page: base + 0x1000, end_page: base + 0x3000, new_break: base + 0x3800 })
    );
    assert_eq!(
        brk_plan(base + 0x10, base, size, base + 0x3800),
        Ok(BrkPlan::Shrink { first_page: base + 0x1000, end_page: base + 0x3000, new_break: base + 0x10 })
    );
    assert_eq!(brk_plan(base + 8, base, size, base + 8), Ok(BrkPlan::Same { new_break: base + 8 }));
}

#[test]
fn io_routes() {
    assert_eq!(io_buffer_check(false, 1), Err(e(SyscallError::Fault)));
    assert_eq!(io_buffer_check(true, 4097), Err(e(SyscallError::Fault)));
    assert_eq!(io_buffer_check(true, 4096), Ok(()));
    assert_eq!(write_route(HandleKind::Stdout), Ok(WriteRoute::Console));
    assert_eq!(write_route(HandleKind::Stderr), Ok(WriteRoute::Console));
    assert_eq!(write_route(HandleKind::PipeWrite), Ok(WriteRoute::Pipe));
    assert_eq!(write_route(HandleKind::File), Ok(WriteRoute::File));
    assert_eq!(write_route(HandleKind::Stdin), Err(e(SyscallError::BadF)));
    assert_eq!(read_route(HandleKind::Stdin), Ok(ReadRoute::Keyboard));
    assert_eq!(read_route(HandleKind::PipeRead { ready: false, write_closed: false }), Ok(ReadRoute::Pipe));
    assert_eq!(read_route(HandleKind::File), Err(e(SyscallError::BadF)));
}

#[test]
fn keyboard_reads_stop_at_line_end() {
    assert_eq!(keyboard_take(b"dir\rmore", 100), 4);
    assert_eq!(keyboard_take(b"dir\nmore", 2), 2);
    assert_eq!(keyboard_take(b"abc", 10), 3);
    assert_eq!(keyboard_take(b"", 10), 0);
    assert_eq!(keyboard_take(b"\n", 10), 1);
}

#[test]
fn poll_events() {
    assert_eq!(poll_args_check(0, 1), Err(e(SyscallError::Inval)));
    assert_eq!(poll_args_check(0x1000, 0), Err(e(SyscallError::Inval)));
    assert_eq!(poll_args_check(0x1000, 257), Err(e(SyscallError::Inval)));
    assert_eq!(poll_args_check(0x1000, 256), Ok(256));
    assert_eq!(poll_revents(-1, POLLIN, HandleKind::Stdin), 0);
    assert_eq!(poll_revents(0, POLLIN | POLLOUT, HandleKind::Stdin), POLLIN);
    assert_eq!(poll_revents(1, POLLIN, HandleKind::Stdout), 0);
    assert_eq!(poll_revents(1, POLLOUT, HandleKind::Stdout), POLLOUT);
    assert_eq!(poll_revents(3, 0, HandleKind::Closed), POLLERR);
    assert_eq!(poll_revents(3, POLLIN, HandleKind::Other), POLLERR);
    assert_eq!(poll_revents(3, POLLIN, HandleKind::PipeRead { ready: true, write_closed: true }), POLLIN | POLLHUP);
    assert_eq!(poll_revents(3, POLLIN, HandleKind::PipeRead { ready: false, write_closed: false }), 0);
    assert_eq!(poll_revents(3, POLLIN | POLLOUT, HandleKind::Directory), POLLIN | POLLOUT);

    let mut fds = vec![
        PollFd { fd: 0, events: POLLIN, revents: 77 },
        PollFd { fd: -1, events: POLLIN, revents: 5 },
        PollFd { fd: 4, events: POLLIN, revents: 0 },
        PollFd { fd: 5, events: POLLOUT, revents: 0 },
    ];
    let kinds = [
        HandleKind::Stdin,
        HandleKind::Closed,
        HandleKind::PipeRead { ready: false, write_closed: false },
        HandleKind::Closed,
    ];
    let ready = poll_fds(&mut fds, &kinds);
    assert_eq!(ready, 2);
    assert_eq!(fds.iter().map(|f| f.revents).collect::<Vec<_>>(), vec![POLLIN, 0, 0, POLLERR]);
    assert_eq!(fds[1].fd, -1);
}

#[test]
fn cursor_and_waitpid() {
    assert_eq!(cursor_blink_request(0), Ok(false));
    assert_eq!(cursor_blink_request(1), Ok(true));
    assert_eq!(cursor_blink_request(2), Err(e(SyscallError::Inval)));
    assert_eq!(waitpid_action(WAIT_ANY_CHILD, Some(12), false), WaitPidAction::ReapChild(12));
    assert_eq!(waitpid_action(WAIT_ANY_CHILD, None, true), WaitPidAction::YieldNone);
    assert_eq!(waitpid_action(7, None, true), WaitPidAction::Block(7));
    assert_eq!(waitpid_action(7, Some(3), false), WaitPidAction::ReapTarget(7));
}

#[test]
fn exit_plans() {
    assert_eq!(
        exit_plan(0, 5, Some(1), 5),
        ExitPlan {
            thread_count: Some(1),
            free_process: false,
            wake_joiners: false,
            wake_parent_waiters: false,
            return_to_kernel: false,
            defer_cleanup: false
        }
    );
    let last = exit_plan(3, 5, Some(1), 5);
    assert_eq!(last.thread_count, Some(0));
    assert!(last.free_process && last.wake_joiners && last.wake_parent_waiters);
    assert!(last.return_to_kernel && last.defer_cleanup);
    let more = exit_plan(3, 5, Some(2), 5);
    assert_eq!(more.thread_count, Some(1));
    assert!(!more.free_process && !more.return_to_kernel && !more.defer_cleanup);
    let other = exit_plan(3, 5, Some(1), 6);
    assert!(other.free_process && !other.return_to_kernel);
    let norecord = exit_plan(3, 5, None, 5);
    assert_eq!(norecord.thread_count, None);
    assert!(!norecord.free_process && norecord.return_to_kernel && !norecord.defer_cleanup);
    let zero = exit_plan(3, 5, Some(0), 5);
    assert_eq!(zero.thread_count, Some(0));
    let kernel = exit_plan(3, 0, Some(4), 0);
    assert_eq!(kernel.thread_count, Some(4));
    assert!(kernel.wake_joiners && !kernel.wake_parent_waiters && !kernel.return_to_kernel);
}

fn cand(tid: u32, priority: u8, ready: bool, user_mode: bool) -> ReschedCandidate {
    ReschedCandidate { tid, priority, ready, has_frame: true, user_mode }
}

#[test]
fn resched_decisions() {
    let user_next = NextThread { tid: 9, rsp: 0x1000, kernel_stack_top: 0x2000, user_mode: true };
    let kernel_next = NextThread { tid: 2, rsp: 0x1000, kernel_stack_top: 0x2000, user_mode: false };
    let cs = [cand(1, 2, true, true), cand(2, 0, true, false), cand(3, 1, true, true), cand(4, 1, true, true)];
    assert_eq!(resched_decision(false, None, Some(user_next), &cs, 4, true), ReschedDecision::Stay);
    assert_eq!(resched_decision(true, None, None, &cs, 4, true), ReschedDecision::NothingScheduled);
    assert_eq!(resched_decision(true, None, Some(user_next), &cs, 4, true), ReschedDecision::SwitchNext);
    let no_stack = NextThread { rsp: 0, ..user_next };
    assert_eq!(resched_decision(true, None, Some(no_stack), &cs, 4, true), ReschedDecision::Stuck);
    let no_kstack = NextThread { kernel_stack_top: 0, ..user_next };
    assert_eq!(resched_decision(true, None, Some(no_kstack), &cs, 4, true), ReschedDecision::Stuck);
    assert_eq!(
        resched_decision(true, Some(ThreadRunState::Ready), Some(kernel_next), &cs, 4, true),
        ReschedDecision::KeepCurrent
    );
    assert_eq!(
        resched_decision(true, Some(ThreadRunState::Blocked), Some(kernel_next), &cs, 4, true),
        ReschedDecision::SwitchCandidate(2)
    );
    assert_eq!(
        resched_decision(true, Some(ThreadRunState::Terminated), Some(kernel_next), &[], 4, true),
        ReschedDecision::SwitchIdle
    );
    assert_eq!(
        resched_decision(true, Some(ThreadRunState::Terminated), Some(kernel_next), &[], 4, false),
        ReschedDecision::Stuck
    );
    assert_eq!(pick_user_thread(&cs, 4), Some(2));
    assert_eq!(pick_user_thread(&cs, 1), None);
    assert_eq!(pick_user_thread(&[cand(1, 0, false, true)], 4), None);
}

#[test]
fn registry_replies() {
    assert_eq!(key_handle_check(false, Some(1)), Err(e(SyscallError::BadF)));
    assert_eq!(key_handle_check(true, None), Err(e(SyscallError::Inval)));
    assert_eq!(key_handle_check(true, Some(77)), Ok(77));
    let r = value_reply(1, b"abc", true, 100);
    assert_eq!(r.total, 11);
    assert_eq!(r.copy_len, 11);
    assert_eq!(r.bytes, vec![1, 0, 0, 0, 3, 0, 0, 0, b'a', b'b', b'c']);
    let h = value_reply(4, b"abc", true, 9);
    assert_eq!((h.total, h.copy_len), (11, 9));
    assert_eq!(h.bytes, vec![4, 0, 0, 0, 3, 0, 0, 0]);
    assert!(value_reply(4, b"abc", true, 7).bytes.is_empty());
    assert!(value_reply(4, b"abc", false, 100).bytes.is_empty());
    assert_eq!(name_record(b"Run"), b"Run\0".to_vec());
    let long = name_record(&[b'k'; 300]);
    assert_eq!(long.len(), 256);
    assert_eq!(long[255], 0);
}

#[test]
fn syscall_frame_trace() {
    let mut saved = SavedUserFrame { rsp: 0, rip: 0 };
    // Entry from ring 3 records the frame.
    let t = syscall_trace_frame(&mut saved, 0, 0x40_1000, 0x23, 0x7FF0);
    assert_eq!(t, FrameTrace { user_rsp: 0x7FF0, corrupt: false });
    assert_eq!(saved, SavedUserFrame { rsp: 0x7FF0, rip: 0x40_1000 });
    // Exit with the same frame is fine.
    assert!(!syscall_trace_frame(&mut saved, 1, 0x40_1000, 0x23, 0x7FF0).corrupt);
    // Exit with a different return address is reported.
    assert!(syscall_trace_frame(&mut saved, 1, 0x40_2000, 0x23, 0x7FF0).corrupt);
    assert!(syscall_trace_frame(&mut saved, 1, 0x40_1000, 0x23, 0x7FE0).corrupt);
    // A ring-0 frame has no user stack and is neither recorded nor checked.
    let t = syscall_trace_frame(&mut saved, 0, 0xFFFF_8000_0000_1000, 0x08, 0x1234);
    assert_eq!(t, FrameTrace { user_rsp: 0, corrupt: false });
    assert_eq!(saved, SavedUserFrame { rsp: 0x7FF0, rip: 0x40_1000 });
    assert!(!syscall_trace_frame(&mut saved, 1, 0xFFFF_8000_0000_1000, 0x08, 0x1234).corrupt);
}
