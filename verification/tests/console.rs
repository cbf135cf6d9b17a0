use neodos::fmt::{decimal_string, hex_string, push_bool, push_hex_padded, push_signed};
use neodos::trace::{TraceBuffer, TraceEntry, TraceEvent, TRACE_CAPACITY};
use neodos::tsr::{TsrRegistry, MAX_TSRS, TSR_WINDOW_END, TSR_WINDOW_START};
use neodos::usermode::{
    clear_wait_pid, current_wait_pid, heap_slot_index, launch_frame, set_wait_pid,
    spawn_blocked_by_zombies, user_stack_top, LaunchFrame, LaunchThread, WaitPid,
};
use neodos::vga::{codepoint_index, init, ConsoleOp, VgaWriter, BLACK, VGA_HEIGHT, VGA_WIDTH, WHITE};

#[test]
fn number_formatting() {
    assert_eq!(decimal_string(0), "0");
    assert_eq!(decimal_string(1234567890), "1234567890");
    assert_eq!(decimal_string(u64::MAX), "18446744073709551615");
    assert_eq!(hex_string(0xdeadbeef), "deadbeef");
    assert_eq!(hex_string(0), "0");
    let mut s = String::new();
    push_hex_padded(&mut s, 0x1f, 16);
    assert_eq!(s, "000000000000001f");
    let mut s = String::new();
    push_hex_padded(&mut s, u64::MAX, 4);
    assert_eq!(s, "ffffffffffffffff");
    let mut s = String::from("x=");
    push_signed(&mut s, -42);
    push_bool(&mut s, true);
    assert_eq!(s, "x=-42true");
    let mut s = String::new();
    push_signed(&mut s, i64::MIN);
    assert_eq!(s, i64::MIN.to_string());
}

#[test]
fn trace_ring_dump() {
    let mut t = TraceBuffer::new();
    assert_eq!(t.head(), 0);
    assert!(t.dump(32).is_empty());
    t.write(TraceEvent::SyscallEnter, 1, 2, 3, 4, 100);
    t.write(TraceEvent::SyscallExit, 5, 6, 7, 8, 101);
    assert_eq!(t.head(), 2);
    let d = t.dump(32);
    assert_eq!(
        d,
        vec![
            TraceEntry { tick: 100, event: TraceEvent::SyscallEnter, arg0: 1, arg1: 2, arg2: 3, arg3: 4 },
            TraceEntry { tick: 101, event: TraceEvent::SyscallExit, arg0: 5, arg1: 6, arg2: 7, arg3: 8 },
        ]
    );
    assert_eq!(t.dump(1).len(), 1);
    assert_eq!(t.dump(1)[0].tick, 101);
    assert_eq!(TraceEvent::Panic.code(), 0xFF);
    assert_eq!(TraceEvent::TimerIrqInfo.code(), 0x0B);
}

#[test]
fn trace_ring_overwrites_oldest() {
    let mut t = TraceBuffer::new();
    for i in 0..(TRACE_CAPACITY as u64 + 3) {
        t.write(TraceEvent::IrqTimerTick, i, 0, 0, 0, i);
    }
    let d = t.dump(4);
    assert_eq!(d.iter().map(|e| e.tick).collect::<Vec<_>>(), vec![TRACE_CAPACITY as u64 - 1, TRACE_CAPACITY as u64, TRACE_CAPACITY as u64 + 1, TRACE_CAPACITY as u64 + 2]);
}

#[test]
fn tsr_installation() {
    let mut r = TsrRegistry::new();
    assert_eq!(r.next_address, TSR_WINDOW_START);
    let a = r.install(b"KEYB.TSR", 0x60, 5000).unwrap();
    assert_eq!(a, TSR_WINDOW_START);
    assert_eq!(r.next_address, TSR_WINDOW_START + 0x2000);
    assert_eq!(r.install(b"OTHER.TSR", 0x60, 10), Err(()));
    let b = r.install(b"A_VERY_LONG_FILE_NAME.TSR", 0x61, 10).unwrap();
    assert_eq!(b, TSR_WINDOW_START + 0x2000);
    let info = r.programs[1].unwrap();
    assert_eq!(&info.name, b"A_VERY_LONG_FILE");
    assert_eq!(r.programs[0].unwrap().name[..8], *b"KEYB.TSR");
    assert_eq!(r.programs[0].unwrap().name[8..], [0u8; 8]);
    assert_eq!(r.handlers_for(0x60), vec![TSR_WINDOW_START]);
    assert!(r.handlers_for(0x62).is_empty());
}

#[test]
fn tsr_window_and_slots_are_bounded() {
    let mut r = TsrRegistry::new();
    r.next_address = TSR_WINDOW_END - 100;
    assert_eq!(r.install(b"BIG", 1, 101), Err(()));
    let mut r = TsrRegistry::new();
    for i in 0..MAX_TSRS {
        assert!(r.install(b"T", i as u8, 16).is_ok());
    }
    assert_eq!(r.install(b"T", 200, 16), Err(()));
}

#[test]
fn console_cursor() {
    assert_eq!(codepoint_index('A' as u32), 65);
    assert_eq!(codepoint_index(0xE9), 0xE9);
    assert_eq!(codepoint_index(0x20AC), 0x80);
    assert_eq!(codepoint_index(0x4E2D), 0x81);
    let mut w = init();
    let mut ops = Vec::new();
    w.write_str("Hi\n", &mut ops);
    assert_eq!(w, VgaWriter { row: 1, col: 0 });
    assert_eq!(
        ops,
        vec![
            ConsoleOp::Draw { glyph: b'H', row: 0, col: 0, color: WHITE },
            ConsoleOp::Draw { glyph: b'i', row: 0, col: 1, color: WHITE },
        ]
    );
    ops.clear();
    w.write_char(8, &mut ops);
    assert_eq!(ops, vec![ConsoleOp::Draw { glyph: 32, row: 1, col: 0, color: BLACK }]);
    ops.clear();
    w.print_decimal(42, &mut ops);
    w.print_hex(0xab, &mut ops);
    assert_eq!(w.col, 6);
    assert_eq!(w.draw_cursor(true), ConsoleOp::Draw { glyph: 95, row: 1, col: 6, color: WHITE });
    assert_eq!(w.draw_cursor(false), ConsoleOp::Draw { glyph: 32, row: 1, col: 6, color: BLACK });
    assert_eq!(w.clear_screen(), ConsoleOp::Clear);
    assert_eq!(w, VgaWriter::new());
}

#[test]
fn console_wraps_and_scrolls() {
    let mut w = VgaWriter { row: VGA_HEIGHT - 1, col: VGA_WIDTH - 1 };
    let mut ops = Vec::new();
    w.write_char(b'x', &mut ops);
    assert_eq!(w, VgaWriter { row: VGA_HEIGHT - 1, col: 0 });
    assert_eq!(ops.last(), Some(&ConsoleOp::Scroll));
    let mut ops = Vec::new();
    w.print_str("\r", &mut ops);
    assert!(ops.is_empty());
}

#[test]
fn wait_pid_and_slots() {
    let mut w = WaitPid::new();
    assert_eq!(current_wait_pid(&w), 0);
    set_wait_pid(&mut w, 9);
    assert_eq!(current_wait_pid(&w), 9);
    clear_wait_pid(&mut w);
    assert_eq!(current_wait_pid(&w), 0);
    assert_eq!(user_stack_top(0x40_0000, 2), 0x40_0000 + 2 * 0x2_0000 + 0x2_0000);
    assert_eq!(heap_slot_index(0, 0x1000_0000, 0x10_0000), None);
    assert_eq!(heap_slot_index(0x1030_0000, 0x1000_0000, 0x10_0000), Some(3));
    assert!(spawn_blocked_by_zombies(64, false, true));
    assert!(!spawn_blocked_by_zombies(64, true, true));
    assert!(!spawn_blocked_by_zombies(63, false, true));
    assert!(!spawn_blocked_by_zombies(64, false, false));
}

fn lt(pid: u32, tid: u32, rip: u64) -> LaunchThread {
    LaunchThread { pid, tid, rip, rsp: 0x5000 + tid as u64, kernel_stack_top: 0x9000 + tid as u64 }
}

#[test]
fn launch_frame_of_a_process() {
    let threads = [lt(7, 0, 0x1111), lt(3, 4, 0x2222), lt(7, 5, 0x4010_0000), lt(7, 6, 0x3333)];
    // Thread 0 is never launched; the first other thread of the pid is.
    assert_eq!(
        launch_frame(&threads, 7, Some(2), 0x40_0000),
        Some(LaunchFrame {
            index: 2,
            entry: 0x4010_0000,
            user_stack_top: 0x40_0000 + 2 * 0x2_0000 + 0x2_0000,
            kernel_stack_top: 0x9005,
        })
    );
    // Without a user slot, the thread's saved stack is used.
    assert_eq!(
        launch_frame(&threads, 3, None, 0x40_0000),
        Some(LaunchFrame { index: 1, entry: 0x2222, user_stack_top: 0x5004, kernel_stack_top: 0x9004 })
    );
    assert_eq!(launch_frame(&threads, 9, None, 0x40_0000), None);
    // An entry point of 0 launches nothing.
    let zero = [lt(8, 1, 0), lt(8, 2, 0x1000)];
    assert_eq!(launch_frame(&zero, 8, None, 0), None);
}

#[test]
fn tsr_images_never_overlap() {
    let mut r = TsrRegistry::new();
    for (k, size) in [1usize, 4096, 4097, 0, 65536, 12345].iter().enumerate() {
        if let Ok(a) = r.install(b"T.TSR", 0x70 + k as u8, *size) {
            assert_eq!(r.handlers_for(0x70 + k as u8), vec![a]);
        }
    }
    let progs: Vec<_> = r.programs.iter().flatten().collect();
    for p in &progs {
        assert!(p.base_address >= TSR_WINDOW_START);
        assert!(p.base_address + p.size as u64 <= r.next_address);
    }
    for (i, p) in progs.iter().enumerate() {
        for q in progs.iter().skip(i + 1) {
            assert!(p.base_address + p.size as u64 <= q.base_address || q.base_address + q.size as u64 <= p.base_address);
        }
    }
}

#[test]
fn code_points_are_drawn_as_glyphs() {
    let mut w = init();
    let mut ops = Vec::new();
    w.write_codepoint(0x20AC, &mut ops);
    w.write_codepoint(0x4E2D, &mut ops);
    w.write_codepoint('a' as u32, &mut ops);
    assert_eq!(
        ops,
        vec![
            ConsoleOp::Draw { glyph: 0x80, row: 0, col: 0, color: WHITE },
            ConsoleOp::Draw { glyph: 0x81, row: 0, col: 1, color: WHITE },
            ConsoleOp::Draw { glyph: b'a', row: 0, col: 2, color: WHITE },
        ]
    );
    assert_eq!(w, VgaWriter { row: 0, col: 3 });
}

#[test]
fn trace_dump_is_capped_at_the_ring() {
    let mut t = TraceBuffer::new();
    for i in 0..2000u64 {
        t.write(TraceEvent::IrqTimerTick, i, 0, 0, 0, i);
    }
    let d = t.dump(2000);
    assert_eq!(d.len(), TRACE_CAPACITY);
    let ticks: Vec<u64> = d.iter().map(|e| e.tick).collect();
    assert_eq!(ticks, (2000 - TRACE_CAPACITY as u64..2000).collect::<Vec<_>>());
}
