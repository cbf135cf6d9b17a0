use neodos::syscall::handlers::HandleKind;
use neodos::syscall::ob::create::{
    decode_create, image_size_check, numbered_name, thread_stack_top, CreateRequest, SocketKind,
};
use neodos::syscall::ob::handle::{destroy_plan, open_path_check, resolve_handle_drive, DestroyKind};
use neodos::syscall::ob::query::{
    drive_records, name_copy_len, name_field, process_info, state_code, std_handle_name,
    thread_info, DriveSummary, ThreadSample, DRIVE_INFO_SIZE,
};
use neodos::syscall::ob::service::{
    decode_service_request, decode_snapshot_request, encode_service_status, ServiceConfig,
    ServiceRequest, ServiceRestartPolicy, ServiceStartType, ServiceStatus, SnapshotOp,
};
use neodos::syscall::ob::set::{
    contains_char, fs_object_name, fs_object_path, info_args_check, layout_name_bytes,
    parse_security_descriptor, path_drive_index, priority_arg, record_size_check,
    semaphore_release_count, short_name_check, socket_addr_arg, unmap_base_arg, until_nul,
    SocketAddrArg,
};
use neodos::syscall::ob::stats::{
    process_state_aggregate, read_cpu_stats, snapshot_cpu_stats, snapshot_thread_stats,
    KprcbCounters,
};
use neodos::syscall::ob::types::{
    CpuStatsEntry, StatsHeader, ThreadStatsEntry, CPU_STATS_ENTRY_SIZE, STATS_HEADER_SIZE,
    STATS_VERSION, THREAD_STATS_ENTRY_SIZE,
};
use neodos::syscall::ob::wait::{
    enum_args_check, enum_array_size, enum_uses_volume, wait_args_check, wait_plan, WaitPlan,
    WaitReason, WaitTarget,
};
use neodos::syscall::{err_to_u64, SyscallError};
use neodos::vfs::kdrive::ThreadRunState;

fn e(err: SyscallError) -> u64 {
    err_to_u64(err)
}

#[test]
fn smp_stats_struct_layout() {
    assert_eq!(core::mem::size_of::<StatsHeader>(), 16);
    assert_eq!(core::mem::size_of::<CpuStatsEntry>(), 40);
    assert_eq!(core::mem::size_of::<ThreadStatsEntry>(), 24);
    assert_eq!(STATS_VERSION, 1);
    assert_eq!(STATS_HEADER_SIZE, 16);
    assert_eq!(CPU_STATS_ENTRY_SIZE, 40);
    assert_eq!(THREAD_STATS_ENTRY_SIZE, 24);
}

#[test]
fn process_state_aggregate_semantics() {
    assert_eq!(process_state_aggregate(false, false, false), 3);
    assert_eq!(process_state_aggregate(true, true, false), 1);
    assert_eq!(process_state_aggregate(true, false, true), 0);
    assert_eq!(process_state_aggregate(true, false, false), 2);
    assert_eq!(process_state_aggregate(true, true, true), 1);
}

#[test]
fn cpu_stats_snapshot_header() {
    let plan = snapshot_cpu_stats(16 + 40 * 2, 4, 64).unwrap();
    assert!(plan.bytes as usize >= STATS_HEADER_SIZE);
    assert_eq!(plan.header.version, STATS_VERSION);
    assert_eq!(plan.header.entry_size as usize, CPU_STATS_ENTRY_SIZE);
    assert!(plan.header.total >= 1);
    assert!(plan.header.returned <= plan.header.total);
    assert!(plan.header.returned as usize <= 2);
    assert_eq!(plan.header.total, 4);
    assert_eq!(plan.header.returned, 2);
    assert_eq!(plan.bytes, 96);
}

#[test]
fn thread_stats_snapshot_header() {
    let plan = snapshot_thread_stats(16 + 24 * 4, 10, 10).unwrap();
    assert!(plan.bytes as usize >= STATS_HEADER_SIZE);
    assert_eq!(plan.header.version, STATS_VERSION);
    assert_eq!(plan.header.entry_size as usize, THREAD_STATS_ENTRY_SIZE);
    assert!(plan.header.returned <= plan.header.total);
    assert!(plan.header.returned as usize <= 4);
}

#[test]
fn thread_stats_truncation_is_reported() {
    let plan = snapshot_thread_stats(16 + 24, 7, 7).unwrap();
    assert_eq!(plan.bytes, 16 + 24);
    assert_eq!(plan.header.returned, 1);
    assert!(plan.header.total >= plan.header.returned);
    assert_eq!(plan.header.total, 7);
}

#[test]
fn snapshots_refuse_a_buffer_smaller_than_the_header() {
    assert_eq!(snapshot_cpu_stats(15, 1, 4), Err(e(SyscallError::Inval)));
    assert_eq!(snapshot_thread_stats(0, 0, 0), Err(e(SyscallError::Inval)));
    let p = snapshot_cpu_stats(16, 0, 4).unwrap();
    assert_eq!((p.header.total, p.header.returned, p.bytes), (1, 0, 16));
    let p = snapshot_cpu_stats(1000, 99, 8).unwrap();
    assert_eq!((p.header.total, p.header.returned), (8, 8));
}

#[test]
fn cpu_entry_from_control_block() {
    let k = KprcbCounters { interrupt_count: 5, context_switch_count: 6, timer_tick_count: 7, cpu_id: 2, apic_id: 9 };
    let en = read_cpu_stats(2, true, 4, Some(k));
    assert_eq!((en.interrupt_count, en.context_switch_count, en.timer_tick_count), (5, 6, 7));
    assert_eq!((en.cpu_id, en.apic_id, en.online), (2, 9, 1));
    let off = read_cpu_stats(5, true, 4, None);
    assert_eq!((off.cpu_id, off.apic_id, off.online, off.interrupt_count), (5, 0, 0, 0));
}

#[test]
fn service_requests() {
    assert_eq!(decode_service_request(0, &[]), Ok(ServiceRequest::Start));
    assert_eq!(decode_service_request(1, &[0x10, 0x27, 0, 0]), Ok(ServiceRequest::Stop { timeout_ms: 10000 }));
    assert_eq!(decode_service_request(1, &[1, 2]), Ok(ServiceRequest::Stop { timeout_ms: 0 }));
    assert_eq!(decode_service_request(2, &[5, 0, 0, 0, 9]), Ok(ServiceRequest::Restart { timeout_ms: 5 }));
    assert_eq!(decode_service_request(3, &[0u8; 28]), Err(e(SyscallError::Inval)));
    assert_eq!(decode_service_request(3, &[0u8; 29]), Ok(ServiceRequest::QueryStatus));
    assert_eq!(
        decode_service_request(4, &[2, 1, 3, 0, 0, 0]),
        Ok(ServiceRequest::SetConfig(ServiceConfig {
            start_type: ServiceStartType::Auto,
            restart_policy: ServiceRestartPolicy::OnCrash,
            max_failures: 3,
        }))
    );
    assert_eq!(decode_service_request(4, &[2, 1, 3, 0, 0]), Err(e(SyscallError::Inval)));
    assert_eq!(decode_service_request(4, &[5, 1, 3, 0, 0, 0]), Err(e(SyscallError::Inval)));
    assert_eq!(decode_service_request(4, &[4, 3, 3, 0, 0, 0]), Err(e(SyscallError::Inval)));
    assert_eq!(decode_service_request(5, &[]), Err(e(SyscallError::NoSys)));
}

#[test]
fn service_status_record() {
    let s = ServiceStatus {
        state: 2,
        pid: 0x0102_0304,
        exit_count: 5,
        last_exit_code: 0xFFFF_FFFF_FFFF_FFFE,
        failure_count: 1,
        start_tick: 0x1122_3344_5566_7788,
    };
    let r = encode_service_status(&s);
    assert_eq!(r.len(), 29);
    assert_eq!(
        r,
        vec![
            2, 4, 3, 2, 1, 5, 0, 0, 0, 0xFE, 0xFF, 0xFF, 0xFF, 0xFF, 0xFF, 0xFF, 0xFF, 1, 0, 0, 0,
            0x88, 0x77, 0x66, 0x55, 0x44, 0x33, 0x22, 0x11
        ]
    );
}

#[test]
fn snapshot_requests() {
    assert_eq!(decode_snapshot_request(0, 0, 0), Ok(SnapshotOp::Create));
    assert_eq!(decode_snapshot_request(1, 0x1000, 7), Err(e(SyscallError::Inval)));
    assert_eq!(decode_snapshot_request(1, 0, 8), Err(e(SyscallError::Inval)));
    assert_eq!(decode_snapshot_request(1, 0x1000, 8), Ok(SnapshotOp::Restore));
    assert_eq!(decode_snapshot_request(2, 0x1000, 23), Err(e(SyscallError::Inval)));
    assert_eq!(decode_snapshot_request(2, 0x1000, 24), Ok(SnapshotOp::List));
    assert_eq!(decode_snapshot_request(3, 0, 0), Ok(SnapshotOp::Purge));
    assert_eq!(decode_snapshot_request(4, 0, 0), Err(e(SyscallError::NoSys)));
}

#[test]
fn set_info_argument_checks() {
    assert_eq!(info_args_check(true, 0, 4, true, true), Err(e(SyscallError::Inval)));
    assert_eq!(info_args_check(true, 0x1000, 0, true, true), Err(e(SyscallError::Inval)));
    assert_eq!(info_args_check(true, 0x1000, 4, false, true), Err(e(SyscallError::Fault)));
    assert_eq!(info_args_check(true, 0x1000, 4, true, false), Err(e(SyscallError::BadF)));
    assert_eq!(info_args_check(false, 0, 0, false, true), Ok(()));
    assert_eq!(info_args_check(true, 0x1000, 4, true, true), Ok(()));
    assert_eq!(record_size_check(3, 4), Err(e(SyscallError::Inval)));
    assert_eq!(record_size_check(4, 4), Ok(()));
}

#[test]
fn priority_records() {
    assert_eq!(priority_arg(&[3, 0, 0, 0]), Ok(3));
    assert_eq!(priority_arg(&[4, 0, 0, 0]), Err(e(SyscallError::Inval)));
    assert_eq!(priority_arg(&[0, 0, 0, 1]), Err(e(SyscallError::Inval)));
    assert_eq!(priority_arg(&[0, 0, 0]), Err(e(SyscallError::Inval)));
}

#[test]
fn small_records() {
    assert_eq!(semaphore_release_count(&[]), 1);
    assert_eq!(semaphore_release_count(&[2, 0, 0, 0]), 2);
    assert_eq!(semaphore_release_count(&[0xFF, 0xFF, 0xFF, 0xFF]), -1);
    assert_eq!(unmap_base_arg(&[0, 0x10, 0, 0, 0, 0, 0, 0]), Ok(0x1000));
    assert_eq!(unmap_base_arg(&[0; 7]), Err(e(SyscallError::Inval)));
    assert_eq!(
        socket_addr_arg(&[10, 0, 2, 15, 0x1F, 0x90]),
        Ok(SocketAddrArg { a: 10, b: 0, c: 2, d: 15, port: 8080 })
    );
    assert_eq!(socket_addr_arg(&[10, 0, 2, 15, 0x1F]), Err(e(SyscallError::Inval)));
}

#[test]
fn security_descriptor_parsing() {
    let mut sd = vec![1u8, 2];
    sd.extend_from_slice(&[0, 3, 0x00, 0x00, 0x01, 0x00, 1, 0, 0, 0, 0, 0, 5, 0x20, 0, 0, 0]);
    sd.extend_from_slice(&[1, 0, 0xFF, 0, 0, 0, 0, 0, 0, 0, 0, 0, 1]);
    let aces = parse_security_descriptor(&sd, 15).unwrap();
    assert_eq!(aces.len(), 2);
    assert_eq!(aces[0].ace_type, 0);
    assert_eq!(aces[0].flags, 3);
    assert_eq!(aces[0].access_mask, 0x0001_0000);
    assert_eq!(aces[0].sid_authority, vec![0, 0, 0, 0, 0, 5]);
    assert_eq!(aces[0].sid_subs, vec![0x20]);
    assert_eq!(aces[1].ace_type, 1);
    assert_eq!(aces[1].access_mask, 0xFF);
    assert_eq!(aces[1].sid_authority, vec![0, 0, 0, 0, 0, 1]);
    assert!(aces[1].sid_subs.is_empty());

    assert_eq!(parse_security_descriptor(&[1], 15).unwrap_err(), e(SyscallError::Inval));
    assert!(parse_security_descriptor(&[1, 0], 15).unwrap().is_empty());
    assert_eq!(parse_security_descriptor(&sd[..sd.len() - 1], 15).unwrap_err(), e(SyscallError::Inval));
    assert_eq!(parse_security_descriptor(&sd, 0).unwrap_err(), e(SyscallError::Inval));
}

#[test]
fn names_and_paths() {
    assert_eq!(short_name_check("a"), Ok(()));
    assert_eq!(short_name_check(""), Err(e(SyscallError::Inval)));
    assert_eq!(short_name_check(&"x".repeat(31)), Ok(()));
    assert_eq!(short_name_check(&"x".repeat(32)), Err(e(SyscallError::Inval)));
    assert_eq!(short_name_check(&"é".repeat(16)), Err(e(SyscallError::Inval)));
    assert_eq!(fs_object_path("\\Global\\FileSystem\\C:\\a.txt"), Ok("C:\\a.txt".to_string()));
    assert_eq!(fs_object_path("\\Global\\FileSystem\\"), Err(e(SyscallError::Inval)));
    assert_eq!(fs_object_path("\\Device\\x"), Err(e(SyscallError::Inval)));
    assert_eq!(fs_object_name("C:\\b"), "\\Global\\FileSystem\\C:\\b");
    assert!(contains_char("C:\\x", ':'));
    assert!(!contains_char("\\x", ':'));
    assert_eq!(path_drive_index("c:\\x"), 2);
    assert_eq!(path_drive_index("D:"), 3);
    assert_eq!(layout_name_bytes(b"de-DE\0xx"), b"de-DE".to_vec());
    assert_eq!(layout_name_bytes(&[b'a'; 40]), vec![b'a'; 32]);
    assert_eq!(until_nul(b"abc"), b"abc".to_vec());
}

#[test]
fn process_and_thread_records() {
    let ts = [
        ThreadSample { tid: 1, pid: 9, priority: 0, state: ThreadRunState::Running },
        ThreadSample { tid: 4, pid: 7, priority: 3, state: ThreadRunState::Blocked },
        ThreadSample { tid: 5, pid: 7, priority: 1, state: ThreadRunState::Ready },
    ];
    let p = process_info(7, Some((1, 2)), &ts);
    assert_eq!((p.pid, p.parent_pid, p.priority, p.thread_count, p.state), (7, 1, 3, 2, 0));
    let none = process_info(8, Some((1, 0)), &ts);
    assert_eq!((none.priority, none.state), (2, 3));
    let gone = process_info(7, None, &ts);
    assert_eq!((gone.pid, gone.parent_pid, gone.priority, gone.thread_count, gone.state), (7, 0, 0, 0, 0));
    let running = process_info(9, Some((0, 1)), &ts);
    assert_eq!(running.state, 1);
    let t = thread_info(7, &ts);
    assert_eq!((t.tid, t.pid, t.state, t.priority), (4, 7, 2, 3));
    let t0 = thread_info(99, &ts);
    assert_eq!((t0.tid, t0.pid, t0.state, t0.priority), (0, 99, 0, 0));
    assert_eq!(state_code(ThreadRunState::Terminated), 3);
}

#[test]
fn basic_name_fields() {
    assert_eq!(std_handle_name(HandleKind::Stdin), b"STDIN".to_vec());
    assert_eq!(std_handle_name(HandleKind::Stdout), b"STDOUT".to_vec());
    assert_eq!(std_handle_name(HandleKind::Stderr), b"STDERR".to_vec());
    assert_eq!(std_handle_name(HandleKind::File), b"HANDLE".to_vec());
    let f = name_field(b"STDIN");
    assert_eq!(f.len(), 32);
    assert_eq!(&f[..5], b"STDIN");
    assert!(f[5..].iter().all(|&b| b == 0));
    let long = name_field(&[b'q'; 40]);
    assert_eq!(&long[..31], &[b'q'; 31][..]);
    assert_eq!(long[31], 0);
    assert_eq!(&name_field(b"ab\0cd")[..3], b"ab\0");
    assert_eq!(name_copy_len(10, 100), 10);
    assert_eq!(name_copy_len(10, 5), 4);
    assert_eq!(name_copy_len(1000, 1000), 255);
}

#[test]
fn create_requests() {
    assert_eq!(decode_create("", 1, 0, true, true), Err(e(SyscallError::Inval)));
    assert_eq!(decode_create("x", 1, 0, true, true), Err(e(SyscallError::Inval)));
    assert_eq!(
        decode_create("\\p", 1, 0x00FF_0203, true, true),
        Ok(CreateRequest::Process { stdin: Some(3), stdout: Some(2), stderr: None })
    );
    assert_eq!(decode_create("\\p", 4, 0, false, true), Err(e(SyscallError::Fault)));
    assert_eq!(decode_create("\\p", 4, 0, true, true), Ok(CreateRequest::Pipe));
    assert_eq!(
        decode_create("\\s", 14, 0x0005_0001, true, true),
        Ok(CreateRequest::Semaphore { initial: 1, max: 5 })
    );
    assert_eq!(
        decode_create("\\t", 15, 0x8000_03E8, true, true),
        Ok(CreateRequest::Timer { period_ms: 1000, periodic: true })
    );
    assert_eq!(decode_create("\\t", 15, 0, true, true), Err(e(SyscallError::Inval)));
    assert_eq!(decode_create("\\t", 15, 3_600_001, true, true), Err(e(SyscallError::Inval)));
    assert_eq!(
        decode_create("\\x", 17, (3u64 << 32) | 0x1000, true, true),
        Ok(CreateRequest::Section { size: 0x1000, prot: 3 })
    );
    assert_eq!(decode_create("\\x", 17, (4u64 << 32) | 0x1000, true, true), Err(e(SyscallError::Inval)));
    assert_eq!(decode_create("\\x", 17, (1u64 << 32) | 0x10_0001, true, true), Err(e(SyscallError::Inval)));
    assert_eq!(
        decode_create("\\n", 18, (80 << 8) | 1, true, true),
        Ok(CreateRequest::Socket { kind: SocketKind::Tcp, port: 80 })
    );
    assert_eq!(decode_create("\\n", 18, 1, true, false), Err(e(SyscallError::NoSys)));
    assert_eq!(decode_create("\\n", 18, 4, true, true), Err(e(SyscallError::Inval)));
    assert_eq!(decode_create("\\th", 16, 0x40_1000, true, true), Ok(CreateRequest::Thread { entry: 0x40_1000 }));
    assert_eq!(decode_create("\\d", 11, 0, true, true), Ok(CreateRequest::Directory));
    assert_eq!(decode_create("\\d", 3, 0, true, true), Err(e(SyscallError::Inval)));
    assert_eq!(thread_stack_top(0x40_0000, 1), 0x40_0000 + 0x2_0000 + 0x2_0000 - 0x1000);
    assert_eq!(image_size_check(3), Err(e(SyscallError::NoEnt)));
    assert_eq!(image_size_check(4), Ok(()));
    assert_eq!(numbered_name("\\Ob\\Thread\\", 17), "\\Ob\\Thread\\17");
}

#[test]
fn wait_decisions() {
    assert_eq!(wait_args_check(0, 0x1000, true, 0), Err(e(SyscallError::Inval)));
    assert_eq!(wait_args_check(1, 0x1000, false, 0), Err(e(SyscallError::Fault)));
    assert_eq!(wait_args_check(2, 0x1000, true, 0), Err(e(SyscallError::NoSys)));
    assert_eq!(wait_args_check(1, 0x1000, true, 2), Err(e(SyscallError::Inval)));
    assert_eq!(wait_args_check(1, 0x1000, true, 1), Ok(()));
    assert_eq!(wait_plan(WaitTarget::Process { pid: 5, alive: true }), WaitPlan::StartChildAndBlock { pid: 5 });
    assert_eq!(wait_plan(WaitTarget::Process { pid: 5, alive: false }), WaitPlan::ReapExited { pid: 5 });
    assert_eq!(
        wait_plan(WaitTarget::Process { pid: 0, alive: true }),
        WaitPlan::Block { reason: WaitReason::ChildExit { pid: 0 } }
    );
    assert_eq!(wait_plan(WaitTarget::Pipe { id: 3, readable: true }), WaitPlan::Signalled);
    assert_eq!(
        wait_plan(WaitTarget::Pipe { id: 3, readable: false }),
        WaitPlan::Block { reason: WaitReason::PipeRead { pipe_id: 3 } }
    );
    assert_eq!(wait_plan(WaitTarget::Semaphore { id: 2, acquired: true }), WaitPlan::Signalled);
    assert_eq!(wait_plan(WaitTarget::Other), WaitPlan::Unsupported);
    assert_eq!(enum_args_check(0, 1, true, true), Err(e(SyscallError::Inval)));
    assert_eq!(enum_args_check(1, 1, false, true), Err(e(SyscallError::Fault)));
    assert_eq!(enum_args_check(1, 1, true, false), Err(e(SyscallError::BadF)));
    assert_eq!(enum_array_size(56, 10), 560);
    assert_eq!(enum_array_size(56, u64::MAX), u64::MAX);
    assert!(enum_uses_volume(true, Some("\\Global\\FileSystem\\C:")));
    assert!(enum_uses_volume(true, Some("dir/3")));
    assert!(!enum_uses_volume(false, Some("dir/3")));
    assert!(!enum_uses_volume(true, Some("\\Device")));
    assert!(!enum_uses_volume(true, None));
}

#[test]
fn open_and_destroy() {
    assert_eq!(open_path_check(0, Some("x")), Err(e(SyscallError::Inval)));
    assert_eq!(open_path_check(1, None), Err(e(SyscallError::Fault)));
    assert_eq!(open_path_check(1, Some("")), Err(e(SyscallError::NoEnt)));
    assert_eq!(open_path_check(1, Some("\\Device")), Ok(()));
    let p = destroy_plan(DestroyKind::Directory, "\\Global\\FileSystem\\C:\\Temp");
    assert_eq!(p.remove_dir, Some("C:\\Temp".to_string()));
    assert!(p.unload_driver.is_none());
    assert!(p.remove_from_namespace);
    let d = destroy_plan(DestroyKind::Driver, "ahci\0");
    assert_eq!(d.unload_driver, Some("ahci".to_string()));
    assert!(d.remove_dir.is_none());
    assert!(!d.remove_from_namespace);
    let o = destroy_plan(DestroyKind::Other, "\\Global\\FileSystem\\f");
    assert!(o.remove_dir.is_none() && o.unload_driver.is_none() && o.remove_from_namespace);
    assert_eq!(resolve_handle_drive(false, Some(true), Some(2)), Err(e(SyscallError::BadF)));
    assert_eq!(resolve_handle_drive(true, None, Some(2)), Err(e(SyscallError::BadF)));
    assert_eq!(resolve_handle_drive(true, Some(false), Some(2)), Err(e(SyscallError::Inval)));
    assert_eq!(resolve_handle_drive(true, Some(true), None), Err(e(SyscallError::Inval)));
    assert_eq!(resolve_handle_drive(true, Some(true), Some(2)), Ok(2));
}

fn drive(fs: &str, label: &str, sectors: u64) -> Option<DriveSummary> {
    Some(DriveSummary { fs_type: fs.as_bytes().to_vec(), label: label.as_bytes().to_vec(), total_sectors: sectors })
}

#[test]
fn drives_query_records() {
    let mut drives: Vec<Option<DriveSummary>> = (0..26).map(|_| None).collect();
    drives[2] = drive("NeoFS", "SYSTEM", 131_072);
    drives[10] = drive("kdrive", "", 0);
    drives[25] = drive("FAT32-WITH-A-LONG-NAME", "A-VERY-LONG-VOLUME-LABEL-OVER-31-BYTES", 7);
    assert_eq!(DRIVE_INFO_SIZE, 64);

    let all = drive_records(&drives, 4096);
    assert_eq!(all.len(), 3);
    assert_eq!(all[0].letter, b'C');
    assert_eq!(all[0].present, 1);
    assert_eq!(&all[0].fs_type[..6], b"NeoFS\0");
    assert_eq!(&all[0].label[..7], b"SYSTEM\0");
    assert_eq!(all[0].total_sectors, 131_072);
    assert_eq!(all[1].letter, b'K');
    assert_eq!(all[2].letter, b'Z');
    // Names are cut to 15 and 31 bytes, leaving a NUL.
    assert_eq!(&all[2].fs_type[..15], b"FAT32-WITH-A-LO");
    assert_eq!(all[2].fs_type[15], 0);
    assert_eq!(&all[2].label[..31], &b"A-VERY-LONG-VOLUME-LABEL-OVER-31-BYTES"[..31]);
    assert_eq!(all[2].label[31], 0);

    // Only whole records fit.
    let two = drive_records(&drives, 2 * 64 + 63);
    assert_eq!(two.len(), 2);
    assert_eq!(two[1].letter, b'K');
    assert_eq!(drive_records(&drives, 63).len(), 0);
    // Entries past Z are not drives.
    let mut more: Vec<Option<DriveSummary>> = (0..28).map(|_| None).collect();
    more[27] = drive("x", "y", 1);
    assert_eq!(drive_records(&more, 4096).len(), 0);
}
