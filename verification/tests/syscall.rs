use neodos::syscall::path::{drive_index, normalize_dos_path, resolve_chdir_target};
use neodos::syscall::permission::{SyscallPermission, CAP_ADMIN};
use neodos::syscall::ssdt::{
    assigned_syscalls, check_syscall_permission, handler_for, permission_for, syscall_dispatch,
    syscall_permissions, syscall_table, validate_abi, SyscallHandler,
};
use neodos::syscall::table::Registers;
use neodos::syscall::util::{
    byte_readability, copy_user_string, is_page_present, is_user_ptr_valid, user_cstr, MmapRange,
    Readability,
    UserAddressSpace, NXL_BASE,
};
use neodos::syscall::{err_to_u64, ob_err_to_syscall, ObError, SyscallError, SyscallNum};

#[test]
fn syscall_table_sparse_dispatch() {
    let table = syscall_table();
    assert!(table[0].is_some());
    assert!(table[99].is_none());
    assert!(table[255].is_none());
}

#[test]
fn syscall_permission_admin_check() {
    let result = check_syscall_permission(58, false);
    assert!(result.is_err());
    assert_eq!(result.unwrap_err(), err_to_u64(SyscallError::Perm));

    let result = check_syscall_permission(58, true);
    assert!(result.is_ok());

    let result = check_syscall_permission(1, false);
    assert!(result.is_ok());
}

#[test]
fn syscall_enosys_unknown() {
    let result = syscall_dispatch(99, 0, 0, 0, 0, 0, false);
    assert_eq!(result, Err(err_to_u64(SyscallError::NoSys)));
    let result = syscall_dispatch(255, 0, 0, 0, 0, 0, false);
    assert_eq!(result, Err(err_to_u64(SyscallError::NoSys)));
}

#[test]
fn ob_err_to_syscall_mapping() {
    let mappings = [
        (ObError::NotFound, SyscallError::NoEnt),
        (ObError::AlreadyExists, SyscallError::Exist),
        (ObError::InvalidParam, SyscallError::Inval),
        (ObError::RefCountHeld, SyscallError::Busy),
        (ObError::OutOfMemory, SyscallError::NoMem),
        (ObError::AccessDenied, SyscallError::Acces),
        (ObError::NotSupported, SyscallError::NoSys),
        (ObError::InvalidType, SyscallError::Inval),
        (ObError::TableFull, SyscallError::NoMem),
    ];
    for (ob_err, expected_syscall) in &mappings {
        let result = ob_err_to_syscall(*ob_err);
        assert_eq!(result.code(), expected_syscall.code());
        assert_eq!(result, *expected_syscall);
    }
    assert_eq!(ob_err_to_syscall(ObError::Success), SyscallError::Inval);
}

#[test]
fn permission_table_entries() {
    let perms = syscall_permissions();
    assert_eq!(perms.len(), 256);
    assert_eq!(perms[0].ring_min, 3);
    assert!(perms[58].admin);
    assert_eq!(perms[58].caps, 0);
    assert_eq!(CAP_ADMIN, 1);
    assert_eq!(perms[99], SyscallPermission::free());
    assert_eq!(permission_for(1), SyscallPermission::user());
    for n in [35u64, 47, 48, 58, 59] {
        assert_eq!(permission_for(n), SyscallPermission::admin());
    }
}

#[test]
fn error_codes_are_negative_u64() {
    let all = [
        SyscallError::Inval,
        SyscallError::NoEnt,
        SyscallError::NoMem,
        SyscallError::Acces,
        SyscallError::BadF,
        SyscallError::Fault,
        SyscallError::NoSys,
        SyscallError::Again,
        SyscallError::Pipe,
        SyscallError::Exist,
        SyscallError::NotDir,
        SyscallError::IsDir,
        SyscallError::Io,
        SyscallError::NoDev,
        SyscallError::Busy,
        SyscallError::Perm,
    ];
    for (i, e) in all.iter().enumerate() {
        assert_eq!(e.code(), i as i64 + 1);
        assert_eq!(err_to_u64(*e) as i64, -(i as i64 + 1));
        assert!((err_to_u64(*e) as i64) < 0);
    }
    assert_eq!(err_to_u64(SyscallError::Inval), u64::MAX);
}

#[test]
fn syscall_numbers_roundtrip() {
    for n in 0u64..256 {
        if let Some(s) = SyscallNum::from_u64(n) {
            assert_eq!(s.number(), n);
        }
    }
    assert_eq!(SyscallNum::from_u64(48), Some(SyscallNum::ObSnapshot));
    assert_eq!(SyscallNum::from_u64(77), None);
    assert_eq!(SyscallNum::from_u64(5), None);
    assert_eq!(SyscallNum::ObSnapshot.number(), 48);
    assert_eq!(SyscallNum::from_u64(59), Some(SyscallNum::CmUnloadHive));
    assert_eq!(SyscallNum::from_u64(60), None);
}

#[test]
fn assigned_syscalls_have_handlers() {
    let table = syscall_table();
    let assigned = assigned_syscalls();
    assert_eq!(assigned.len(), 35);
    assert_eq!(validate_abi(&table), Ok(35));
    for &n in &assigned {
        assert!(table[n as usize].is_some());
    }
    assert_eq!(handler_for(36), Some(SyscallHandler::IcmpPing));
    let mut broken = table.clone();
    broken[41] = None;
    broken[50] = None;
    assert_eq!(validate_abi(&broken), Err(41));
}

#[test]
fn dispatch_hands_over_registers() {
    let r = syscall_dispatch(42, 1, 2, 3, 4, 5, false).unwrap();
    assert_eq!(r.0, SyscallHandler::ObQueryInfo);
    assert_eq!(r.1, Registers::new(42, 1, 2, 3, 4, 5));
    assert_eq!(syscall_dispatch(47, 0, 0, 0, 0, 0, false), Err(err_to_u64(SyscallError::Perm)));
    assert!(syscall_dispatch(47, 0, 0, 0, 0, 0, true).is_ok());
    assert_eq!(syscall_dispatch(256, 0, 0, 0, 0, 0, true), Err(err_to_u64(SyscallError::NoSys)));
    assert_eq!(syscall_dispatch(5, 0, 0, 0, 0, 0, true), Err(err_to_u64(SyscallError::NoSys)));
}

#[test]
fn normalize_paths() {
    assert_eq!(normalize_dos_path(b"c:\\foo\\..\\bar/./baz"), b"C:\\bar\\baz".to_vec());
    assert_eq!(normalize_dos_path(b""), b"\\".to_vec());
    assert_eq!(normalize_dos_path(b"a\\b\\.."), b"\\a".to_vec());
    assert_eq!(normalize_dos_path(b"C:"), b"C:\\".to_vec());
    assert_eq!(normalize_dos_path(b"\\..\\..\\x"), b"\\x".to_vec());
    assert_eq!(normalize_dos_path(b"//a//b//"), b"\\a\\b".to_vec());
}

#[test]
fn chdir_targets() {
    assert_eq!(resolve_chdir_target(b"..", 2, b"\\System\\Bin"), Ok((2, b"\\System".to_vec())));
    assert_eq!(resolve_chdir_target(b"D:\\Games", 2, b"\\"), Ok((3, b"\\Games".to_vec())));
    assert_eq!(resolve_chdir_target(b"d:", 2, b"\\x"), Ok((3, b"\\".to_vec())));
    assert_eq!(resolve_chdir_target(b"Docs", 2, b"\\Users"), Ok((2, b"\\Users\\Docs".to_vec())));
    assert_eq!(resolve_chdir_target(b"/tmp", 2, b"\\Users"), Ok((2, b"\\tmp".to_vec())));
    assert_eq!(resolve_chdir_target(b"1:\\x", 2, b"\\"), Err(SyscallError::NoEnt));
    assert_eq!(drive_index(b'A'), Some(0));
    assert_eq!(drive_index(b'Z'), Some(25));
    assert_eq!(drive_index(b'a'), None);
}

fn space() -> UserAddressSpace {
    UserAddressSpace {
        user_base: 0x40_0000,
        user_limit: 0x80_0000,
        heap_base: 0x4000_0000,
        heap_break: 0x4000_2000,
        mmap_regions: vec![MmapRange { base: 0x5000_0000, len: 0x3000 }],
    }
}

#[test]
fn user_pointer_windows() {
    let s = space();
    assert!(is_user_ptr_valid(0x40_0000, 0x100, &s));
    assert!(is_user_ptr_valid(0x7F_FF00, 0x100, &s));
    assert!(!is_user_ptr_valid(0x7F_FF00, 0x101, &s));
    assert!(is_user_ptr_valid(NXL_BASE, 16, &s));
    assert!(is_user_ptr_valid(0x4000_1000, 0x1000, &s));
    assert!(!is_user_ptr_valid(0x4000_1000, 0x1001, &s));
    assert!(is_user_ptr_valid(0x5000_0000, 0x3000, &s));
    assert!(!is_user_ptr_valid(0x5000_0000, 0x3001, &s));
    assert!(!is_user_ptr_valid(0x10, 1, &s));
    assert!(!is_user_ptr_valid(u64::MAX, 1, &s));
}

#[test]
fn page_presence_follows_the_pte_present_bit() {
    assert!(is_page_present(0x5000_0000, Some(0x3), 0x40_0000, 0x80_0000));
    assert!(is_page_present(0x5000_0000, Some(0x8000_0000_0000_0001), 0x40_0000, 0x80_0000));
    assert!(!is_page_present(0x5000_0000, Some(0x2), 0x40_0000, 0x80_0000));
    assert!(!is_page_present(0x5000_0000, Some(0), 0x40_0000, 0x80_0000));
    assert!(is_page_present(0x40_1000, None, 0x40_0000, 0x80_0000));
    assert!(!is_page_present(0x80_0000, None, 0x40_0000, 0x80_0000));
}

#[test]
fn byte_readability_by_window() {
    let s = space();
    assert_eq!(byte_readability(0x40_0000, &s), Readability::Mapped);
    assert_eq!(byte_readability(NXL_BASE + 5, &s), Readability::IfPresent);
    assert_eq!(byte_readability(0x4000_0000, &s), Readability::IfPresent);
    assert_eq!(byte_readability(0x4000_2000, &s), Readability::Unmapped);
    assert_eq!(byte_readability(0x5000_2FFF, &s), Readability::IfPresent);
    assert_eq!(byte_readability(0x5000_3000, &s), Readability::Unmapped);
}

#[test]
fn user_strings() {
    assert_eq!(user_cstr(b"hello\0junk"), Some(b"hello".to_vec()));
    assert_eq!(user_cstr(b"\0"), Some(vec![]));
    assert_eq!(user_cstr(b"abc"), None);
    assert_eq!(user_cstr(b""), None);
    let long = vec![b'x'; 300];
    assert_eq!(user_cstr(&long), Some(vec![b'x'; 255]));
    let exact = vec![b'y'; 255];
    assert_eq!(user_cstr(&exact), Some(vec![b'y'; 255]));
    let short = vec![b'z'; 254];
    assert_eq!(user_cstr(&short), None);
}

#[test]
fn user_strings_are_utf8_text() {
    assert_eq!(copy_user_string(0x1000, b"C:\\DOS\0"), Ok("C:\\DOS".to_string()));
    assert_eq!(copy_user_string(0x1000, "d\u{e9}j\u{e0}\0".as_bytes()), Ok("d\u{e9}j\u{e0}".to_string()));
    assert_eq!(copy_user_string(0, b"abc\0"), Err(()));
    // Not UTF-8.
    assert_eq!(copy_user_string(0x1000, &[0x41, 0xFF, 0x42, 0]), Err(()));
    // An unreadable byte comes before the NUL.
    assert_eq!(copy_user_string(0x1000, b"abc"), Err(()));
    // 255 bytes are kept, the rest dropped.
    let long = vec![b'x'; 300];
    assert_eq!(copy_user_string(0x1000, &long), Ok("x".repeat(255)));
}

#[test]
fn normalizing_twice_changes_nothing() {
    for p in ["c:/dos/../bin/./x", "\\a\\\\b\\..\\c", "", "..", "z:", "\\:\\foo", ":\\x", "a:b/c:"] {
        let once = normalize_dos_path(p.as_bytes());
        assert_eq!(normalize_dos_path(&once), once, "{}", p);
    }
    // A first piece starting with ':' reads as a drive prefix the second time.
    assert_eq!(normalize_dos_path(b":"), b"\\:".to_vec());
    assert_eq!(normalize_dos_path(b"\\:"), b"\\:\\".to_vec());
}
