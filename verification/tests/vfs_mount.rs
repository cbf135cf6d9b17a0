use neodos::syscall::ObError;
use neodos::vfs::mount::{
    vfs_mount_filesystem, vfs_unmount_filesystem, vfs_get_mount, vfs_mount, vfs_unmount, FilesystemType, MountManager,
    MAX_MOUNTS,
};

#[test]
fn vfs_mount_create_device_object() {
    let mut mgr = MountManager::new();
    let r = mgr.mount("\\Device\\Harddisk0\\Partition1", 'C', FilesystemType::NeoDosFs, Ok(7));
    assert!(r.is_ok());
    assert_eq!(mgr.count(), 1);
    let _ = mgr.unmount(0);
}

#[test]
fn vfs_mount_dosdevices_symlink() {
    let mut mgr = MountManager::new();
    mgr.mount("\\Device\\Harddisk0\\Partition1", 'C', FilesystemType::NeoDosFs, Ok(7)).unwrap();
    let mount = mgr.get(0).unwrap();
    assert_eq!(mount.fs_type.to_str(), "NEODOSFS");
    assert!(!mount.volume_path.is_empty());
    let _ = mgr.unmount(0);
}

#[test]
fn vfs_mount_multiple_filesystems() {
    let mut mgr = MountManager::new();
    mgr.mount("\\Device\\Harddisk0\\Partition1", 'C', FilesystemType::NeoDosFs, Ok(1)).unwrap();
    mgr.mount("\\Device\\Harddisk0\\Partition0", 'A', FilesystemType::Fat32, Ok(2)).unwrap();
    assert_eq!(mgr.count(), 2);
    let fs0 = mgr.find_by_volume("C:").unwrap();
    assert_eq!(fs0.fs_type.to_str(), "NEODOSFS");
    let fs1 = mgr.find_by_volume("A:").unwrap();
    assert_eq!(fs1.fs_type.to_str(), "FAT32");
    let _ = mgr.unmount(0);
    let _ = mgr.unmount(0);
}

#[test]
fn vfs_mount_unmount() {
    let mut mgr = MountManager::new();
    mgr.mount("\\Device\\Test", 'X', FilesystemType::Fat32, Ok(3)).unwrap();
    assert_eq!(mgr.count(), 1);
    assert!(mgr.unmount(0));
    assert_eq!(mgr.count(), 0);
}

#[test]
fn vfs_path_to_mount() {
    let mut mgr = MountManager::new();
    mgr.mount("\\Device\\Harddisk0\\Partition1", 'C', FilesystemType::NeoDosFs, Ok(1)).unwrap();
    let r = mgr.find_by_volume("C:");
    assert!(r.is_some());
    let _ = mgr.unmount(0);
}

#[test]
fn vfs_mount_dual_sync() {
    let mut mgr = MountManager::new();
    mgr.mount("\\Device\\TestVol", 'X', FilesystemType::NeoDosFs, Ok(4)).unwrap();
    assert_eq!(mgr.count(), 1);

    let by_letter = mgr.find_by_letter('X');
    assert!(by_letter.is_some());
    assert_eq!(by_letter.unwrap().name, "X:");

    let by_volume = mgr.find_by_volume("X:");
    assert!(by_volume.is_some());

    let _ = mgr.unmount(0);
    assert_eq!(mgr.count(), 0);
    assert!(mgr.find_by_letter('X').is_none());
}

#[test]
fn vfs_mount_unmount_removes_both() {
    let mut mgr = MountManager::new();
    mgr.mount("\\Device\\TestVol", 'Y', FilesystemType::Fat32, Ok(5)).unwrap();
    assert_eq!(mgr.count(), 1);

    let r = mgr.unmount_by_letter('Y');
    assert!(r);
    assert_eq!(mgr.count(), 0);
    assert!(mgr.find_by_letter('Y').is_none());
    assert!(mgr.find_by_volume("Y:").is_none());

    let r2 = mgr.unmount_by_letter('Y');
    assert!(!r2);
}

#[test]
fn mount_records_names_and_paths() {
    let mut mgr = MountManager::new();
    let idx = mgr.mount("\\Device\\Harddisk0\\Partition1", 'c', FilesystemType::Fat32, Ok(42)).unwrap();
    assert_eq!(idx, 0);
    let m = mgr.get(0).unwrap();
    assert_eq!(m.name, "C:");
    assert_eq!(m.volume_path, "\\Device\\C:");
    assert_eq!(m.device_path, "\\Device\\Harddisk0\\Partition1");
    assert_eq!(m.obj_id, Some(42));
    assert_eq!(m.fs_type.to_str(), "FAT32");
    assert!(mgr.find_by_letter('c').is_some());
}

#[test]
fn mount_fails_when_object_creation_fails() {
    let mut mgr = MountManager::new();
    let r = mgr.mount("\\Device\\X", 'D', FilesystemType::Fat32, Err(ObError::TableFull));
    assert_eq!(r, Err("MountManager: ob_create_object failed"));
    assert_eq!(mgr.count(), 0);
}

#[test]
fn mount_table_is_bounded() {
    let mut mgr = MountManager::new();
    for i in 0..MAX_MOUNTS {
        let r = mgr.mount("\\Device\\D", 'E', FilesystemType::Fat32, Ok(i as u64));
        assert_eq!(r, Ok(i));
    }
    let r = mgr.mount("\\Device\\D", 'F', FilesystemType::Fat32, Ok(99));
    assert_eq!(r, Err("MountManager: max mounts reached"));
    assert_eq!(mgr.count(), MAX_MOUNTS);
}

#[test]
fn unmount_out_of_range_is_refused() {
    let mut mgr = MountManager::new();
    assert!(!mgr.unmount(0));
    mgr.mount("\\Device\\A", 'A', FilesystemType::Fat32, Ok(1)).unwrap();
    assert!(!mgr.unmount(1));
    assert_eq!(mgr.count(), 1);
}

#[test]
fn find_by_letter_after_unmount_finds_nothing() {
    let mut mgr = MountManager::new();
    mgr.mount("\\Device\\A", 'Q', FilesystemType::NeoDosFs, Ok(1)).unwrap();
    assert!(mgr.find_by_letter('Q').is_some());
    assert!(mgr.unmount_by_letter('q'));
    assert!(mgr.find_by_letter('Q').is_none());
}

#[test]
fn shared_table_functions() {
    let mut mgr = MountManager::new();
    assert_eq!(vfs_mount(&mut mgr, "\\Device\\Hd0", 'C', FilesystemType::NeoDosFs, Ok(9)), Ok(0));
    let m = vfs_get_mount(&mgr, 0).unwrap();
    assert_eq!(m.name, "C:");
    assert!(vfs_get_mount(&mgr, 1).is_none());
    let (i, hit) = neodos::vfs::mount::vfs_path_to_mount(&mgr, "C:\\System\\boot.cfg").unwrap();
    assert_eq!(i, 0);
    assert_eq!(hit.name, "C:");
    let (i2, _) = neodos::vfs::mount::vfs_path_to_mount(&mgr, "\\Device\\C:\\x").unwrap();
    assert_eq!(i2, 0);
    assert!(neodos::vfs::mount::vfs_path_to_mount(&mgr, "D:\\x").is_none());
    assert!(vfs_unmount(&mut mgr, 0));
    assert!(!vfs_unmount(&mut mgr, 0));
}

#[test]
fn iter_walks_mounts_in_order() {
    let mut mgr = MountManager::new();
    mgr.mount("\\Device\\A", 'A', FilesystemType::Fat32, Ok(1)).unwrap();
    mgr.mount("\\Device\\B", 'B', FilesystemType::NeoDosFs, Ok(2)).unwrap();
    let names: Vec<String> = mgr.iter().map(|m| m.name.clone()).collect();
    assert_eq!(names, vec!["A:".to_string(), "B:".to_string()]);
}

#[test]
fn mount_filesystem_in_both_tables() {
    let mut mgr = MountManager::new();
    let o = vfs_mount_filesystem(&mut mgr, "\\Device\\Hd0", 'c', FilesystemType::NeoDosFs, None, Ok(()), Ok(1));
    assert_eq!(o.result, Err("invalid drive"));
    assert!(!o.undo_vfs_mount);
    let o = vfs_mount_filesystem(&mut mgr, "\\Device\\Hd0", 'c', FilesystemType::NeoDosFs, Some(true), Ok(()), Ok(1));
    assert_eq!(o.result, Err("drive already mounted"));
    let o = vfs_mount_filesystem(&mut mgr, "\\Device\\Hd0", 'c', FilesystemType::NeoDosFs, Some(false), Err(()), Ok(1));
    assert_eq!(o.result, Err("Vfs::mount failed"));
    assert!(!o.undo_vfs_mount);
    let o = vfs_mount_filesystem(&mut mgr, "\\Device\\Hd0", 'c', FilesystemType::NeoDosFs, Some(false), Ok(()), Ok(1));
    assert_eq!(o.result, Ok(0));
    assert!(!o.undo_vfs_mount);
    assert_eq!(mgr.get(0).unwrap().name, "C:");
    let o = vfs_mount_filesystem(&mut mgr, "\\Device\\Hd1", 'C', FilesystemType::Fat32, Some(false), Ok(()), Ok(2));
    assert_eq!(o.result, Err("MountManager: drive already mounted"));
    assert!(o.undo_vfs_mount);
    let o = vfs_mount_filesystem(&mut mgr, "\\Device\\Hd1", 'D', FilesystemType::Fat32, Some(false), Ok(()), Err(ObError::OutOfMemory));
    assert_eq!(o.result, Err("MountManager: ob_create_object failed"));
    assert!(o.undo_vfs_mount);
    assert_eq!(mgr.count(), 1);

    assert_eq!(vfs_unmount_filesystem(&mut mgr, 'c', None, Ok(())), Err("invalid drive"));
    assert_eq!(vfs_unmount_filesystem(&mut mgr, 'c', Some(false), Ok(())), Err("drive not mounted in VFS"));
    assert_eq!(vfs_unmount_filesystem(&mut mgr, 'c', Some(true), Err(())), Err("Vfs::unmount failed"));
    assert_eq!(vfs_unmount_filesystem(&mut mgr, 'd', Some(true), Ok(())), Err("drive not found in MountManager"));
    assert_eq!(vfs_unmount_filesystem(&mut mgr, 'c', Some(true), Ok(())), Ok(()));
    assert_eq!(mgr.count(), 0);
}
