//! Mount table: each mounted volume is a drive letter bound to a device
//! path and a filesystem type, registered in the object namespace as the
//! MountPoint object `\Device\X:` (with `\DosDevices\X:` linking to it).

use vstd::prelude::*;
use vstd::string::*;
use vstd::std_specs::iter::IteratorSpec;
use crate::syscall::ObError;

verus! {

/// Maximum number of simultaneous mounts.
pub const MAX_MOUNTS: usize = 16;

/// Filesystem of a mounted volume.
#[derive(Debug, Clone, Copy, PartialEq, Eq, Structural)]
pub enum FilesystemType {
    NeoDosFs,
    Fat32,
}

impl FilesystemType {
    pub open spec fn spec_name(self) -> Seq<char> {
        match self {
            FilesystemType::NeoDosFs => "NEODOSFS"@,
            FilesystemType::Fat32 => "FAT32"@,
        }
    }

    pub fn to_str(self) -> (r: &'static str)
        ensures
            r@ == self.spec_name(),
    {
        match self {
            FilesystemType::NeoDosFs => "NEODOSFS",
            FilesystemType::Fat32 => "FAT32",
        }
    }
}

/// One mounted volume.
#[derive(Debug, Clone)]
pub struct MountPoint {
    /// `X:` (drive letter upper-cased).
    pub name: String,
    pub device_path: String,
    /// `\Device\X:`.
    pub volume_path: String,
    pub fs_type: FilesystemType,
    /// The MountPoint object in the object namespace.
    pub obj_id: Option<u64>,
}

/// The value-level contents of a mount point.
pub struct MountView {
    pub name: Seq<char>,
    pub device_path: Seq<char>,
    pub volume_path: Seq<char>,
    pub fs_type: FilesystemType,
    pub obj_id: Option<u64>,
}

impl MountPoint {
    pub open spec fn view(&self) -> MountView {
        MountView {
            name: self.name@,
            device_path: self.device_path@,
            volume_path: self.volume_path@,
            fs_type: self.fs_type,
            obj_id: self.obj_id,
        }
    }

    /// A copy of the mount point.
    pub fn duplicate(&self) -> (r: MountPoint)
        ensures
            r@ == self@,
    {
        MountPoint {
            name: self.name.clone(),
            device_path: self.device_path.clone(),
            volume_path: self.volume_path.clone(),
            fs_type: self.fs_type,
            obj_id: self.obj_id,
        }
    }
}

/// `c` with ASCII lower-case letters mapped to upper case.
pub open spec fn spec_ascii_upper(c: char) -> char {
    if 'a' <= c <= 'z' {
        ((c as u32) - 32) as char
    } else {
        c
    }
}

/// `c` with ASCII lower-case letters mapped to upper case.
pub fn ascii_upper(c: char) -> (r: char)
    ensures
        r == spec_ascii_upper(c),
{
    if 'a' <= c && c <= 'z' {
        let b = (c as u32 - 32) as u8;
        b as char
    } else {
        c
    }
}

/// The one-character string holding `c` (`<char as ToString>::to_string`).
///
/// Trusted: std documents that a `char` displays as itself, so the string
/// is exactly that character.
#[verifier::external_body]
pub(crate) fn char_to_string(c: char) -> (s: String)
    ensures
        s@ == seq![c],
{
    c.to_string()
}

/// The volume name `X:` of a drive letter.
pub open spec fn spec_volume_name(letter: char) -> Seq<char> {
    seq![spec_ascii_upper(letter), ':']
}

/// The volume path `\Device\X:` of a drive letter.
pub open spec fn spec_volume_path(letter: char) -> Seq<char> {
    "\\Device\\"@ + spec_volume_name(letter)
}

/// The volume name `X:` of a drive letter (upper-cased).
pub fn volume_name(letter: char) -> (s: String)
    ensures
        s@ == spec_volume_name(letter),
{
    let mut s = char_to_string(ascii_upper(letter));
    s.append(":");
    proof {
        reveal_strlit(":");
    }
    assert(s@ =~= spec_volume_name(letter));
    s
}

/// Index of the first mount whose name is `name` (`mounts.len()` if none).
pub open spec fn find_name(mounts: Seq<MountView>, name: Seq<char>) -> int
    decreases mounts.len(),
{
    if mounts.len() == 0 {
        0
    } else if mounts[0].name == name {
        0
    } else {
        1 + find_name(mounts.drop_first(), name)
    }
}

proof fn lemma_find_name_at(mounts: Seq<MountView>, name: Seq<char>, i: int)
    requires
        0 <= i <= mounts.len(),
        forall|j: int| 0 <= j < i ==> (#[trigger] mounts[j]).name != name,
        i < mounts.len() ==> mounts[i].name == name,
    ensures
        find_name(mounts, name) == i,
    decreases mounts.len(),
{
    if mounts.len() > 0 && i > 0 {
        assert forall|j: int| 0 <= j < i - 1 implies (#[trigger] mounts.drop_first()[j]).name
            != name by {
            assert(mounts.drop_first()[j] == mounts[j + 1]);
        }
        lemma_find_name_at(mounts.drop_first(), name, i - 1);
    }
}

/// The mount table.
pub struct MountManager {
    mounts: Vec<MountPoint>,
}

impl MountManager {
    /// The mount records, in mount order.
    pub closed spec fn entries(&self) -> Seq<MountPoint> {
        self.mounts@
    }

    /// The mounts, in mount order.
    pub open spec fn view(&self) -> Seq<MountView> {
        Seq::new(self.entries().len(), |i: int| self.entries()[i]@)
    }

    pub closed spec fn wf(&self) -> bool {
        self.mounts@.len() <= MAX_MOUNTS
    }

    /// An empty mount table.
    pub fn new() -> (m: Self)
        ensures
            m.wf(),
            m@ == Seq::<MountView>::empty(),
    {
        let m = MountManager { mounts: Vec::new() };
        assert(m@ =~= Seq::<MountView>::empty());
        m
    }

    /// Mount `device_path` on drive `drive_letter`. `created` is the outcome
    /// of creating the MountPoint object (type MountPoint, named `X:`,
    /// native id = the new mount's index) in the object namespace; the new
    /// mount records its id and is appended to the table. Fails when the
    /// table is full (the object is then not needed) or the object could
    /// not be created.
    pub fn mount(
        &mut self,
        device_path: &str,
        drive_letter: char,
        fs_type: FilesystemType,
        created: Result<u64, ObError>,
    ) -> (r: Result<usize, &'static str>)
        requires
            old(self).wf(),
        ensures
            final(self).wf(),
            old(self)@.len() >= MAX_MOUNTS ==> r == Err::<usize, &'static str>(
                "MountManager: max mounts reached",
            ) && final(self)@ == old(self)@,
            old(self)@.len() < MAX_MOUNTS && created is Err ==> r == Err::<usize, &'static str>(
                "MountManager: ob_create_object failed",
            ) && final(self)@ == old(self)@,
            (old(self)@.len() < MAX_MOUNTS && created is Ok) ==> r == Ok::<
                usize,
                &'static str,
            >(old(self)@.len() as usize) && final(self)@ == old(self)@.push(
                MountView {
                    name: spec_volume_name(drive_letter),
                    device_path: device_path@,
                    volume_path: spec_volume_path(drive_letter),
                    fs_type,
                    obj_id: Some(created->Ok_0),
                },
            ),
    {
        if self.mounts.len() >= MAX_MOUNTS {
            return Err("MountManager: max mounts reached");
        }
        let mount_id = self.mounts.len();
        let obj_id = match created {
            Ok(id) => id,
            Err(_) => {
                return Err("MountManager: ob_create_object failed");
            },
        };
        let name = volume_name(drive_letter);
        let mut volume_path = String::from_str("\\Device\\");
        volume_path.append(name.as_str());
        let mount = MountPoint {
            name,
            device_path: String::from_str(device_path),
            volume_path,
            fs_type,
            obj_id: Some(obj_id),
        };
        let ghost old_view = self@;
        self.mounts.push(mount);
        assert(self@ =~= old_view.push(
            MountView {
                name: spec_volume_name(drive_letter),
                device_path: device_path@,
                volume_path: spec_volume_path(drive_letter),
                fs_type,
                obj_id: Some(obj_id),
            },
        ));
        Ok(mount_id)
    }

    /// Remove the mount at `index` (later mounts move down by one). Returns
    /// `false` when there is no such mount. The caller removes its
    /// namespace entries and destroys its object.
    pub fn unmount(&mut self, index: usize) -> (ok: bool)
        requires
            old(self).wf(),
        ensures
            final(self).wf(),
            ok == (index < old(self)@.len()),
            ok ==> final(self)@ == old(self)@.remove(index as int),
            !ok ==> final(self)@ == old(self)@,
    {
        if index >= self.mounts.len() {
            return false;
        }
        let ghost old_view = self@;
        self.mounts.remove(index);
        assert(self@ =~= old_view.remove(index as int));
        true
    }

    /// The mount at `index`.
    pub fn get(&self, index: usize) -> (r: Option<&MountPoint>)
        ensures
            index < self@.len() ==> (r matches Some(m) && m@ == self@[index as int]),
            index >= self@.len() ==> r is None,
    {
        if index < self.mounts.len() {
            Some(&self.mounts[index])
        } else {
            None
        }
    }

    fn position_by_name(&self, name: &str) -> (i: usize)
        ensures
            i == find_name(self@, name@),
            i <= self@.len(),
    {
        let mut i: usize = 0;
        while i < self.mounts.len()
            invariant
                i <= self@.len(),
                forall|j: int| 0 <= j < i ==> (#[trigger] self@[j]).name != name@,
            decreases self@.len() - i,
        {
            if string_eq_str(&self.mounts[i].name, name) {
                proof {
                    lemma_find_name_at(self@, name@, i as int);
                }
                return i;
            }
            i = i + 1;
        }
        proof {
            lemma_find_name_at(self@, name@, i as int);
        }
        i
    }

    /// The first mount named `volume_name` (`X:`).
    pub fn find_by_volume(&self, volume_name: &str) -> (r: Option<&MountPoint>)
        ensures
            find_name(self@, volume_name@) < self@.len() ==> (r matches Some(m) && m@ == self@[find_name(
                self@,
                volume_name@,
            )]),
            find_name(self@, volume_name@) >= self@.len() ==> r is None,
    {
        let i = self.position_by_name(volume_name);
        if i < self.mounts.len() {
            Some(&self.mounts[i])
        } else {
            None
        }
    }

    /// The first mount of drive `letter` (case-insensitive).
    pub fn find_by_letter(&self, letter: char) -> (r: Option<&MountPoint>)
        ensures
            find_name(self@, spec_volume_name(letter)) < self@.len() ==> (r matches Some(m) && m@
                == self@[find_name(self@, spec_volume_name(letter))]),
            find_name(self@, spec_volume_name(letter)) >= self@.len() ==> r is None,
    {
        let name = volume_name(letter);
        self.find_by_volume(name.as_str())
    }

    /// Unmount the first mount of drive `letter`; `false` if there is none.
    pub fn unmount_by_letter(&mut self, letter: char) -> (ok: bool)
        requires
            old(self).wf(),
        ensures
            final(self).wf(),
            ok == (find_name(old(self)@, spec_volume_name(letter)) < old(self)@.len()),
            ok ==> final(self)@ == old(self)@.remove(find_name(old(self)@, spec_volume_name(letter))),
            !ok ==> final(self)@ == old(self)@,
    {
        let name = volume_name(letter);
        let pos = self.position_by_name(name.as_str());
        if pos < self.mounts.len() {
            self.unmount(pos)
        } else {
            false
        }
    }

    /// Number of mounts.
    pub fn count(&self) -> (n: usize)
        ensures
            n == self@.len(),
    {
        self.mounts.len()
    }

    /// The mounts, in mount order.
    pub fn iter(&self) -> (r: core::slice::Iter<'_, MountPoint>)
        ensures
            r.remaining() == self.entries().as_ref(),
    {
        self.mounts.as_slice().iter()
    }
}

/// Mount through the shared mount table.
pub fn vfs_mount(
    mgr: &mut MountManager,
    device_path: &str,
    drive_letter: char,
    fs_type: FilesystemType,
    created: Result<u64, ObError>,
) -> (r: Result<usize, &'static str>)
    requires
        old(mgr).wf(),
    ensures
        final(mgr).wf(),
        old(mgr)@.len() >= MAX_MOUNTS ==> r == Err::<usize, &'static str>(
            "MountManager: max mounts reached",
        ) && final(mgr)@ == old(mgr)@,
        old(mgr)@.len() < MAX_MOUNTS && created is Err ==> r == Err::<usize, &'static str>(
            "MountManager: ob_create_object failed",
        ) && final(mgr)@ == old(mgr)@,
        (old(mgr)@.len() < MAX_MOUNTS && created is Ok) ==> r == Ok::<usize, &'static str>(
            old(mgr)@.len() as usize,
        ) && final(mgr)@ == old(mgr)@.push(
            MountView {
                name: spec_volume_name(drive_letter),
                device_path: device_path@,
                volume_path: spec_volume_path(drive_letter),
                fs_type,
                obj_id: Some(created->Ok_0),
            },
        ),
{
    mgr.mount(device_path, drive_letter, fs_type, created)
}

/// Unmount by index through the shared mount table.
pub fn vfs_unmount(mgr: &mut MountManager, index: usize) -> (ok: bool)
    requires
        old(mgr).wf(),
    ensures
        final(mgr).wf(),
        ok == (index < old(mgr)@.len()),
        ok ==> final(mgr)@ == old(mgr)@.remove(index as int),
        !ok ==> final(mgr)@ == old(mgr)@,
{
    mgr.unmount(index)
}

/// A copy of the mount at `index`.
pub fn vfs_get_mount(mgr: &MountManager, index: usize) -> (r: Option<MountPoint>)
    ensures
        index < mgr@.len() ==> (r matches Some(m) && m@ == mgr@[index as int]),
        index >= mgr@.len() ==> r is None,
{
    match mgr.get(index) {
        Some(m) => Some(m.duplicate()),
        None => None,
    }
}

/// Whether `p` is a prefix of `s`.
pub open spec fn is_prefix(p: Seq<char>, s: Seq<char>) -> bool {
    p.len() <= s.len() && s.subrange(0, p.len() as int) == p
}

pub(crate) fn starts_with(s: &str, p: &str) -> (r: bool)
    ensures
        r == is_prefix(p@, s@),
{
    let n = s.unicode_len();
    let m = p.unicode_len();
    if m > n {
        return false;
    }
    let mut i: usize = 0;
    while i < m
        invariant
            n == s@.len(),
            m == p@.len(),
            m <= n,
            i <= m,
            forall|j: int| 0 <= j < i ==> s@[j] == p@[j],
        decreases m - i,
    {
        if s.get_char(i) != p.get_char(i) {
            assert(s@.subrange(0, m as int)[i as int] != p@[i as int]);
            return false;
        }
        i = i + 1;
    }
    assert(s@.subrange(0, m as int) =~= p@);
    true
}

/// What mounting a filesystem on both the VFS drive table and the mount
/// table came to: the result, and whether the VFS mount that was made has
/// to be undone.
pub struct MountFsOutcome {
    pub result: Result<usize, &'static str>,
    pub undo_vfs_mount: bool,
}

/// Mounts a filesystem on drive `drive_letter` in both tables. The VFS side
/// is given by what it answered: `drive_slot` is `None` for a letter that
/// names no drive, else whether the drive is taken; `vfs_mount` is the
/// outcome of mounting the filesystem there (made only when the drive was
/// free). The mount table then refuses a drive it already has, and
/// otherwise mounts as `mount` does; when it refuses, the VFS mount is to
/// be undone.
pub fn vfs_mount_filesystem(
    mgr: &mut MountManager,
    device_path: &str,
    drive_letter: char,
    fs_type: FilesystemType,
    drive_slot: Option<bool>,
    vfs_mount: Result<(), ()>,
    created: Result<u64, ObError>,
) -> (o: MountFsOutcome)
    requires
        old(mgr).wf(),
    ensures
        final(mgr).wf(),
        drive_slot is None ==> o.result == Err::<usize, &'static str>("invalid drive")
            && !o.undo_vfs_mount && final(mgr)@ == old(mgr)@,
        drive_slot == Some(true) ==> o.result == Err::<usize, &'static str>("drive already mounted")
            && !o.undo_vfs_mount && final(mgr)@ == old(mgr)@,
        drive_slot == Some(false) && vfs_mount is Err ==> o.result == Err::<usize, &'static str>(
            "Vfs::mount failed",
        ) && !o.undo_vfs_mount && final(mgr)@ == old(mgr)@,
        drive_slot == Some(false) && vfs_mount is Ok && find_name(
            old(mgr)@,
            spec_volume_name(drive_letter),
        ) < old(mgr)@.len() ==> o.result == Err::<usize, &'static str>(
            "MountManager: drive already mounted",
        ) && o.undo_vfs_mount && final(mgr)@ == old(mgr)@,
        drive_slot == Some(false) && vfs_mount is Ok && find_name(
            old(mgr)@,
            spec_volume_name(drive_letter),
        ) >= old(mgr)@.len() ==> {
            &&& o.undo_vfs_mount == o.result is Err
            &&& old(mgr)@.len() >= MAX_MOUNTS ==> o.result == Err::<usize, &'static str>(
                "MountManager: max mounts reached",
            ) && final(mgr)@ == old(mgr)@
            &&& old(mgr)@.len() < MAX_MOUNTS && created is Err ==> o.result == Err::<
                usize,
                &'static str,
            >("MountManager: ob_create_object failed") && final(mgr)@ == old(mgr)@
            &&& (old(mgr)@.len() < MAX_MOUNTS && created is Ok) ==> o.result == Ok::<
                usize,
                &'static str,
            >(old(mgr)@.len() as usize) && final(mgr)@ == old(mgr)@.push(
                MountView {
                    name: spec_volume_name(drive_letter),
                    device_path: device_path@,
                    volume_path: spec_volume_path(drive_letter),
                    fs_type,
                    obj_id: Some(created->Ok_0),
                },
            )
        },
{
    match drive_slot {
        None => {
            return MountFsOutcome { result: Err("invalid drive"), undo_vfs_mount: false };
        },
        Some(true) => {
            return MountFsOutcome { result: Err("drive already mounted"), undo_vfs_mount: false };
        },
        Some(false) => {},
    }
    if vfs_mount.is_err() {
        return MountFsOutcome { result: Err("Vfs::mount failed"), undo_vfs_mount: false };
    }
    let upper = ascii_upper(drive_letter);
    proof {
        assert(spec_volume_name(upper) == spec_volume_name(drive_letter));
        assert(spec_volume_path(upper) == spec_volume_path(drive_letter));
    }
    if mgr.find_by_letter(upper).is_some() {
        return MountFsOutcome {
            result: Err("MountManager: drive already mounted"),
            undo_vfs_mount: true,
        };
    }
    let result = mgr.mount(device_path, upper, fs_type, created);
    let undo = result.is_err();
    MountFsOutcome { result, undo_vfs_mount: undo }
}

/// Unmounts drive `drive_letter` from both tables. The VFS side is given by
/// what it answered: `drive_slot` is `None` for a letter that names no
/// drive, else whether the drive is mounted; `vfs_unmount` is the outcome
/// of unmounting it (tried only when it was mounted). The mount table then
/// drops the drive's first mount.
pub fn vfs_unmount_filesystem(
    mgr: &mut MountManager,
    drive_letter: char,
    drive_slot: Option<bool>,
    vfs_unmount: Result<(), ()>,
) -> (r: Result<(), &'static str>)
    requires
        old(mgr).wf(),
    ensures
        final(mgr).wf(),
        drive_slot is None ==> r == Err::<(), &'static str>("invalid drive") && final(mgr)@ == old(
            mgr,
        )@,
        drive_slot == Some(false) ==> r == Err::<(), &'static str>("drive not mounted in VFS")
            && final(mgr)@ == old(mgr)@,
        drive_slot == Some(true) && vfs_unmount is Err ==> r == Err::<(), &'static str>(
            "Vfs::unmount failed",
        ) && final(mgr)@ == old(mgr)@,
        drive_slot == Some(true) && vfs_unmount is Ok ==> {
            let i = find_name(old(mgr)@, spec_volume_name(drive_letter));
            &&& i < old(mgr)@.len() ==> r == Ok::<(), &'static str>(()) && final(mgr)@ == old(
                mgr,
            )@.remove(i)
            &&& i >= old(mgr)@.len() ==> r == Err::<(), &'static str>(
                "drive not found in MountManager",
            ) && final(mgr)@ == old(mgr)@
        },
{
    match drive_slot {
        None => {
            return Err("invalid drive");
        },
        Some(false) => {
            return Err("drive not mounted in VFS");
        },
        Some(true) => {},
    }
    if vfs_unmount.is_err() {
        return Err("Vfs::unmount failed");
    }
    if !mgr.unmount_by_letter(drive_letter) {
        return Err("drive not found in MountManager");
    }
    Ok(())
}

/// Whether `path` lies on mount `m`: it starts with the volume path or the
/// volume name.
pub open spec fn on_mount(path: Seq<char>, m: MountView) -> bool {
    is_prefix(m.volume_path, path) || is_prefix(m.name, path)
}

/// The first mount (index and copy) whose volume path or name starts
/// `path`.
pub fn vfs_path_to_mount(mgr: &MountManager, path: &str) -> (r: Option<(usize, MountPoint)>)
    ensures
        match r {
            Some((i, m)) => i < mgr@.len() && m@ == mgr@[i as int] && on_mount(path@, mgr@[i as int])
                && forall|j: int| 0 <= j < i ==> !on_mount(path@, #[trigger] mgr@[j]),
            None => forall|j: int| 0 <= j < mgr@.len() ==> !on_mount(path@, #[trigger] mgr@[j]),
        },
{
    let n = mgr.count();
    let mut i: usize = 0;
    while i < n
        invariant
            n == mgr@.len(),
            i <= n,
            forall|j: int| 0 <= j < i ==> !on_mount(path@, #[trigger] mgr@[j]),
        decreases n - i,
    {
        let m = mgr.get(i).unwrap();
        if starts_with(path, m.volume_path.as_str()) || starts_with(path, m.name.as_str()) {
            return Some((i, m.duplicate()));
        }
        i = i + 1;
    }
    None
}

/// After mounting drive `letter` on a table where that drive was not
/// mounted, looking the drive up finds the new mount; unmounting it again
/// leaves a table where the drive is not found.
pub proof fn lemma_mount_find_unmount(table: Seq<MountView>, mv: MountView, letter: char)
    requires
        mv.name == spec_volume_name(letter),
        find_name(table, spec_volume_name(letter)) == table.len(),
    ensures
        find_name(table.push(mv), spec_volume_name(letter)) == table.len(),
        table.push(mv)[table.len() as int] == mv,
        table.push(mv).remove(table.len() as int) == table,
        find_name(table.push(mv).remove(table.len() as int), spec_volume_name(letter)) == table.len(),
{
    let name = spec_volume_name(letter);
    lemma_find_name_bound(table, name);
    let t2 = table.push(mv);
    assert forall|j: int| 0 <= j < table.len() implies (#[trigger] t2[j]).name != name by {
        lemma_find_name_before(table, name, j);
    }
    lemma_find_name_at(t2, name, table.len() as int);
    assert(t2.remove(table.len() as int) =~= table);
}

proof fn lemma_find_name_bound(mounts: Seq<MountView>, name: Seq<char>)
    ensures
        0 <= find_name(mounts, name) <= mounts.len(),
    decreases mounts.len(),
{
    if mounts.len() > 0 {
        lemma_find_name_bound(mounts.drop_first(), name);
    }
}

proof fn lemma_find_name_before(mounts: Seq<MountView>, name: Seq<char>, j: int)
    requires
        0 <= j < find_name(mounts, name),
    ensures
        mounts[j].name != name,
    decreases mounts.len(),
{
    lemma_find_name_bound(mounts, name);
    if mounts.len() > 0 && mounts[0].name != name && j > 0 {
        lemma_find_name_before(mounts.drop_first(), name, j - 1);
        assert(mounts.drop_first()[j - 1] == mounts[j]);
    }
}

fn string_eq_str(a: &String, b: &str) -> (r: bool)
    ensures
        r == (a@ == b@),
{
    let s = a.as_str();
    let n = s.unicode_len();
    if n != b.unicode_len() {
        return false;
    }
    let mut i: usize = 0;
    while i < n
        invariant
            n == s@.len(),
            n == b@.len(),
            s@ == a@,
            i <= n,
            forall|j: int| 0 <= j < i ==> s@[j] == b@[j],
        decreases n - i,
    {
        if s.get_char(i) != b.get_char(i) {
            return false;
        }
        i = i + 1;
    }
    assert(s@ =~= b@);
    true
}

} // verus!
