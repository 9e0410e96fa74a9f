use steed::attr::{FileAttr, FilePermissions, FileType, Stat64, SystemTime, Timespec};
use steed::error::{Error, ErrorKind};

fn stat_with_mode(mode: u32) -> Stat64 {
    Stat64 {
        st_dev: 1,
        st_ino: 2,
        st_mode: mode,
        st_nlink: 1,
        st_uid: 1000,
        st_gid: 1000,
        st_rdev: 0,
        st_size: 10240,
        st_blksize: 4096,
        st_blocks: 24,
        st_atime: 1_500_000_000,
        st_atime_nsec: 123,
        st_mtime: 1_400_000_000,
        st_mtime_nsec: 456,
        st_ctime: 1_300_000_000,
        st_ctime_nsec: 789,
    }
}

#[test]
fn attr_gives_size_and_record() {
    let stat = stat_with_mode(0o100644);
    let attr = FileAttr::from_stat(stat);
    assert_eq!(attr.size(), 10240);
    assert_eq!(*attr.as_inner(), stat);
    let mut huge = stat;
    huge.st_size = i64::MAX;
    assert_eq!(FileAttr::from_stat(huge).size(), i64::MAX as u64);
    let mut odd = stat;
    odd.st_size = -1;
    assert_eq!(FileAttr::from_stat(odd).size(), u64::MAX);
}

#[test]
fn attr_permissions_are_the_nine_low_bits() {
    assert_eq!(FileAttr::from_stat(stat_with_mode(0o100644)).perm().mode(), 0o644);
    assert_eq!(FileAttr::from_stat(stat_with_mode(0o040755)).perm().mode(), 0o755);
    assert_eq!(FileAttr::from_stat(stat_with_mode(0o104777)).perm().mode(), 0o777);
    assert_eq!(FileAttr::from_stat(stat_with_mode(0o107000)).perm().mode(), 0);
    assert_eq!(
        FileAttr::from_stat(stat_with_mode(0o100644)).perm(),
        FilePermissions::from_mode(0o644)
    );
}

#[test]
fn attr_file_type_keeps_the_mode() {
    let t = FileAttr::from_stat(stat_with_mode(0o100644)).file_type();
    assert_eq!(t, FileType::from_mode(0o100644));
    assert!(t.is_file());
    assert!(!t.is_dir());
    assert!(!t.is_symlink());
}

#[test]
fn attr_times_come_from_the_record() {
    let attr = FileAttr::from_stat(stat_with_mode(0o100644));
    let modified = attr.modified().unwrap();
    assert_eq!(modified.as_timespec(), Timespec { tv_sec: 1_400_000_000, tv_nsec: 456 });
    let accessed = attr.accessed().unwrap();
    assert_eq!(accessed.as_timespec(), Timespec { tv_sec: 1_500_000_000, tv_nsec: 123 });
    assert_eq!(
        accessed,
        SystemTime::from_timespec(Timespec { tv_sec: 1_500_000_000, tv_nsec: 123 })
    );
    assert_ne!(modified, accessed);
}

#[test]
fn attr_has_no_creation_time() {
    let attr = FileAttr::from_stat(stat_with_mode(0o100644));
    let e = attr.created().unwrap_err();
    assert_eq!(
        e,
        Error::Custom {
            kind: ErrorKind::Other,
            message: "creation time is not available on this platform currently",
        }
    );
    assert_eq!(e.kind(), ErrorKind::Other);
    assert_eq!(e.raw_os_error(), None);
    let other = FileAttr::from_stat(stat_with_mode(0o040755));
    assert_eq!(other.created().unwrap_err(), e);
}

#[test]
fn readonly_means_no_write_bit() {
    assert!(FilePermissions::from_mode(0o444).readonly());
    assert!(FilePermissions::from_mode(0o555).readonly());
    assert!(FilePermissions::from_mode(0).readonly());
    assert!(!FilePermissions::from_mode(0o644).readonly());
    assert!(!FilePermissions::from_mode(0o464).readonly());
    assert!(!FilePermissions::from_mode(0o446).readonly());
    assert!(!FilePermissions::from_mode(0o002).readonly());
    assert!(!FilePermissions::from_mode(0o777).readonly());
}

#[test]
fn set_readonly_moves_the_three_write_bits_together() {
    let mut p = FilePermissions::from_mode(0o644);
    p.set_readonly(true);
    assert_eq!(p.mode(), 0o444);
    assert!(p.readonly());
    p.set_readonly(false);
    assert_eq!(p.mode(), 0o666);
    assert!(!p.readonly());

    let mut q = FilePermissions::from_mode(0o751);
    q.set_readonly(false);
    assert_eq!(q.mode(), 0o773);
    q.set_readonly(true);
    assert_eq!(q.mode(), 0o551);
    q.set_readonly(true);
    assert_eq!(q.mode(), 0o551);
}

#[test]
fn set_readonly_round_trip_on_every_mode() {
    for mode in 0..0o1000u32 {
        for readonly in [true, false] {
            let mut p = FilePermissions::from_mode(mode);
            p.set_readonly(readonly);
            assert_eq!(p.readonly(), readonly);
            assert_eq!(p.mode() & !0o222, mode & !0o222);
            assert!(p.mode() & 0o222 == 0 || p.mode() & 0o222 == 0o222);
        }
    }
}

#[test]
fn file_type_tests_compare_the_format_bits() {
    let dir = FileType::from_mode(0o040755);
    assert!(dir.is_dir());
    assert!(!dir.is_file());
    assert!(!dir.is_symlink());
    assert!(dir.is(0o040000));

    let link = FileType::from_mode(0o120777);
    assert!(link.is_symlink());
    assert!(!link.is_file());
    assert!(!link.is_dir());

    let file = FileType::from_mode(0o100000);
    assert!(file.is_file());

    // Every other format is none of the three.
    for format in [0o010000u32, 0o020000, 0o060000, 0o140000] {
        let t = FileType::from_mode(format | 0o644);
        assert!(!t.is_dir());
        assert!(!t.is_file());
        assert!(!t.is_symlink());
        assert!(t.is(format));
        assert!(!t.is(format | 0o644));
    }
    // A socket's format holds the bits of a directory's and of a regular
    // file's, and is neither.
    let socket = FileType::from_mode(0o140000);
    assert!(!socket.is_dir());
    assert!(!socket.is_file());
}
