use exa::fields::{Blocks, DeviceIDs, FileKind, Group, Inode, Links, Metadata, Size, Time, Type, User};
use exa::file::{nt_to_unix_epoch, Dir, File, FileTarget};

fn meta(kind: FileKind) -> Metadata {
    Metadata {
        kind,
        len: 1234,
        device: 0x0803,
        links: 2,
        inode: 77,
        blocks: 8,
        uid: 1000,
        gid: 100,
        mode: 0o4751,
        modified: 116444736000000000,
        created: 116444736000000000 + 15_000_000,
        accessed: 0,
    }
}

fn file_of(path: &str, kind: FileKind) -> File<'static> {
    File::new(path.to_string(), None, None, Ok(meta(kind))).unwrap()
}

fn io_error() -> std::io::Error {
    std::io::Error::new(std::io::ErrorKind::NotFound, "gone")
}

#[test]
fn new_derives_name_and_extension() {
    let f = file_of("/var/log/Syslog.GZ", FileKind::Regular);
    assert_eq!(f.name, "Syslog.GZ");
    assert_eq!(f.ext, Some("gz".to_string()));
    assert_eq!(f.path, "/var/log/Syslog.GZ");
    assert!(f.parent_dir.is_none());
}

#[test]
fn new_keeps_given_name_and_path_extension() {
    let dir = Dir { path: "/tmp".to_string() };
    let f = File::new("/tmp/a.txt".to_string(), Some(&dir), Some("shown".to_string()), Ok(meta(FileKind::Regular))).unwrap();
    assert_eq!(f.name, "shown");
    assert_eq!(f.ext, None);
    assert_eq!(f.parent_dir.unwrap().path, "/tmp");
}

#[test]
fn new_takes_extension_from_given_name() {
    let f = File::new("/tmp/a.bin".to_string(), None, Some("b.TXT".to_string()), Ok(meta(FileKind::Regular))).unwrap();
    assert_eq!(f.ext, Some("txt".to_string()));
}

#[test]
fn new_fails_when_stat_fails() {
    let r = File::new("/nope".to_string(), None, None, Err(io_error()));
    assert_eq!(r.err().unwrap().kind(), std::io::ErrorKind::NotFound);
}

#[test]
fn classification_queries() {
    let f = file_of("a", FileKind::Regular);
    assert!(f.is_file() && !f.is_directory() && !f.is_link());
    let d = file_of("d", FileKind::Directory);
    assert!(d.is_directory() && !d.is_file());
    assert!(file_of("p", FileKind::Pipe).is_pipe());
    assert!(file_of("c", FileKind::CharDevice).is_char_device());
    assert!(file_of("b", FileKind::BlockDevice).is_block_device());
    assert!(file_of("s", FileKind::Socket).is_socket());
    assert!(file_of("l", FileKind::Symlink).is_link());
}

#[test]
fn executable_by_extension() {
    assert!(file_of("run.EXE", FileKind::Regular).is_executable_file());
    assert!(!file_of("run.exe", FileKind::Directory).is_executable_file());
    assert!(!file_of("run.sh", FileKind::Regular).is_executable_file());
    assert!(!file_of("run", FileKind::Regular).is_executable_file());
}

#[test]
fn type_char_for_each_kind() {
    assert_eq!(file_of("a", FileKind::Regular).type_char(), Type::File);
    assert_eq!(file_of("a", FileKind::Directory).type_char(), Type::Directory);
    assert_eq!(file_of("a", FileKind::Pipe).type_char(), Type::Pipe);
    assert_eq!(file_of("a", FileKind::Symlink).type_char(), Type::Link);
    assert_eq!(file_of("a", FileKind::CharDevice).type_char(), Type::CharDevice);
    assert_eq!(file_of("a", FileKind::BlockDevice).type_char(), Type::BlockDevice);
    assert_eq!(file_of("a", FileKind::Socket).type_char(), Type::Socket);
    assert_eq!(file_of("a", FileKind::Unknown).type_char(), Type::Special);
}

#[test]
fn size_of_directory_is_absent() {
    assert_eq!(file_of("d", FileKind::Directory).size(), Size::Absent);
}

#[test]
fn size_of_device_and_file() {
    assert_eq!(file_of("c", FileKind::CharDevice).size(), Size::DeviceIDs(DeviceIDs { major: 8, minor: 3 }));
    assert_eq!(file_of("b", FileKind::BlockDevice).size(), Size::DeviceIDs(DeviceIDs { major: 8, minor: 3 }));
    assert_eq!(file_of("f", FileKind::Regular).size(), Size::Bytes(1234));
    assert_eq!(file_of("l", FileKind::Symlink).size(), Size::Bytes(1234));
}

#[test]
fn projections_of_snapshot() {
    let f = file_of("f", FileKind::Regular);
    assert_eq!(f.links(), Links { count: 2, multiple: true });
    assert_eq!(file_of("d", FileKind::Directory).links(), Links { count: 2, multiple: false });
    assert_eq!(f.inode(), Inode(77));
    assert_eq!(f.user(), User(1000));
    assert_eq!(f.group(), Group(100));
    assert_eq!(f.blocks(), Blocks::Count(8));
    assert_eq!(file_of("l", FileKind::Symlink).blocks(), Blocks::Count(8));
    assert_eq!(file_of("d", FileKind::Directory).blocks(), Blocks::Absent);
}

#[test]
fn permissions_from_mode_bits() {
    let p = file_of("f", FileKind::Regular).permissions();
    assert!(p.user_read && p.user_write && p.user_execute);
    assert!(p.group_read && !p.group_write && p.group_execute);
    assert!(!p.other_read && !p.other_write && p.other_execute);
    assert!(p.setuid && !p.setgid && !p.sticky);
}

#[test]
fn timestamps_convert_to_unix_epoch() {
    let f = file_of("f", FileKind::Regular);
    assert_eq!(f.modified_time(), Time { seconds: 0, nanoseconds: 0 });
    assert_eq!(f.created_time(), Time { seconds: 1, nanoseconds: 500_000_000 });
    assert_eq!(f.accessed_time(), Time { seconds: -11644473600, nanoseconds: 0 });
}

#[test]
fn nt_epoch_conversion_values() {
    assert_eq!(nt_to_unix_epoch(116444736000000000), (0, 0));
    assert_eq!(nt_to_unix_epoch(116444736012345678), (1, 234_567_800));
    assert_eq!(nt_to_unix_epoch(0), (-11644473600, 0));
    assert_eq!(nt_to_unix_epoch(u64::MAX), (1833029933770, 955_161_500));
    assert_eq!(nt_to_unix_epoch(1 << 63), (910692730085, 477_580_800));
}

#[test]
fn extension_and_name_choices() {
    let f = file_of("Makefile", FileKind::Regular);
    assert!(f.name_is_one_of(&["README", "Makefile"]));
    assert!(!f.name_is_one_of(&["makefile"]));
    assert!(!f.name_is_one_of(&[]));
    assert!(!f.extension_is_one_of(&["", "Makefile"]));
    let g = file_of("x.rs", FileKind::Regular);
    assert!(g.extension_is_one_of(&["toml", "rs"]));
    assert!(!g.extension_is_one_of(&[]));
    assert!(!g.extension_is_one_of(&["RS"]));
}

#[test]
fn repeated_queries_agree() {
    let f = file_of("/a/b.TXT", FileKind::Regular);
    assert_eq!(f.size(), f.size());
    assert_eq!(f.type_char(), f.type_char());
    assert_eq!(f.modified_time(), f.modified_time());
    assert_eq!(f.permissions(), f.permissions());
    assert_eq!(f.extension_is_one_of(&["txt"]), f.extension_is_one_of(&["txt"]));
}

#[test]
fn working_link_resolves_to_raw_destination() {
    let link = file_of("/home/me/link", FileKind::Symlink);
    let mut asked = String::new();
    let target = link.link_target(Ok("../Docs/Notes.MD".to_string()), |p: String| {
        asked = p;
        Ok(meta(FileKind::Regular))
    });
    assert_eq!(asked, "/home/me/../Docs/Notes.MD");
    assert!(!target.is_broken());
    match target {
        FileTarget::Resolved(f) => {
            assert_eq!(f.path, "../Docs/Notes.MD");
            assert_eq!(f.name, "Notes.MD");
            assert_eq!(f.ext, Some("md".to_string()));
            assert_eq!(f.metadata, meta(FileKind::Regular));
            assert!(f.parent_dir.is_none());
        }
        _ => panic!("expected a resolved target"),
    }
}

#[test]
fn broken_link_keeps_raw_destination() {
    let link = file_of("lnk", FileKind::Symlink);
    let target = link.link_target(Ok("missing/thing".to_string()), |_p: String| Err(io_error()));
    assert!(target.is_broken());
    match target {
        FileTarget::Broken(p) => assert_eq!(p, "missing/thing"),
        _ => panic!("expected a broken target"),
    }
}

#[test]
fn unreadable_link_is_an_error() {
    let link = file_of("lnk", FileKind::Regular);
    let target = link.link_target(Err(io_error()), |_p: String| Ok(meta(FileKind::Regular)));
    assert!(target.is_broken());
    assert!(matches!(target, FileTarget::Error(_)));
}

#[test]
fn relative_link_in_listed_directory() {
    let dir = Dir { path: "/a/b".to_string() };
    let link = File::new("/a/b/link".to_string(), Some(&dir), Some("link".to_string()), Ok(meta(FileKind::Symlink))).unwrap();
    let mut asked = String::new();
    let target = link.link_target(Ok("c".to_string()), |p: String| {
        asked = p;
        Ok(meta(FileKind::Directory))
    });
    assert_eq!(asked, "/a/b/c");
    assert!(link.points_to_directory(&target));
}

#[test]
fn reorient_order_of_bases() {
    let f = file_of("/x/y/link", FileKind::Symlink);
    assert_eq!(f.reorient_target_path("/abs/t"), "/abs/t");
    assert_eq!(f.reorient_target_path("t"), "/x/y/t");
    let g = file_of("link", FileKind::Symlink);
    assert_eq!(g.reorient_target_path("t"), "t");
    let root = file_of("/", FileKind::Directory);
    assert_eq!(root.reorient_target_path("t"), "/t");
    let dir = Dir { path: "rel/dir/".to_string() };
    let h = File::new("elsewhere/link".to_string(), Some(&dir), None, Ok(meta(FileKind::Symlink))).unwrap();
    assert_eq!(h.reorient_target_path("t"), "rel/dir/t");
}

#[test]
fn points_to_directory_cases() {
    let d = file_of("d", FileKind::Directory);
    assert!(d.points_to_directory(&FileTarget::Broken("x".to_string())));
    let link = file_of("l", FileKind::Symlink);
    assert!(!link.points_to_directory(&FileTarget::Broken("x".to_string())));
    assert!(!link.points_to_directory(&FileTarget::Error(io_error())));
    let to_file = File::resolve("f".to_string(), Ok(meta(FileKind::Regular)));
    assert!(!link.points_to_directory(&to_file));
    let plain = file_of("f", FileKind::Regular);
    let to_dir = File::resolve("d".to_string(), Ok(meta(FileKind::Directory)));
    assert!(!plain.points_to_directory(&to_dir));
}

#[test]
fn to_dir_keeps_path() {
    assert_eq!(file_of("/srv/www", FileKind::Directory).to_dir().path, "/srv/www");
}

#[test]
fn unix_time_to_native_ticks() {
    assert_eq!(exa::file::unix_to_nt_ticks(0, 0), Some(116444736000000000));
    assert_eq!(exa::file::unix_to_nt_ticks(1, 234_567_899), Some(116444736012345678));
    assert_eq!(exa::file::unix_to_nt_ticks(-11644473600, 0), Some(0));
    assert_eq!(exa::file::unix_to_nt_ticks(-11644473601, 0), None);
    assert_eq!(exa::file::unix_to_nt_ticks(i64::MAX, 0), None);
    let ticks = exa::file::unix_to_nt_ticks(1_700_000_000, 5_000).unwrap();
    assert_eq!(nt_to_unix_epoch(ticks), (1_700_000_000, 5_000));
    let (s, ns) = nt_to_unix_epoch(u64::MAX);
    assert_eq!(exa::file::unix_to_nt_ticks(s, ns as u32), Some(u64::MAX));
}
