//! Files, and methods to read what their cached metadata says of them.

use vstd::prelude::*;
use vstd::string::*;
use crate::fields::{
    Blocks, DeviceIDs, FileKind, Group, Inode, Links, Metadata, Permissions, Size, Time, Type,
    User,
};
use crate::path::{
    ext_of, ext_text, filename_of, filename_text, is_absolute, is_absolute_path, join_of,
    join_text, parent_of, parent_text,
};

verus! {

/// An I/O failure, carried through untouched.
#[verifier::external_type_specification]
#[verifier::external_body]
pub struct ExIoError(std::io::Error);

/// A directory whose listing produced files.
pub struct Dir {
    pub path: String,
}

/// A path together with a snapshot of its metadata and the name and
/// extension derived from it.
pub struct File<'dir> {
    /// The last component of the path, or the name the lister gave.
    pub name: String,
    /// The lower-cased extension of the name, if any.
    pub ext: Option<String>,
    /// The path as it was given.
    pub path: String,
    /// Metadata taken once, when the file was made.
    pub metadata: Metadata,
    /// The directory whose listing produced this file, if any.
    pub parent_dir: Option<&'dir Dir>,
}

/// What following a symlink gave.
pub enum FileTarget<'dir> {
    /// The link leads to an entry that exists.
    Resolved(Box<File<'dir>>),
    /// Nothing exists where the link leads; holds the link's own text.
    Broken(String),
    /// The link could not be read.
    Error(std::io::Error),
}

pub open spec fn opt_view(o: Option<String>) -> Option<Seq<char>> {
    match o {
        Some(s) => Some(s@),
        None => None,
    }
}

pub open spec fn parent_view(p: Option<&Dir>) -> Option<Seq<char>> {
    match p {
        Some(d) => Some(d.path@),
        None => None,
    }
}

/// Where a link's destination `dest` is to be looked up from, for a link at
/// `own` found in the listing of `dir`.
pub open spec fn reorient_of(dest: Seq<char>, dir: Option<Seq<char>>, own: Seq<char>) -> Seq<char> {
    if is_absolute_path(dest) {
        dest
    } else if dir is Some {
        join_of(dir->0, dest)
    } else if parent_of(own) is Some {
        join_of(parent_of(own)->0, dest)
    } else {
        join_of(own, dest)
    }
}

pub open spec fn type_of(m: Metadata) -> Type {
    match m.kind {
        FileKind::Regular => Type::File,
        FileKind::Directory => Type::Directory,
        FileKind::Pipe => Type::Pipe,
        FileKind::Symlink => Type::Link,
        FileKind::CharDevice => Type::CharDevice,
        FileKind::BlockDevice => Type::BlockDevice,
        FileKind::Socket => Type::Socket,
        FileKind::Unknown => Type::Special,
    }
}

pub open spec fn size_of(m: Metadata) -> Size {
    if m.kind == FileKind::Directory {
        Size::Absent
    } else if m.kind == FileKind::CharDevice || m.kind == FileKind::BlockDevice {
        Size::DeviceIDs(DeviceIDs { major: (m.device / 256) as u8, minor: (m.device % 256) as u8 })
    } else {
        Size::Bytes(m.len)
    }
}

pub open spec fn blocks_of(m: Metadata) -> Blocks {
    if m.kind == FileKind::Regular || m.kind == FileKind::Symlink {
        Blocks::Count(m.blocks)
    } else {
        Blocks::Absent
    }
}

pub open spec fn links_of(m: Metadata) -> Links {
    Links { count: m.links, multiple: m.kind == FileKind::Regular && m.links > 1 }
}

pub open spec fn bit(mode: u32, b: u32) -> bool {
    mode & b != 0
}

pub open spec fn permissions_of(mode: u32) -> Permissions {
    Permissions {
        user_read: bit(mode, 0o400),
        user_write: bit(mode, 0o200),
        user_execute: bit(mode, 0o100),
        group_read: bit(mode, 0o040),
        group_write: bit(mode, 0o020),
        group_execute: bit(mode, 0o010),
        other_read: bit(mode, 0o004),
        other_write: bit(mode, 0o002),
        other_execute: bit(mode, 0o001),
        sticky: bit(mode, 0o1000),
        setgid: bit(mode, 0o2000),
        setuid: bit(mode, 0o4000),
    }
}

/// Seconds between the start of 1601 and the Unix epoch.
pub const EPOCH_GAP_SECONDS: i64 = 11644473600;

/// A tick count since 1601 as seconds and nanoseconds since the Unix epoch.
pub open spec fn time_of(nt: u64) -> Time {
    Time {
        seconds: (nt / 10_000_000 - EPOCH_GAP_SECONDS) as i64,
        nanoseconds: ((nt % 10_000_000) * 100) as i64,
    }
}

/// Converts a native timestamp (100-nanosecond ticks since the start of
/// 1601) to seconds and nanoseconds since the Unix epoch.
pub fn nt_to_unix_epoch(nt: u64) -> (r: (i64, i64))
    ensures
        r.0 == time_of(nt).seconds,
        r.1 == time_of(nt).nanoseconds,
        r.0 as int == nt / 10_000_000 - EPOCH_GAP_SECONDS,
        r.1 as int == (nt % 10_000_000) * 100,
        0 <= r.1 < 1_000_000_000,
{
    let seconds = (nt / 10_000_000) as i64 - EPOCH_GAP_SECONDS;
    let nanoseconds = ((nt % 10_000_000) * 100) as i64;
    (seconds, nanoseconds)
}

/// Converting ticks to a Unix time and back gives the ticks again.
pub proof fn lemma_ticks_round_trip(nt: u64)
    ensures
        0 <= time_of(nt).nanoseconds < 1_000_000_000,
        (time_of(nt).seconds + EPOCH_GAP_SECONDS) * 10_000_000 + time_of(nt).nanoseconds / 100
            == nt,
{
    assert(nt == (nt / 10_000_000) * 10_000_000 + nt % 10_000_000);
}

/// Native ticks for a time given as seconds and nanoseconds since the Unix
/// epoch, or `None` where that time has no tick count in a `u64`.
pub fn unix_to_nt_ticks(seconds: i64, nanoseconds: u32) -> (r: Option<u64>)
    ensures
        ({
            let t = (seconds + EPOCH_GAP_SECONDS) * 10_000_000 + nanoseconds / 100;
            match r {
                Some(v) => 0 <= t <= u64::MAX && v == t,
                None => !(0 <= t <= u64::MAX),
            }
        }),
{
    let whole: i128 = (seconds as i128 + EPOCH_GAP_SECONDS as i128) * 10_000_000;
    let t: i128 = whole + (nanoseconds / 100) as i128;
    if 0 <= t && t <= u64::MAX as i128 {
        Some(t as u64)
    } else {
        None
    }
}

/// Whether two texts hold the same characters.
fn same_text(a: &str, b: &str) -> (r: bool)
    ensures
        r == (a@ == b@),
{
    let n = a.unicode_len();
    if n != b.unicode_len() {
        return false;
    }
    let mut i: usize = 0;
    while i < n
        invariant
            n == a@.len() == b@.len(),
            i <= n,
            forall|j: int| 0 <= j < i ==> a@[j] == b@[j],
        decreases n - i,
    {
        if a.get_char(i) != b.get_char(i) {
            return false;
        }
        i = i + 1;
    }
    assert(a@ =~= b@);
    true
}

/// Whether `t` is one of `choices`.
pub open spec fn one_of(t: Seq<char>, choices: Seq<&str>) -> bool {
    exists|i: int| 0 <= i < choices.len() && choices[i]@ == t
}

fn text_is_one_of(t: &str, choices: &[&str]) -> (r: bool)
    ensures
        r == one_of(t@, choices@),
{
    let mut i: usize = 0;
    while i < choices.len()
        invariant
            i <= choices@.len(),
            forall|j: int| 0 <= j < i ==> choices@[j]@ != t@,
        decreases choices@.len() - i,
    {
        if same_text(choices[i], t) {
            return true;
        }
        i = i + 1;
    }
    false
}

impl<'dir> File<'dir> {
    /// The file holds what its path and the lister gave, with its extension
    /// taken from its name.
    pub open spec fn made_from(
        self,
        path: Seq<char>,
        parent_dir: Option<&'dir Dir>,
        name: Option<Seq<char>>,
        metadata: Metadata,
    ) -> bool {
        &&& self.path@ == path
        &&& self.parent_dir == parent_dir
        &&& self.metadata == metadata
        &&& self.name@ == (match name {
            Some(n) => n,
            None => filename_of(path),
        })
        &&& opt_view(self.ext) == ext_of(self.name@)
    }

    /// Makes a file from its path, the directory whose listing found it, the
    /// name the lister already knows, and the result of a stat of the path that
    /// does not follow links; a failed stat is returned as it is.
    pub fn new(
        path: String,
        parent_dir: Option<&'dir Dir>,
        filename: Option<String>,
        metadata: Result<Metadata, std::io::Error>,
    ) -> (r: Result<File<'dir>, std::io::Error>)
        ensures
            match metadata {
                Ok(m) => r is Ok && r->Ok_0.made_from(path@, parent_dir, opt_view(filename), m),
                Err(e) => r == Err::<File<'dir>, std::io::Error>(e),
            },
    {
        let name = match filename {
            Some(n) => n,
            None => File::filename(path.as_str()),
        };
        let ext = File::ext(name.as_str());
        match metadata {
            Ok(metadata) => Ok(File { path, parent_dir, metadata, ext, name }),
            Err(e) => Err(e),
        }
    }

    /// The last component of a path, which may be `.`, `..` or `/`; the
    /// empty path gives the empty name.
    pub fn filename(path: &str) -> (r: String)
        ensures
            r@ == filename_of(path@),
    {
        filename_text(path)
    }

    /// The lower-cased text after the last `.` of a path's normal last
    /// component, so that a dotfile's extension is what follows its dot.
    pub fn ext(path: &str) -> (r: Option<String>)
        ensures
            opt_view(r) == ext_of(path@),
    {
        ext_text(path)
    }

    pub fn is_directory(&self) -> (r: bool)
        ensures
            r == (self.metadata.kind == FileKind::Directory),
    {
        self.metadata.kind == FileKind::Directory
    }

    /// Whether this file is a directory, or a link that `target`, the result
    /// of following it, shows to lead to a directory.
    pub fn points_to_directory(&self, target: &FileTarget<'dir>) -> (r: bool)
        ensures
            r == (self.metadata.kind == FileKind::Directory || (self.metadata.kind
                == FileKind::Symlink && target is Resolved && target->Resolved_0.metadata.kind
                == FileKind::Directory)),
    {
        if self.is_directory() {
            return true;
        }
        if self.is_link() {
            if let FileTarget::Resolved(f) = target {
                return f.is_directory();
            }
        }
        false
    }

    /// A directory value for this file's path.
    pub fn to_dir(&self) -> (r: Dir)
        ensures
            r.path@ == self.path@,
    {
        Dir { path: self.path.clone() }
    }

    pub fn is_file(&self) -> (r: bool)
        ensures
            r == (self.metadata.kind == FileKind::Regular),
    {
        self.metadata.kind == FileKind::Regular
    }

    /// Whether this is a regular file with the extension `exe`: the extension
    /// stands in for execute bits on platforms without them.
    pub fn is_executable_file(&self) -> (r: bool)
        ensures
            r == (self.metadata.kind == FileKind::Regular && opt_view(self.ext) == Some(
                seq!['e', 'x', 'e'],
            )),
    {
        if !self.is_file() {
            return false;
        }
        match &self.ext {
            Some(e) => {
                proof {
                    reveal_strlit("exe");
                }
                let r = same_text(e.as_str(), "exe");
                assert(r == (e@ == seq!['e', 'x', 'e'])) by {
                    assert("exe"@ =~= seq!['e', 'x', 'e']);
                }
                r
            },
            None => false,
        }
    }

    pub fn is_link(&self) -> (r: bool)
        ensures
            r == (self.metadata.kind == FileKind::Symlink),
    {
        self.metadata.kind == FileKind::Symlink
    }

    pub fn is_pipe(&self) -> (r: bool)
        ensures
            r == (self.metadata.kind == FileKind::Pipe),
    {
        self.metadata.kind == FileKind::Pipe
    }

    pub fn is_char_device(&self) -> (r: bool)
        ensures
            r == (self.metadata.kind == FileKind::CharDevice),
    {
        self.metadata.kind == FileKind::CharDevice
    }

    pub fn is_block_device(&self) -> (r: bool)
        ensures
            r == (self.metadata.kind == FileKind::BlockDevice),
    {
        self.metadata.kind == FileKind::BlockDevice
    }

    pub fn is_socket(&self) -> (r: bool)
        ensures
            r == (self.metadata.kind == FileKind::Socket),
    {
        self.metadata.kind == FileKind::Socket
    }

    /// Where this file's link destination `path` is to be looked up: an
    /// absolute destination as it is, else relative to the listed directory,
    /// else to the directory of this file's own path, else to the path itself.
    pub fn reorient_target_path(&self, path: &str) -> (r: String)
        ensures
            r@ == reorient_of(path@, parent_view(self.parent_dir), self.path@),
    {
        if is_absolute(path) {
            path.to_owned()
        } else if let Some(dir) = self.parent_dir {
            join_text(dir.path.as_str(), path)
        } else if let Some(parent) = parent_text(self.path.as_str()) {
            join_text(parent.as_str(), path)
        } else {
            join_text(self.path.as_str(), path)
        }
    }

    /// Follows this file as a symlink. `read` is what reading the link gave;
    /// `stat` looks up a path, following links. A link that can be read is
    /// looked up where `reorient_target_path` puts it; the file made from it is
    /// named after the link's own text and has no listed directory.
    pub fn link_target<F>(&self, read: Result<String, std::io::Error>, stat: F) -> (r: FileTarget<
        'dir,
    >) where F: FnOnce(String) -> Result<Metadata, std::io::Error>
        requires
            forall|p: String| stat.requires((p,)),
        ensures
            match read {
                Err(e) => r == FileTarget::<'dir>::Error(e),
                Ok(dest) => exists|abs: String, res: Result<Metadata, std::io::Error>|
                    {
                        &&& abs@ == reorient_of(dest@, parent_view(self.parent_dir), self.path@)
                        &&& #[trigger] stat.ensures((abs,), res)
                        &&& resolves_to(r, dest@, res)
                    },
            },
    {
        let path = match read {
            Ok(p) => p,
            Err(e) => return FileTarget::Error(e),
        };
        let absolute_path = self.reorient_target_path(path.as_str());
        let ghost abs = absolute_path;
        let res = stat(absolute_path);
        let ghost dest = path@;
        let r = File::resolve(path, res);
        assert(resolves_to(r, dest, res));
        r
    }

    /// The file at a link's destination `path` given the result of looking
    /// it up: the file when the lookup succeeded, else the broken destination.
    pub fn resolve(path: String, res: Result<Metadata, std::io::Error>) -> (r: FileTarget<'dir>)
        ensures
            resolves_to(r, path@, res),
    {
        match res {
            Ok(metadata) => {
                let name = File::filename(path.as_str());
                let ext = File::ext(name.as_str());
                FileTarget::Resolved(Box::new(File { parent_dir: None, path, ext, metadata, name }))
            },
            Err(_) => FileTarget::Broken(path),
        }
    }

    pub fn links(&self) -> (r: Links)
        ensures
            r == links_of(self.metadata),
    {
        let count = self.metadata.links;
        Links { count, multiple: self.is_file() && count > 1 }
    }

    pub fn inode(&self) -> (r: Inode)
        ensures
            r == Inode(self.metadata.inode),
    {
        Inode(self.metadata.inode)
    }

    /// Block count, for regular files and links only.
    pub fn blocks(&self) -> (r: Blocks)
        ensures
            r == blocks_of(self.metadata),
    {
        if self.is_file() || self.is_link() {
            Blocks::Count(self.metadata.blocks)
        } else {
            Blocks::Absent
        }
    }

    pub fn user(&self) -> (r: User)
        ensures
            r == User(self.metadata.uid),
    {
        User(self.metadata.uid)
    }

    pub fn group(&self) -> (r: Group)
        ensures
            r == Group(self.metadata.gid),
    {
        Group(self.metadata.gid)
    }

    /// No size for a directory, the device numbers for a device, else the
    /// length in bytes.
    pub fn size(&self) -> (r: Size)
        ensures
            r == size_of(self.metadata),
            self.metadata.kind == FileKind::Directory ==> r == Size::Absent,
    {
        if self.is_directory() {
            Size::Absent
        } else if self.is_char_device() || self.is_block_device() {
            let dev = self.metadata.device;
            Size::DeviceIDs(DeviceIDs { major: (dev / 256) as u8, minor: (dev % 256) as u8 })
        } else {
            Size::Bytes(self.metadata.len)
        }
    }

    pub fn modified_time(&self) -> (r: Time)
        ensures
            r == time_of(self.metadata.modified),
    {
        let (seconds, nanoseconds) = nt_to_unix_epoch(self.metadata.modified);
        Time { seconds, nanoseconds }
    }

    pub fn created_time(&self) -> (r: Time)
        ensures
            r == time_of(self.metadata.created),
    {
        let (seconds, nanoseconds) = nt_to_unix_epoch(self.metadata.created);
        Time { seconds, nanoseconds }
    }

    pub fn accessed_time(&self) -> (r: Time)
        ensures
            r == time_of(self.metadata.accessed),
    {
        let (seconds, nanoseconds) = nt_to_unix_epoch(self.metadata.accessed);
        Time { seconds, nanoseconds }
    }

    /// The file's type, tested in the order file, directory, pipe, link,
    /// character device, block device, socket, with anything else special.
    pub fn type_char(&self) -> (r: Type)
        ensures
            r == type_of(self.metadata),
    {
        if self.is_file() {
            Type::File
        } else if self.is_directory() {
            Type::Directory
        } else if self.is_pipe() {
            Type::Pipe
        } else if self.is_link() {
            Type::Link
        } else if self.is_char_device() {
            Type::CharDevice
        } else if self.is_block_device() {
            Type::BlockDevice
        } else if self.is_socket() {
            Type::Socket
        } else {
            Type::Special
        }
    }

    /// One flag per permission bit of the mode.
    pub fn permissions(&self) -> (r: Permissions)
        ensures
            r == permissions_of(self.metadata.mode),
    {
        let mode = self.metadata.mode;
        Permissions {
            user_read: mode & 0o400 != 0,
            user_write: mode & 0o200 != 0,
            user_execute: mode & 0o100 != 0,
            group_read: mode & 0o040 != 0,
            group_write: mode & 0o020 != 0,
            group_execute: mode & 0o010 != 0,
            other_read: mode & 0o004 != 0,
            other_write: mode & 0o002 != 0,
            other_execute: mode & 0o001 != 0,
            sticky: mode & 0o1000 != 0,
            setgid: mode & 0o2000 != 0,
            setuid: mode & 0o4000 != 0,
        }
    }

    /// Whether the extension is one of `choices`; never when there is none.
    pub fn extension_is_one_of(&self, choices: &[&str]) -> (r: bool)
        ensures
            r == extension_in(opt_view(self.ext), choices@),
    {
        match &self.ext {
            Some(ext) => text_is_one_of(ext.as_str(), choices),
            None => false,
        }
    }

    /// Whether the name, extension included, is one of `choices`.
    pub fn name_is_one_of(&self, choices: &[&str]) -> (r: bool)
        ensures
            r == one_of(self.name@, choices@),
    {
        text_is_one_of(self.name.as_str(), choices)
    }
}

/// Whether an extension is present and one of `choices`.
pub open spec fn extension_in(ext: Option<Seq<char>>, choices: Seq<&str>) -> bool {
    match ext {
        Some(e) => one_of(e, choices),
        None => false,
    }
}

/// `r` is the target made from a link's destination `dest` and the result
/// `res` of looking it up.
pub open spec fn resolves_to<'dir>(
    r: FileTarget<'dir>,
    dest: Seq<char>,
    res: Result<Metadata, std::io::Error>,
) -> bool {
    match res {
        Ok(m) => r is Resolved && r->Resolved_0.made_from(dest, None, None, m),
        Err(_) => r is Broken && r->Broken_0@ == dest,
    }
}

/// With no choices, no file's extension is one of them.
pub proof fn lemma_no_extension_choices(f: &File, choices: Seq<&str>)
    requires
        choices.len() == 0,
    ensures
        !extension_in(opt_view(f.ext), choices),
{
}

/// A directory shows no size, whatever length its metadata gives.
pub proof fn lemma_directory_has_no_size(m: Metadata)
    requires
        m.kind == FileKind::Directory,
    ensures
        size_of(m) == Size::Absent,
{
}

/// Every derived query reads only the file's cached snapshot and name, so two
/// files with the same snapshot and name answer every query alike, and so
/// does one file asked twice.
pub proof fn lemma_queries_read_snapshot(f: &File, g: &File)
    requires
        f.metadata == g.metadata,
        f.name@ == g.name@,
        opt_view(f.ext) == opt_view(g.ext),
    ensures
        type_of(f.metadata) == type_of(g.metadata),
        size_of(f.metadata) == size_of(g.metadata),
        blocks_of(f.metadata) == blocks_of(g.metadata),
        links_of(f.metadata) == links_of(g.metadata),
        permissions_of(f.metadata.mode) == permissions_of(g.metadata.mode),
        time_of(f.metadata.modified) == time_of(g.metadata.modified),
        time_of(f.metadata.created) == time_of(g.metadata.created),
        time_of(f.metadata.accessed) == time_of(g.metadata.accessed),
        forall|c: Seq<&str>| extension_in(opt_view(f.ext), c) == extension_in(opt_view(g.ext), c),
        forall|c: Seq<&str>| one_of(f.name@, c) == one_of(g.name@, c),
{
}

impl<'a> AsRef<File<'a>> for File<'a> {
    fn as_ref(&self) -> &File<'a> {
        self
    }
}

impl<'dir> FileTarget<'dir> {
    /// Whether the link leads nowhere: broken, or not readable at all.
    pub fn is_broken(&self) -> (r: bool)
        ensures
            r == !(self is Resolved),
    {
        match self {
            FileTarget::Resolved(_) => false,
            FileTarget::Broken(_) | FileTarget::Error(_) => true,
        }
    }
}

} // verus!
