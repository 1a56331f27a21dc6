//! Plain values that describe one filesystem entry and what is shown of it.

use vstd::prelude::*;

verus! {

/// What kind of entry a metadata snapshot describes.
#[derive(Clone, Copy, Debug, PartialEq, Eq, Structural)]
pub enum FileKind {
    Regular,
    Directory,
    Symlink,
    Pipe,
    CharDevice,
    BlockDevice,
    Socket,
    Unknown,
}

/// A snapshot of an entry's metadata, taken once and never refreshed.
///
/// Times are in the platform's native ticks: 100-nanosecond intervals since
/// the start of 1601.
#[derive(Clone, Copy, Debug, PartialEq, Eq, Structural)]
pub struct Metadata {
    pub kind: FileKind,
    pub len: u64,
    pub device: u64,
    pub links: u64,
    pub inode: u64,
    pub blocks: u64,
    pub uid: u32,
    pub gid: u32,
    pub mode: u32,
    pub modified: u64,
    pub created: u64,
    pub accessed: u64,
}

/// The type column's character, by kind.
#[derive(Clone, Copy, Debug, PartialEq, Eq, Structural)]
pub enum Type {
    File,
    Directory,
    Pipe,
    Link,
    CharDevice,
    BlockDevice,
    Socket,
    Special,
}

/// Permission flags, one per mode bit.
#[derive(Clone, Copy, Debug, PartialEq, Eq, Structural)]
pub struct Permissions {
    pub user_read: bool,
    pub user_write: bool,
    pub user_execute: bool,
    pub group_read: bool,
    pub group_write: bool,
    pub group_execute: bool,
    pub other_read: bool,
    pub other_write: bool,
    pub other_execute: bool,
    pub sticky: bool,
    pub setgid: bool,
    pub setuid: bool,
}

/// Hard link count, and whether a regular file has more than one.
#[derive(Clone, Copy, Debug, PartialEq, Eq, Structural)]
pub struct Links {
    pub count: u64,
    pub multiple: bool,
}

#[derive(Clone, Copy, Debug, PartialEq, Eq, Structural)]
pub struct Inode(pub u64);

/// Number of filesystem blocks, shown for regular files and links only.
#[derive(Clone, Copy, Debug, PartialEq, Eq, Structural)]
pub enum Blocks {
    Count(u64),
    Absent,
}

#[derive(Clone, Copy, Debug, PartialEq, Eq, Structural)]
pub struct User(pub u32);

#[derive(Clone, Copy, Debug, PartialEq, Eq, Structural)]
pub struct Group(pub u32);

/// A device's major and minor numbers.
#[derive(Clone, Copy, Debug, PartialEq, Eq, Structural)]
pub struct DeviceIDs {
    pub major: u8,
    pub minor: u8,
}

/// What the size column shows.
#[derive(Clone, Copy, Debug, PartialEq, Eq, Structural)]
pub enum Size {
    Absent,
    Bytes(u64),
    DeviceIDs(DeviceIDs),
}

/// A point in time, as seconds and nanoseconds since the Unix epoch.
#[derive(Clone, Copy, Debug, PartialEq, Eq, Structural)]
pub struct Time {
    pub seconds: i64,
    pub nanoseconds: i64,
}

} // verus!
