//! The filesystem capability.  Open-options bookkeeping (flag selection and
//! its validity rules) is real, fully specified logic; every operation that
//! would touch a filesystem fails with `Unsupported`, and the handle types a
//! success would produce cannot be constructed.

use vstd::prelude::*;
use crate::error::{unsupported, ErrorKind, IoError, EINVAL};
use crate::handle::NoHandle;
use crate::io::{IoSlice, IoSliceMut, SeekFrom};
use crate::readbuf::BorrowedCursor;
use crate::time::SystemTime;

verus! {

/// Native open(2) flags of the target platform (Linux).
pub const O_RDONLY: i32 = 0;
pub const O_WRONLY: i32 = 1;
pub const O_RDWR: i32 = 2;
pub const O_CREAT: i32 = 64;
pub const O_EXCL: i32 = 128;
pub const O_TRUNC: i32 = 512;
pub const O_APPEND: i32 = 1024;

/// Requested access times for a file; inert on this platform.
#[derive(Clone, Copy, Debug)]
#[non_exhaustive]
pub struct FileTimes {}

impl Default for FileTimes {
    fn default() -> (t: FileTimes) {
        FileTimes {}
    }
}

impl FileTimes {
    pub fn set_accessed(&mut self, _t: SystemTime)
        ensures
            *final(self) == *old(self),
    {
    }

    pub fn set_modified(&mut self, _t: SystemTime)
        ensures
            *final(self) == *old(self),
    {
    }
}

/// Permission bits of a file.  No operation of this platform ever produces
/// one.
#[derive(Clone, PartialEq, Eq, Debug)]
pub struct FilePermissions {
    mode: u32,
}

impl FilePermissions {
    pub closed spec fn mode_spec(self) -> u32 {
        self.mode
    }

    pub fn readonly(&self) -> (r: bool)
        ensures
            r == false,
    {
        false
    }

    pub fn set_readonly(&mut self, _readonly: bool)
        ensures
            *final(self) == *old(self),
    {
    }

    pub fn mode(&self) -> (m: u32)
        ensures
            m == self.mode_spec(),
    {
        self.mode
    }
}

/// The kind of a directory entry.  No value of it can be constructed on this
/// platform, so every predicate answers over an unreachable receiver.
#[derive(Debug, Clone, Copy)]
pub struct FileType {
    #[allow(dead_code)]
    token: NoHandle,
}

impl FileType {
    pub fn is_dir(&self) -> (r: bool)
        ensures
            r == false,
    {
        false
    }

    pub fn is_file(&self) -> (r: bool)
        ensures
            r == false,
    {
        false
    }

    pub fn is_symlink(&self) -> (r: bool)
        ensures
            r == false,
    {
        false
    }

    pub fn is(&self, _mode: u32) -> (r: bool)
        ensures
            r == false,
    {
        false
    }
}

/// Metadata of a file.  No operation of this platform ever produces one.
#[derive(Debug)]
pub struct FileAttr {
    token: NoHandle,
}

impl FileAttr {
    pub fn size(&self) -> (n: u64)
        ensures
            n == 0,
    {
        0
    }

    pub fn perm(&self) -> (p: FilePermissions)
        ensures
            p.mode_spec() == 0,
    {
        FilePermissions { mode: 0 }
    }

    pub fn file_type(&self) -> (t: FileType) {
        FileType { token: self.token }
    }

    pub fn modified(&self) -> (r: Result<SystemTime, IoError>)
        ensures
            r is Err && r->Err_0.is_unsupported(),
    {
        unsupported()
    }

    pub fn accessed(&self) -> (r: Result<SystemTime, IoError>)
        ensures
            r is Err && r->Err_0.is_unsupported(),
    {
        unsupported()
    }

    pub fn created(&self) -> (r: Result<SystemTime, IoError>)
        ensures
            r is Err && r->Err_0.is_unsupported(),
    {
        unsupported()
    }
}

impl Clone for FileAttr {
    fn clone(&self) -> (c: FileAttr) {
        FileAttr { token: self.token }
    }
}

/// An open directory stream.  No value of it can be constructed.
#[derive(Debug)]
pub struct ReadDir {
    #[allow(dead_code)]
    token: NoHandle,
}

impl ReadDir {
    /// The next directory entry; stands in for the iterator the functional
    /// backends expose.
    pub fn next_entry(&mut self) -> (r: Option<Result<DirEntry, IoError>>)
        ensures
            r is None,
            *final(self) == *old(self),
    {
        None
    }
}

/// A single directory entry.  No value of it can be constructed.
#[derive(Debug)]
pub struct DirEntry {
    token: NoHandle,
}

impl DirEntry {
    pub fn path(&self) -> (p: String)
        ensures
            p@.len() == 0,
    {
        String::new()
    }

    pub fn file_name(&self) -> (n: String)
        ensures
            n@.len() == 0,
    {
        String::new()
    }

    pub fn metadata(&self) -> (r: Result<FileAttr, IoError>)
        ensures
            r is Err && r->Err_0.is_unsupported(),
    {
        unsupported()
    }

    pub fn file_type(&self) -> (r: Result<FileType, IoError>)
        ensures
            r is Err && r->Err_0.is_unsupported(),
    {
        unsupported()
    }

    pub fn file_name_os_str(&self) -> (n: String)
        ensures
            n@.len() == 0,
    {
        String::new()
    }

    /// There is no sensible inode number here; the receiver cannot exist.
    pub fn ino(&self) -> (n: u64)
        ensures
            n == 0,
    {
        0
    }
}

/// Options for opening a file: the generic flags plus the platform-specific
/// extras.
#[derive(Clone, Debug)]
pub struct OpenOptions {
    pub read: bool,
    pub write: bool,
    pub append: bool,
    pub truncate: bool,
    pub create: bool,
    pub create_new: bool,
    pub custom_flags: i32,
    pub mode: u32,
}

impl Default for OpenOptions {
    fn default() -> (o: OpenOptions)
        ensures
            o == OpenOptions::new_spec(),
    {
        OpenOptions {
            read: false,
            write: false,
            append: false,
            truncate: false,
            create: false,
            create_new: false,
            custom_flags: 0,
            mode: 0o666,
        }
    }
}

impl OpenOptions {
    /// Freshly constructed options: nothing requested, default mode bits.
    pub open spec fn new_spec() -> OpenOptions {
        OpenOptions {
            read: false,
            write: false,
            append: false,
            truncate: false,
            create: false,
            create_new: false,
            custom_flags: 0,
            mode: 0o666u32,
        }
    }

    pub fn new() -> (o: OpenOptions)
        ensures
            o == OpenOptions::new_spec(),
    {
        OpenOptions {
            read: false,
            write: false,
            append: false,
            truncate: false,
            create: false,
            create_new: false,
            custom_flags: 0,
            mode: 0o666,
        }
    }

    pub fn read(&mut self, read: bool)
        ensures
            *final(self) == (OpenOptions { read, ..*old(self) }),
    {
        self.read = read;
    }

    pub fn write(&mut self, write: bool)
        ensures
            *final(self) == (OpenOptions { write, ..*old(self) }),
    {
        self.write = write;
    }

    pub fn append(&mut self, append: bool)
        ensures
            *final(self) == (OpenOptions { append, ..*old(self) }),
    {
        self.append = append;
    }

    pub fn truncate(&mut self, truncate: bool)
        ensures
            *final(self) == (OpenOptions { truncate, ..*old(self) }),
    {
        self.truncate = truncate;
    }

    pub fn create(&mut self, create: bool)
        ensures
            *final(self) == (OpenOptions { create, ..*old(self) }),
    {
        self.create = create;
    }

    pub fn create_new(&mut self, create_new: bool)
        ensures
            *final(self) == (OpenOptions { create_new, ..*old(self) }),
    {
        self.create_new = create_new;
    }

    pub fn custom_flags(&mut self, flags: i32)
        ensures
            *final(self) == (OpenOptions { custom_flags: flags, ..*old(self) }),
    {
        self.custom_flags = flags;
    }

    pub fn mode(&mut self, mode: u32)
        ensures
            *final(self) == (OpenOptions { mode, ..*old(self) }),
    {
        self.mode = mode;
    }

    /// The access-mode flags the requested combination denotes, or nothing
    /// when the combination is contradictory.
    pub open spec fn access_mode_spec(self) -> Option<i32> {
        if self.append {
            if self.read {
                Some(O_RDWR | O_APPEND)
            } else {
                Some(O_WRONLY | O_APPEND)
            }
        } else if self.read && self.write {
            Some(O_RDWR)
        } else if self.read {
            Some(O_RDONLY)
        } else if self.write {
            Some(O_WRONLY)
        } else {
            None
        }
    }

    pub fn get_access_mode(&self) -> (r: Result<i32, IoError>)
        ensures
            match self.access_mode_spec() {
                Some(m) => r matches Ok(v) && v == m,
                None => r matches Err(e) && e.kind == ErrorKind::InvalidInput && e.raw == Some(
                    EINVAL,
                ),
            },
    {
        match (self.read, self.write, self.append) {
            (true, false, false) => Ok(O_RDONLY),
            (false, true, false) => Ok(O_WRONLY),
            (true, true, false) => Ok(O_RDWR),
            (false, _, true) => Ok(O_WRONLY | O_APPEND),
            (true, _, true) => Ok(O_RDWR | O_APPEND),
            (false, false, false) => Err(IoError::from_raw_os_error(EINVAL)),
        }
    }

    /// Whether the creation-related flags are consistent with the requested
    /// write mode.
    pub open spec fn creation_mode_ok(self) -> bool {
        if !self.write && !self.append {
            !self.truncate && !self.create && !self.create_new
        } else if self.append {
            !self.truncate || self.create_new
        } else {
            true
        }
    }

    /// The creation flags the requested combination denotes.
    pub open spec fn creation_mode_spec(self) -> i32 {
        if self.create_new {
            O_CREAT | O_EXCL
        } else if self.create && self.truncate {
            O_CREAT | O_TRUNC
        } else if self.create {
            O_CREAT
        } else if self.truncate {
            O_TRUNC
        } else {
            0
        }
    }

    pub fn get_creation_mode(&self) -> (r: Result<i32, IoError>)
        ensures
            self.creation_mode_ok() ==> (r matches Ok(v) && v == self.creation_mode_spec()),
            !self.creation_mode_ok() ==> (r matches Err(e) && e.kind == ErrorKind::InvalidInput
                && e.raw == Some(EINVAL)),
    {
        match (self.write, self.append) {
            (true, false) => {},
            (false, false) => {
                if self.truncate || self.create || self.create_new {
                    return Err(IoError::from_raw_os_error(EINVAL));
                }
            },
            (_, true) => {
                if self.truncate && !self.create_new {
                    return Err(IoError::from_raw_os_error(EINVAL));
                }
            },
        }
        Ok(
            match (self.create, self.truncate, self.create_new) {
                (false, false, false) => 0,
                (true, false, false) => O_CREAT,
                (false, true, false) => O_TRUNC,
                (true, true, false) => O_CREAT | O_TRUNC,
                (_, _, true) => O_CREAT | O_EXCL,
            },
        )
    }
}

/// An open file.  No operation of this platform ever produces one.
#[derive(Debug)]
pub struct File {
    #[allow(dead_code)]
    token: NoHandle,
}

impl File {
    /// Opening is not supported for any path or option set.
    pub fn open(_path: &str, _opts: &OpenOptions) -> (r: Result<File, IoError>)
        ensures
            r is Err && r->Err_0.is_unsupported(),
    {
        unsupported()
    }

    pub fn file_attr(&self) -> (r: Result<FileAttr, IoError>)
        ensures
            r is Err && r->Err_0.is_unsupported(),
    {
        unsupported()
    }

    pub fn fsync(&self) -> (r: Result<(), IoError>)
        ensures
            r is Err && r->Err_0.is_unsupported(),
    {
        unsupported()
    }

    pub fn datasync(&self) -> (r: Result<(), IoError>)
        ensures
            r is Err && r->Err_0.is_unsupported(),
    {
        unsupported()
    }

    pub fn truncate(&self, _size: u64) -> (r: Result<(), IoError>)
        ensures
            r is Err && r->Err_0.is_unsupported(),
    {
        unsupported()
    }

    pub fn read(&self, buf: &mut [u8]) -> (r: Result<usize, IoError>)
        ensures
            r is Err && r->Err_0.is_unsupported(),
            final(buf)@ == old(buf)@,
    {
        unsupported()
    }

    pub fn read_vectored(&self, bufs: &mut [IoSliceMut]) -> (r: Result<usize, IoError>)
        ensures
            r is Err && r->Err_0.is_unsupported(),
    {
        unsupported()
    }

    pub fn is_read_vectored(&self) -> (r: bool)
        ensures
            r == false,
    {
        false
    }

    pub fn read_buf(&self, cursor: &mut BorrowedCursor) -> (r: Result<(), IoError>)
        ensures
            r is Err && r->Err_0.is_unsupported(),
            *final(cursor) == *old(cursor),
    {
        unsupported()
    }

    pub fn read_at(&self, buf: &mut [u8], _offset: u64) -> (r: Result<usize, IoError>)
        ensures
            r is Err && r->Err_0.is_unsupported(),
            final(buf)@ == old(buf)@,
    {
        unsupported()
    }

    pub fn write(&self, _buf: &[u8]) -> (r: Result<usize, IoError>)
        ensures
            r is Err && r->Err_0.is_unsupported(),
    {
        unsupported()
    }

    pub fn write_vectored(&self, _bufs: &[IoSlice<'_>]) -> (r: Result<usize, IoError>)
        ensures
            r is Err && r->Err_0.is_unsupported(),
    {
        unsupported()
    }

    pub fn is_write_vectored(&self) -> (r: bool)
        ensures
            r == false,
    {
        false
    }

    pub fn write_at(&self, _buf: &[u8], _offset: u64) -> (r: Result<usize, IoError>)
        ensures
            r is Err && r->Err_0.is_unsupported(),
    {
        unsupported()
    }

    pub fn flush(&self) -> (r: Result<(), IoError>)
        ensures
            r is Err && r->Err_0.is_unsupported(),
    {
        unsupported()
    }

    pub fn seek(&self, _pos: SeekFrom) -> (r: Result<u64, IoError>)
        ensures
            r is Err && r->Err_0.is_unsupported(),
    {
        unsupported()
    }

    pub fn duplicate(&self) -> (r: Result<File, IoError>)
        ensures
            r is Err && r->Err_0.is_unsupported(),
    {
        unsupported()
    }

    pub fn set_permissions(&self, _perm: FilePermissions) -> (r: Result<(), IoError>)
        ensures
            r is Err && r->Err_0.is_unsupported(),
    {
        unsupported()
    }

    pub fn set_times(&self, _times: FileTimes) -> (r: Result<(), IoError>)
        ensures
            r is Err && r->Err_0.is_unsupported(),
    {
        unsupported()
    }
}

/// A directory-creation builder; inert configuration on this platform.
#[derive(Debug)]
pub struct DirBuilder {}

impl DirBuilder {
    pub fn new() -> (b: DirBuilder) {
        DirBuilder {}
    }

    pub fn mkdir(&self, _p: &str) -> (r: Result<(), IoError>)
        ensures
            r is Err && r->Err_0.is_unsupported(),
    {
        unsupported()
    }

    pub fn set_mode(&mut self, _mode: u32)
        ensures
            *final(self) == *old(self),
    {
    }
}

pub fn readdir(_p: &str) -> (r: Result<ReadDir, IoError>)
    ensures
        r is Err && r->Err_0.is_unsupported(),
{
    unsupported()
}

pub fn unlink(_p: &str) -> (r: Result<(), IoError>)
    ensures
        r is Err && r->Err_0.is_unsupported(),
{
    unsupported()
}

pub fn rename(_old_path: &str, _new_path: &str) -> (r: Result<(), IoError>)
    ensures
        r is Err && r->Err_0.is_unsupported(),
{
    unsupported()
}

pub fn set_perm(_p: &str, _perm: FilePermissions) -> (r: Result<(), IoError>)
    ensures
        r is Err && r->Err_0.is_unsupported(),
{
    unsupported()
}

pub fn rmdir(_p: &str) -> (r: Result<(), IoError>)
    ensures
        r is Err && r->Err_0.is_unsupported(),
{
    unsupported()
}

pub fn remove_dir_all(_path: &str) -> (r: Result<(), IoError>)
    ensures
        r is Err && r->Err_0.is_unsupported(),
{
    unsupported()
}

pub fn try_exists(_path: &str) -> (r: Result<bool, IoError>)
    ensures
        r is Err && r->Err_0.is_unsupported(),
{
    unsupported()
}

pub fn readlink(_p: &str) -> (r: Result<String, IoError>)
    ensures
        r is Err && r->Err_0.is_unsupported(),
{
    unsupported()
}

pub fn symlink(_original: &str, _link: &str) -> (r: Result<(), IoError>)
    ensures
        r is Err && r->Err_0.is_unsupported(),
{
    unsupported()
}

pub fn link(_src: &str, _dst: &str) -> (r: Result<(), IoError>)
    ensures
        r is Err && r->Err_0.is_unsupported(),
{
    unsupported()
}

pub fn stat(_p: &str) -> (r: Result<FileAttr, IoError>)
    ensures
        r is Err && r->Err_0.is_unsupported(),
{
    unsupported()
}

pub fn lstat(_p: &str) -> (r: Result<FileAttr, IoError>)
    ensures
        r is Err && r->Err_0.is_unsupported(),
{
    unsupported()
}

pub fn canonicalize(_p: &str) -> (r: Result<String, IoError>)
    ensures
        r is Err && r->Err_0.is_unsupported(),
{
    unsupported()
}

pub fn copy(_from: &str, _to: &str) -> (r: Result<u64, IoError>)
    ensures
        r is Err && r->Err_0.is_unsupported(),
{
    unsupported()
}

pub fn chown(_path: &str, _uid: u32, _gid: u32) -> (r: Result<(), IoError>)
    ensures
        r is Err && r->Err_0.is_unsupported(),
{
    unsupported()
}

pub fn fchown(_fd: i32, _uid: u32, _gid: u32) -> (r: Result<(), IoError>)
    ensures
        r is Err && r->Err_0.is_unsupported(),
{
    unsupported()
}

pub fn lchown(_path: &str, _uid: u32, _gid: u32) -> (r: Result<(), IoError>)
    ensures
        r is Err && r->Err_0.is_unsupported(),
{
    unsupported()
}

pub fn chroot(_dir: &str) -> (r: Result<(), IoError>)
    ensures
        r is Err && r->Err_0.is_unsupported(),
{
    unsupported()
}

} // verus!
