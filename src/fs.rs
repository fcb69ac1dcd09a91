//! Files as the C library knows them: a descriptor, and the metadata that
//! `stat` reports. Reading and writing happen outside this library.
use crate::sys::ErrorKind;
use vstd::prelude::*;

verus! {

/// An open file descriptor of the C library.
#[derive(PartialEq, Eq, Structural, Debug)]
pub struct FileDesc {
    fd: i32,
}

impl FileDesc {
    pub closed spec fn spec_raw(&self) -> i32 {
        self.fd
    }

    pub fn new(fd: i32) -> (r: FileDesc)
        ensures
            r.spec_raw() == fd,
    {
        FileDesc { fd }
    }

    pub fn raw(&self) -> (r: i32)
        ensures
            r == self.spec_raw(),
    {
        self.fd
    }
}

/// An open file.
pub struct File(FileDesc);

impl File {
    pub closed spec fn desc(&self) -> FileDesc {
        self.0
    }

    pub fn from_fd(fd: FileDesc) -> (r: File)
        ensures
            r.desc() == fd,
    {
        File(fd)
    }

    /// Writes go straight to the file system here: there is nothing to sync.
    pub fn fsync(&self) -> (r: Result<(), ErrorKind>)
        ensures
            r is Ok,
    {
        Ok(())
    }

    /// As [`File::fsync`]: there is nothing to sync.
    pub fn datasync(&self) -> (r: Result<(), ErrorKind>)
        ensures
            r is Ok,
    {
        Ok(())
    }

    /// Nothing is buffered: flushing always succeeds.
    pub fn flush(&self) -> (r: Result<(), ErrorKind>)
        ensures
            r is Ok,
    {
        Ok(())
    }

    pub fn fd(&self) -> (r: &FileDesc)
        ensures
            *r == self.desc(),
    {
        &self.0
    }

    pub fn into_fd(self) -> (r: FileDesc)
        ensures
            r == self.desc(),
    {
        self.0
    }
}

/// A point in time, in whole seconds since the epoch.
#[derive(PartialEq, Eq, Structural, Clone, Copy, Debug, Hash)]
pub struct SystemTime {
    pub secs: u32,
}

/// The metadata of a file, as `stat` reports it.
#[derive(PartialEq, Eq, Structural, Clone, Copy, Debug)]
pub struct FileAttr {
    pub st_size: u32,
    pub st_mode: u32,
    pub st_atime: u32,
    pub st_mtime: u32,
    pub st_ctime: u32,
}

impl FileAttr {
    pub fn perm(&self) -> (r: FilePermissions)
        ensures
            r.spec_mode() == self.st_mode,
    {
        FilePermissions { mode: self.st_mode }
    }

    pub fn file_type(&self) -> (r: FileType)
        ensures
            r.spec_mode() == self.st_mode,
    {
        FileType { mode: self.st_mode }
    }

    pub fn size(&self) -> (r: u64)
        ensures
            r == self.st_size,
    {
        self.st_size as u64
    }

    pub fn modified(&self) -> (r: Result<SystemTime, ErrorKind>)
        ensures
            r == Ok::<SystemTime, ErrorKind>(SystemTime { secs: self.st_mtime }),
    {
        Ok(SystemTime { secs: self.st_mtime })
    }

    pub fn accessed(&self) -> (r: Result<SystemTime, ErrorKind>)
        ensures
            r == Ok::<SystemTime, ErrorKind>(SystemTime { secs: self.st_atime }),
    {
        Ok(SystemTime { secs: self.st_atime })
    }

    pub fn created(&self) -> (r: Result<SystemTime, ErrorKind>)
        ensures
            r == Ok::<SystemTime, ErrorKind>(SystemTime { secs: self.st_ctime }),
    {
        Ok(SystemTime { secs: self.st_ctime })
    }
}

/// The write bits of the owner, the group and the others.
pub const WRITE_BITS: u32 = 0o222;

/// The bits of a mode that give the file's type.
pub const S_IFMT: u32 = 0o170000;

/// The type bits of a directory.
pub const S_IFDIR: u32 = 0o040000;

/// The type bits of a regular file.
pub const S_IFREG: u32 = 0o100000;

/// A file's permission bits.
#[derive(Clone, PartialEq, Eq, Structural, Debug)]
pub struct FilePermissions {
    mode: u32,
}

impl FilePermissions {
    pub closed spec fn spec_mode(&self) -> u32 {
        self.mode
    }

    pub fn from_mode(mode: u32) -> (r: FilePermissions)
        ensures
            r.spec_mode() == mode,
    {
        FilePermissions { mode }
    }

    /// No class (owner, group, others) may write.
    pub fn readonly(&self) -> (r: bool)
        ensures
            r == (self.spec_mode() & WRITE_BITS == 0),
    {
        self.mode & WRITE_BITS == 0
    }

    /// Removes the write permission of every class, or grants it to every class.
    pub fn set_readonly(&mut self, readonly: bool)
        ensures
            final(self).spec_mode() == if readonly {
                old(self).spec_mode() & !WRITE_BITS
            } else {
                old(self).spec_mode() | WRITE_BITS
            },
    {
        if readonly {
            self.mode = self.mode & !WRITE_BITS;
        } else {
            self.mode = self.mode | WRITE_BITS;
        }
    }

    pub fn mode(&self) -> (r: u32)
        ensures
            r == self.spec_mode(),
    {
        self.mode
    }
}

/// A file's type, as the type bits of its mode give it.
#[derive(Copy, Clone, PartialEq, Eq, Structural, Hash, Debug)]
pub struct FileType {
    mode: u32,
}

impl FileType {
    pub closed spec fn spec_mode(&self) -> u32 {
        self.mode
    }

    /// The type bits are exactly `mode`.
    pub fn is(self, mode: u32) -> (r: bool)
        ensures
            r == (self.spec_mode() & S_IFMT == mode),
    {
        self.mode & S_IFMT == mode
    }

    pub fn is_dir(self) -> (r: bool)
        ensures
            r == (self.spec_mode() & S_IFMT == S_IFDIR),
    {
        self.is(S_IFDIR)
    }

    pub fn is_file(self) -> (r: bool)
        ensures
            r == (self.spec_mode() & S_IFMT == S_IFREG),
    {
        self.is(S_IFREG)
    }
}

/// How a file is to be opened.
#[derive(Clone, Debug)]
pub struct OpenOptions {
    pub read: bool,
    pub write: bool,
    pub append: bool,
    pub truncate: bool,
    pub create: bool,
    pub create_new: bool,
    pub custom_flags: i32,
    pub mode: u32,
}

/// The C library's mode string for the options: appending, writing and
/// reading decide it, creating only tells "w+" from "r+".
pub open spec fn mode_string(append: bool, write: bool, read: bool, create: bool) -> &'static str {
    if append && read {
        "a+"
    } else if append {
        "a"
    } else if write && read && create {
        "w+"
    } else if write && read {
        "r+"
    } else if write {
        "w"
    } else {
        "r"
    }
}

impl OpenOptions {
    /// Every option off.
    pub fn new() -> (r: OpenOptions)
        ensures
            !r.read && !r.write && !r.append && !r.truncate && !r.create && !r.create_new,
            r.custom_flags == 0,
            r.mode == 0,
    {
        OpenOptions {
            read: false,
            write: false,
            append: false,
            truncate: false,
            create: false,
            create_new: false,
            custom_flags: 0,
            mode: 0,
        }
    }

    /// The mode string handed to the C library when the file is opened.
    pub fn c_mode(&self) -> (r: &'static str)
        ensures
            r == mode_string(self.append, self.write, self.read, self.create),
    {
        if self.append && self.read {
            "a+"
        } else if self.append {
            "a"
        } else if self.write && self.read && self.create {
            "w+"
        } else if self.write && self.read {
            "r+"
        } else if self.write {
            "w"
        } else {
            "r"
        }
    }
}

} // verus!
