use vstd::prelude::*;

use crate::compat::ABI;

verus! {

/// Every file system access right that this library knows of.
pub const ACCESS_FS_ALL: u64 = 0x7fff;

/// Execute a file.
pub const ACCESS_FS_EXECUTE: u64 = 0x1;

/// Open a file with write access.
pub const ACCESS_FS_WRITE_FILE: u64 = 0x2;

/// Open a file with read access.
pub const ACCESS_FS_READ_FILE: u64 = 0x4;

/// Open a directory or list its content.
pub const ACCESS_FS_READ_DIR: u64 = 0x8;

/// Remove an empty directory or rename one.
pub const ACCESS_FS_REMOVE_DIR: u64 = 0x10;

/// Unlink (or rename) a file.
pub const ACCESS_FS_REMOVE_FILE: u64 = 0x20;

/// Create (or rename or link) a character device.
pub const ACCESS_FS_MAKE_CHAR: u64 = 0x40;

/// Create (or rename) a directory.
pub const ACCESS_FS_MAKE_DIR: u64 = 0x80;

/// Create (or rename or link) a regular file.
pub const ACCESS_FS_MAKE_REG: u64 = 0x100;

/// Create (or rename or link) a UNIX domain socket.
pub const ACCESS_FS_MAKE_SOCK: u64 = 0x200;

/// Create (or rename or link) a named pipe.
pub const ACCESS_FS_MAKE_FIFO: u64 = 0x400;

/// Create (or rename or link) a block device.
pub const ACCESS_FS_MAKE_BLOCK: u64 = 0x800;

/// Create (or rename or link) a symbolic link.
pub const ACCESS_FS_MAKE_SYM: u64 = 0x1000;

/// Link or rename a file from or to a different directory (second ABI).
pub const ACCESS_FS_REFER: u64 = 0x2000;

/// Truncate a file (third ABI).
pub const ACCESS_FS_TRUNCATE: u64 = 0x4000;

/// The file system access rights that the kernel ABI `abi` supports.
pub open spec fn access_fs_for(abi: ABI) -> u64 {
    match abi {
        ABI::Unsupported => 0,
        ABI::V1 => 0x1fff,
        ABI::V2 => 0x3fff,
        ABI::V3 => 0x7fff,
    }
}

/// A set of file system access rights, one bit each.
#[derive(Debug, Clone, Copy, PartialEq, Eq, Structural)]
pub struct AccessFs {
    pub bits: u64,
}

impl AccessFs {
    /// The set with the rights of `bits`, known or not.
    pub fn from_bits(bits: u64) -> (r: AccessFs)
        ensures
            r.bits == bits,
    {
        AccessFs { bits }
    }

    /// The empty set.
    pub fn empty() -> (r: AccessFs)
        ensures
            r.bits == 0,
    {
        AccessFs { bits: 0 }
    }

    /// Every access right that this library knows of.
    pub fn all() -> (r: AccessFs)
        ensures
            r.bits == ACCESS_FS_ALL,
    {
        AccessFs { bits: ACCESS_FS_ALL }
    }

    /// Every access right that the kernel ABI `abi` supports.
    pub fn from_all(abi: ABI) -> (r: AccessFs)
        ensures
            r.bits == access_fs_for(abi),
    {
        let bits: u64 = match abi {
            ABI::Unsupported => 0,
            ABI::V1 => 0x1fff,
            ABI::V2 => 0x3fff,
            ABI::V3 => 0x7fff,
        };
        AccessFs { bits }
    }

    /// The raw bits of the set.
    pub fn bits(&self) -> (r: u64)
        ensures
            r == self.bits,
    {
        self.bits
    }

    /// The set of both sets' rights.
    pub fn union(self, other: AccessFs) -> (r: AccessFs)
        ensures
            r.bits == self.bits | other.bits,
    {
        AccessFs { bits: self.bits | other.bits }
    }

    /// Whether every right of `other` is in this set.
    pub fn contains(&self, other: AccessFs) -> (r: bool)
        ensures
            r == (self.bits & other.bits == other.bits),
    {
        self.bits & other.bits == other.bits
    }

    /// Whether the set holds no right.
    pub fn is_empty(&self) -> (r: bool)
        ensures
            r == (self.bits == 0),
    {
        self.bits == 0
    }
}

/// Why a requested set of access rights is not, or not fully, usable.
#[derive(Debug, Clone, Copy, PartialEq, Eq, Structural)]
pub enum CompatError {
    /// The set holds no access right.
    Empty,
    /// The set holds bits that stand for no known access right.
    Unknown { access: u64, unknown: u64 },
    /// The running kernel supports none of the requested rights.
    Incompatible { access: u64 },
    /// The running kernel supports only some of the requested rights.
    PartiallyCompatible { access: u64, incompatible: u64 },
}

} // verus!
