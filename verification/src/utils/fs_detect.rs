//! Filesystem classification by `statfs(2)` magic number.

use vstd::prelude::*;

verus! {

/// All filesystem types Recoil recognises via statfs(2) magic numbers.
#[derive(Debug, Clone, Copy, PartialEq, Eq, Structural)]
pub enum FilesystemType {
    Ext4,
    Btrfs,
    Xfs,
    Zfs,
    F2fs,
    Tmpfs,
    Proc,
    Sysfs,
    Devtmpfs,
    Unknown(i64),
}

/// The mechanism the scanner uses to populate the root mirror.
#[derive(Debug, Clone, Copy, PartialEq, Eq, Structural)]
pub enum LinkStrategy {
    /// POSIX hard link — near-zero space overhead, same filesystem required.
    HardLink,
    /// ioctl(FICLONE) copy-on-write reflink — zero space until modified.
    Reflink,
}

/// Btrfs, XFS and ZFS support copy-on-write reflinks.
pub open spec fn supports_reflink(fs: FilesystemType) -> bool {
    fs == FilesystemType::Btrfs || fs == FilesystemType::Xfs || fs == FilesystemType::Zfs
}

/// Runtime-only virtual filesystems.
pub open spec fn virtual_fs(fs: FilesystemType) -> bool {
    fs == FilesystemType::Tmpfs || fs == FilesystemType::Proc || fs == FilesystemType::Sysfs || fs
        == FilesystemType::Devtmpfs
}

pub open spec fn fs_display_name(fs: FilesystemType) -> Seq<char> {
    match fs {
        FilesystemType::Ext4 => "ext4"@,
        FilesystemType::Btrfs => "btrfs"@,
        FilesystemType::Xfs => "xfs"@,
        FilesystemType::Zfs => "zfs"@,
        FilesystemType::F2fs => "f2fs"@,
        FilesystemType::Tmpfs => "tmpfs"@,
        FilesystemType::Proc => "proc"@,
        FilesystemType::Sysfs => "sysfs"@,
        FilesystemType::Devtmpfs => "devtmpfs"@,
        FilesystemType::Unknown(_) => "unknown"@,
    }
}

impl FilesystemType {
    /// Linking strategy the scanner uses for this filesystem.
    /// Btrfs, XFS, and ZFS support ioctl(FICLONE) copy-on-write reflinks.
    /// All others fall back to POSIX hard links.
    pub fn link_strategy(&self) -> (s: LinkStrategy)
        ensures
            s == (if supports_reflink(*self) { LinkStrategy::Reflink } else { LinkStrategy::HardLink }),
    {
        match self {
            FilesystemType::Btrfs | FilesystemType::Xfs | FilesystemType::Zfs => LinkStrategy::Reflink,
            _ => LinkStrategy::HardLink,
        }
    }

    /// Returns true for runtime-only virtual filesystems that hold no
    /// persistent data worth mirroring.
    pub fn is_virtual(&self) -> (r: bool)
        ensures
            r == virtual_fs(*self),
    {
        match self {
            FilesystemType::Tmpfs | FilesystemType::Proc | FilesystemType::Sysfs
            | FilesystemType::Devtmpfs => true,
            _ => false,
        }
    }

    /// Short display name used in setup output.
    pub fn display_name(&self) -> (r: &'static str)
        ensures
            r@ == fs_display_name(*self),
    {
        match self {
            FilesystemType::Ext4 => "ext4",
            FilesystemType::Btrfs => "btrfs",
            FilesystemType::Xfs => "xfs",
            FilesystemType::Zfs => "zfs",
            FilesystemType::F2fs => "f2fs",
            FilesystemType::Tmpfs => "tmpfs",
            FilesystemType::Proc => "proc",
            FilesystemType::Sysfs => "sysfs",
            FilesystemType::Devtmpfs => "devtmpfs",
            FilesystemType::Unknown(_) => "unknown",
        }
    }

    /// Parenthetical CoW note shown in `recoil setup` output, e.g.
    /// `btrfs (CoW supported)`. Returns an empty string for non-CoW types.
    pub fn cow_note(&self) -> (r: &'static str)
        ensures
            r@ == (if supports_reflink(*self) { "(CoW supported)"@ } else { ""@ }),
    {
        match self {
            FilesystemType::Btrfs | FilesystemType::Xfs | FilesystemType::Zfs => "(CoW supported)",
            _ => "",
        }
    }

    /// The filesystem type that a `statfs(2)` magic number denotes
    /// (the computation behind detecting the filesystem at a path).
    pub fn from_magic(magic: i64) -> (fs: FilesystemType)
        ensures
            fs == fs_of_magic(magic),
    {
        if magic == EXT4_MAGIC {
            FilesystemType::Ext4
        } else if magic == BTRFS_MAGIC {
            FilesystemType::Btrfs
        } else if magic == XFS_MAGIC {
            FilesystemType::Xfs
        } else if magic == ZFS_MAGIC {
            FilesystemType::Zfs
        } else if magic == F2FS_MAGIC {
            FilesystemType::F2fs
        } else if magic == TMPFS_MAGIC {
            FilesystemType::Tmpfs
        } else if magic == PROC_MAGIC {
            FilesystemType::Proc
        } else if magic == SYSFS_MAGIC {
            FilesystemType::Sysfs
        } else if magic == DEVTMPFS_MAGIC {
            FilesystemType::Devtmpfs
        } else {
            FilesystemType::Unknown(magic)
        }
    }
}

impl LinkStrategy {
    /// The phrase under which the strategy is displayed.
    pub fn label(&self) -> (r: &'static str)
        ensures
            r@ == (match *self {
                LinkStrategy::HardLink => "hard link strategy"@,
                LinkStrategy::Reflink => "reflink strategy (CoW)"@,
            }),
    {
        match self {
            LinkStrategy::HardLink => "hard link strategy",
            LinkStrategy::Reflink => "reflink strategy (CoW)",
        }
    }
}

// ── Magic numbers, from Linux <linux/magic.h> ────────────────────────────────
// The kernel reports them as a signed 32-bit `f_type`, widened to i64.

pub const EXT4_MAGIC: i64 = 0xEF53;
/// 0x9123683E read as a signed 32-bit value.
pub const BTRFS_MAGIC: i64 = -1859950530;
pub const XFS_MAGIC: i64 = 0x58465342;
pub const ZFS_MAGIC: i64 = 0x2FC12FC1;
/// 0xF2F52010 read as a signed 32-bit value.
pub const F2FS_MAGIC: i64 = -218816496;
pub const TMPFS_MAGIC: i64 = 0x01021994;
pub const PROC_MAGIC: i64 = 0x9FA0;
pub const SYSFS_MAGIC: i64 = 0x62656572;
pub const DEVTMPFS_MAGIC: i64 = 0x1373;

pub open spec fn fs_of_magic(magic: i64) -> FilesystemType {
    if magic == EXT4_MAGIC {
        FilesystemType::Ext4
    } else if magic == BTRFS_MAGIC {
        FilesystemType::Btrfs
    } else if magic == XFS_MAGIC {
        FilesystemType::Xfs
    } else if magic == ZFS_MAGIC {
        FilesystemType::Zfs
    } else if magic == F2FS_MAGIC {
        FilesystemType::F2fs
    } else if magic == TMPFS_MAGIC {
        FilesystemType::Tmpfs
    } else if magic == PROC_MAGIC {
        FilesystemType::Proc
    } else if magic == SYSFS_MAGIC {
        FilesystemType::Sysfs
    } else if magic == DEVTMPFS_MAGIC {
        FilesystemType::Devtmpfs
    } else {
        FilesystemType::Unknown(magic)
    }
}

/// The `statfs(2)` magic numbers of `<linux/magic.h>` each name their own
/// filesystem, and every other number is reported as unknown, carrying the
/// number: ext4 0xEF53, btrfs 0x9123683E, xfs 0x58465342, zfs 0x2FC12FC1,
/// f2fs 0xF2F52010 (the last two of these as signed 32-bit values), tmpfs
/// 0x01021994, proc 0x9FA0, sysfs 0x62656572, devtmpfs 0x1373. Of the
/// recognised disk filesystems, btrfs, xfs and zfs are mirrored by reflink
/// and the others by hard link.
pub proof fn lemma_magic_numbers(magic: i64)
    ensures
        fs_of_magic(magic) == FilesystemType::Ext4 <==> magic == 0xEF53,
        fs_of_magic(magic) == FilesystemType::Btrfs <==> magic == -1859950530,
        fs_of_magic(magic) == FilesystemType::Xfs <==> magic == 0x58465342,
        fs_of_magic(magic) == FilesystemType::Zfs <==> magic == 0x2FC12FC1,
        fs_of_magic(magic) == FilesystemType::F2fs <==> magic == -218816496,
        fs_of_magic(magic) == FilesystemType::Tmpfs <==> magic == 0x01021994,
        fs_of_magic(magic) == FilesystemType::Proc <==> magic == 0x9FA0,
        fs_of_magic(magic) == FilesystemType::Sysfs <==> magic == 0x62656572,
        fs_of_magic(magic) == FilesystemType::Devtmpfs <==> magic == 0x1373,
        fs_of_magic(magic) is Unknown <==> (magic != 0xEF53 && magic != -1859950530 && magic
            != 0x58465342 && magic != 0x2FC12FC1 && magic != -218816496 && magic != 0x01021994
            && magic != 0x9FA0 && magic != 0x62656572 && magic != 0x1373),
        fs_of_magic(magic) matches FilesystemType::Unknown(m) ==> m == magic,
        supports_reflink(fs_of_magic(magic)) <==> (magic == -1859950530 || magic == 0x58465342
            || magic == 0x2FC12FC1),
{
}

/// Bytes available to unprivileged processes, from the `statfs(2)` block
/// count and block size; `None` where the product does not fit in 64 bits.
pub fn available_from(blocks_available: u64, block_size: i64) -> (r: Option<u64>)
    ensures
        match r {
            Some(b) => b == blocks_available * abs_of(block_size),
            None => blocks_available * abs_of(block_size) > u64::MAX,
        },
{
    let size: u64 = if block_size >= 0 {
        block_size as u64
    } else if block_size == i64::MIN {
        0x8000_0000_0000_0000u64
    } else {
        (-block_size) as u64
    };
    blocks_available.checked_mul(size)
}

pub open spec fn abs_of(x: i64) -> int {
    if x >= 0 { x as int } else { -(x as int) }
}

} // verus!
