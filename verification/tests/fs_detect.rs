use recoil::utils::fs_detect::{available_from, FilesystemType, LinkStrategy};

#[test]
fn tmpfs_is_virtual() {
    assert!(FilesystemType::Tmpfs.is_virtual());
    assert!(FilesystemType::Proc.is_virtual());
    assert!(FilesystemType::Sysfs.is_virtual());
    assert!(FilesystemType::Devtmpfs.is_virtual());
}

#[test]
fn ext4_uses_hardlink() {
    assert_eq!(FilesystemType::Ext4.link_strategy(), LinkStrategy::HardLink);
}

#[test]
fn btrfs_uses_reflink() {
    assert_eq!(FilesystemType::Btrfs.link_strategy(), LinkStrategy::Reflink);
}

#[test]
fn xfs_uses_reflink() {
    assert_eq!(FilesystemType::Xfs.link_strategy(), LinkStrategy::Reflink);
}

// ── Further cases ────────────────────────────────────────────────────────────

#[test]
fn magic_numbers_map_to_types() {
    assert_eq!(FilesystemType::from_magic(0xEF53), FilesystemType::Ext4);
    assert_eq!(FilesystemType::from_magic(0x9123_683E_u32 as i32 as i64), FilesystemType::Btrfs);
    assert_eq!(FilesystemType::from_magic(0xF2F5_2010_u32 as i32 as i64), FilesystemType::F2fs);
    assert_eq!(FilesystemType::from_magic(0x5846_5342), FilesystemType::Xfs);
    assert_eq!(FilesystemType::from_magic(0x0102_1994), FilesystemType::Tmpfs);
    assert_eq!(FilesystemType::from_magic(42), FilesystemType::Unknown(42));
}

#[test]
fn names_and_notes() {
    assert_eq!(FilesystemType::Zfs.display_name(), "zfs");
    assert_eq!(FilesystemType::Unknown(7).display_name(), "unknown");
    assert_eq!(FilesystemType::Btrfs.cow_note(), "(CoW supported)");
    assert_eq!(FilesystemType::Ext4.cow_note(), "");
    assert!(!FilesystemType::Ext4.is_virtual());
    assert_eq!(FilesystemType::F2fs.link_strategy(), LinkStrategy::HardLink);
    assert_eq!(LinkStrategy::HardLink.label(), "hard link strategy");
    assert_eq!(LinkStrategy::Reflink.label(), "reflink strategy (CoW)");
}

#[test]
fn available_bytes_multiply_blocks_by_size() {
    assert_eq!(available_from(10, 4096), Some(40960));
    assert_eq!(available_from(10, -4096), Some(40960));
    assert_eq!(available_from(u64::MAX, 2), None);
    assert_eq!(available_from(0, i64::MIN), Some(0));
}
