use alpaca_extfs::inode::{ext2_ino_to_fuse, fuse_ino_to_ext2, EXT2_ROOT_INO, FUSE_ROOT_ID};

#[test]
fn fuse_root_and_ext2_root_correspond() {
    assert_eq!(fuse_ino_to_ext2(FUSE_ROOT_ID), EXT2_ROOT_INO);
    assert_eq!(ext2_ino_to_fuse(EXT2_ROOT_INO), FUSE_ROOT_ID);
    assert_eq!(fuse_ino_to_ext2(1), 2);
    assert_eq!(ext2_ino_to_fuse(2), 1);
}

#[test]
fn other_inodes_pass_through() {
    assert_eq!(fuse_ino_to_ext2(12), 12);
    assert_eq!(ext2_ino_to_fuse(12), 12);
    assert_eq!(ext2_ino_to_fuse(u32::MAX), u32::MAX as u64);
    assert_eq!(fuse_ino_to_ext2(0), 0);
}

#[test]
fn fuse_inode_above_32_bits_keeps_low_bits() {
    assert_eq!(fuse_ino_to_ext2(0x1_0000_0005), 5);
}

#[test]
fn round_trips_outside_the_reserved_numbers() {
    for ino in [1u64, 3, 11, 4096, u32::MAX as u64] {
        assert_eq!(ext2_ino_to_fuse(fuse_ino_to_ext2(ino)), ino);
    }
    for ino in [2u32, 3, 11, 4096, u32::MAX] {
        assert_eq!(fuse_ino_to_ext2(ext2_ino_to_fuse(ino)), ino);
    }
    // FUSE inode 2 is the ext2 root's own number and comes back as the FUSE root.
    assert_eq!(ext2_ino_to_fuse(fuse_ino_to_ext2(2)), 1);
    // ext2 inode 1 is shown as the FUSE root and comes back as the ext2 root.
    assert_eq!(fuse_ino_to_ext2(ext2_ino_to_fuse(1)), 2);
}
