//! Mapping between FUSE inode numbers and ext2 inode numbers.
//!
//! FUSE names the root directory of a mount with inode 1, while ext2 keeps
//! its root directory in inode 2. Every other inode number is passed through.

use vstd::prelude::*;

verus! {

/// Inode number that FUSE gives the root of every mounted filesystem.
pub const FUSE_ROOT_ID: u64 = 1;

/// Inode number of the root directory in an ext2/ext3/ext4 filesystem.
pub const EXT2_ROOT_INO: u32 = 2;

/// The ext2 inode that a FUSE inode number stands for, as a mathematical function.
pub open spec fn spec_fuse_to_ext2(ino: u64) -> u32 {
    if ino == FUSE_ROOT_ID {
        EXT2_ROOT_INO
    } else {
        ino as u32
    }
}

/// The FUSE inode number under which an ext2 inode is shown.
pub open spec fn spec_ext2_to_fuse(ino: u32) -> u64 {
    if ino == EXT2_ROOT_INO {
        FUSE_ROOT_ID
    } else {
        ino as u64
    }
}

/// Maps a FUSE inode number to the ext2 inode it stands for. The FUSE root
/// becomes the ext2 root; other numbers keep their low 32 bits.
pub fn fuse_ino_to_ext2(ino: u64) -> (res: u32)
    ensures
        res == spec_fuse_to_ext2(ino),
        ino == FUSE_ROOT_ID ==> res == EXT2_ROOT_INO,
        ino != FUSE_ROOT_ID ==> res as int == ino as int % 0x1_0000_0000,
{
    if ino == FUSE_ROOT_ID {
        EXT2_ROOT_INO
    } else {
        assert((ino as u32) as int == ino as int % 0x1_0000_0000) by (bit_vector);
        ino as u32
    }
}

/// Maps an ext2 inode number to the number FUSE sees. The ext2 root becomes
/// the FUSE root; other numbers are widened unchanged.
pub fn ext2_ino_to_fuse(ino: u32) -> (res: u64)
    ensures
        res == spec_ext2_to_fuse(ino),
        ino == EXT2_ROOT_INO ==> res == FUSE_ROOT_ID,
        ino != EXT2_ROOT_INO ==> res == ino as u64,
{
    if ino == EXT2_ROOT_INO {
        FUSE_ROOT_ID
    } else {
        ino as u64
    }
}

/// The two roots correspond to each other in both directions.
pub proof fn lemma_roots_correspond()
    ensures
        spec_fuse_to_ext2(FUSE_ROOT_ID) == EXT2_ROOT_INO,
        spec_ext2_to_fuse(EXT2_ROOT_INO) == FUSE_ROOT_ID,
{
}

/// Going from FUSE to ext2 and back gives the same FUSE inode number, for
/// every FUSE inode number that fits in 32 bits and is not 2 (the ext2 root's
/// own number, which FUSE shows as 1).
pub proof fn lemma_fuse_ext2_round_trip(ino: u64)
    requires
        ino <= u32::MAX,
        ino != EXT2_ROOT_INO as u64,
    ensures
        spec_ext2_to_fuse(spec_fuse_to_ext2(ino)) == ino,
{
    if ino != FUSE_ROOT_ID {
        assert((ino as u32) as u64 == ino) by (bit_vector)
            requires
                ino <= u32::MAX,
        ;
    }
}

/// Going from ext2 to FUSE and back gives the same ext2 inode number, for
/// every ext2 inode number but 1 (which FUSE reserves for the root).
pub proof fn lemma_ext2_fuse_round_trip(ino: u32)
    requires
        ino != FUSE_ROOT_ID as u32,
    ensures
        spec_fuse_to_ext2(spec_ext2_to_fuse(ino)) == ino,
{
    if ino != EXT2_ROOT_INO {
        assert((ino as u64) as u32 == ino) by (bit_vector);
    }
}

/// Distinct ext2 inodes other than 1 are shown under distinct FUSE numbers.
pub proof fn lemma_ext2_to_fuse_injective(a: u32, b: u32)
    requires
        a != FUSE_ROOT_ID as u32,
        b != FUSE_ROOT_ID as u32,
        a != b,
    ensures
        spec_ext2_to_fuse(a) != spec_ext2_to_fuse(b),
{
    lemma_ext2_fuse_round_trip(a);
    lemma_ext2_fuse_round_trip(b);
}

} // verus!
