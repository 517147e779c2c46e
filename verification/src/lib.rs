//! Verified core of an ext2/ext3/ext4 filesystem driver exposed through FUSE.
//!
//! The library holds the decisions of the driver: how FUSE inode numbers map to
//! ext2 inode numbers, how on-disk inode records become file attributes, how
//! directory records are decoded and listed, how new inodes are initialised,
//! in which order each operation calls libext2fs and what it makes of each
//! failure, which mount arguments are passed on, and how error messages are
//! worded.
//! The calls into libext2fs and into the FUSE kernel channel are made by the
//! program around the library, which hands the results to these functions.

pub mod inode;
pub mod text;
pub mod ext2fs;
pub mod fuse;
pub mod mount;
pub mod ops;
