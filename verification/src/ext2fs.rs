//! The ext2/ext3/ext4 side of the driver: what the driver reads from and
//! writes into inode records, how directory records become entries, and how
//! libext2fs error codes are worded.
//!
//! `Ext2FsHandle<F>` holds an open filesystem `F`, which only the program
//! around the library can make and use (through libext2fs). Each of its
//! operations is split there: the program performs the libext2fs call and
//! hands the result, as plain values, to the matching function here, which
//! decides what comes out.

use vstd::prelude::*;
use vstd::slice::slice_subrange;
use vstd::utf8::valid_utf8;
use vstd::utf8::decode_utf8;
use crate::inode::EXT2_ROOT_INO;
use crate::text::utf8_lossy;
use crate::text::REPLACEMENT_CHARACTER;
use crate::text::decode_utf8_lossy;
use crate::text::str_equal;
use crate::text::int_decimal;
use crate::text::i64_to_decimal;
use crate::text::contains_str;
use crate::text::contains_char;
use crate::text::starts_with_str;
use crate::text::starts_with_seq;
use crate::text::replace_str;

verus! {

/// `ext2fs_open` flag: open the filesystem for writing.
pub const EXT2_FLAG_RW: i32 = 0x01;

/// `ext2fs_open` flag: open even when the filesystem has unsupported features.
pub const EXT2_FLAG_FORCE: i32 = 0x400;

/// File-type bits of an inode mode.
pub const S_IFMT: u16 = 0o170000;

/// File-type bits of a directory.
pub const S_IFDIR: u16 = 0o040000;

/// File-type bits of a regular file.
pub const S_IFREG: u16 = 0o100000;

/// The libext2fs error code for a superblock whose magic number is wrong.
pub const EXT2_ET_BAD_MAGIC: i64 = 2133571347;

/// The fields of an on-disk ext2 inode record that the driver reads or writes.
#[derive(Debug, Clone, Copy, PartialEq, Eq, Structural)]
pub struct RawInode {
    pub i_mode: u16,
    pub i_uid: u16,
    pub i_size: u32,
    pub i_atime: u32,
    pub i_ctime: u32,
    pub i_mtime: u32,
    pub i_gid: u16,
    pub i_links_count: u16,
    pub i_blocks: u32,
    pub i_size_high: u32,
}

/// Attributes of one inode as the driver reports them. Times are whole
/// seconds since the Unix epoch.
#[derive(Debug, Clone, Copy, PartialEq, Eq, Structural)]
pub struct Ext2FileAttr {
    pub ino: u64,
    pub size: u64,
    pub blocks: u64,
    pub atime: u64,
    pub mtime: u64,
    pub ctime: u64,
    pub mode: u16,
    pub nlink: u32,
    pub uid: u32,
    pub gid: u32,
    pub is_dir: bool,
}

/// One record of a directory as libext2fs hands it over: the inode it
/// names, its combined name-length field (low byte: length of the name;
/// high byte: file type) and the bytes of its name buffer.
#[derive(Debug, Clone)]
pub struct RawDirEntry {
    pub inode: u32,
    pub name_len: u16,
    pub name: Vec<u8>,
}

impl View for RawDirEntry {
    type V = (u32, u16, Seq<u8>);

    open spec fn view(&self) -> (u32, u16, Seq<u8>) {
        (self.inode, self.name_len, self.name@)
    }
}

/// One entry of a directory listing: the inode it names, its name, and the
/// file type recorded in the directory (1 regular file, 2 directory,
/// 7 symbolic link, 0 unknown, ...).
#[derive(Debug, Clone)]
pub struct Ext2DirEntry {
    pub inode: u32,
    pub name: String,
    pub file_type: u8,
}

impl View for Ext2DirEntry {
    type V = (u32, Seq<char>, u8);

    open spec fn view(&self) -> (u32, Seq<char>, u8) {
        (self.inode, self.name@, self.file_type)
    }
}

/// The length of a record's name: the low byte of its name-length field.
pub open spec fn record_name_len(name_len: u16) -> int {
    (name_len & 0xFF) as int
}

/// The file type of a record: the high byte of its name-length field.
pub open spec fn record_file_type(name_len: u16) -> u8 {
    (name_len >> 8) as u8
}

/// A record's name buffer holds at least as many bytes as its name is long.
pub open spec fn record_well_formed(r: (u32, u16, Seq<u8>)) -> bool {
    record_name_len(r.1) <= r.2.len()
}

/// The entry that a directory record gives: none for a record with an empty
/// name or for the "." and ".." records; otherwise the record's inode, its
/// name decoded from UTF-8 (invalid sequences replaced) and its file type.
pub open spec fn decode_dir_record(r: (u32, u16, Seq<u8>)) -> Option<(u32, Seq<char>, u8)> {
    let n = record_name_len(r.1);
    if n == 0 {
        None
    } else {
        let name = utf8_lossy(r.2.take(n));
        if name == seq!['.'] || name == seq!['.', '.'] {
            None
        } else {
            Some((r.0, name, record_file_type(r.1)))
        }
    }
}

/// The entries that a sequence of directory records gives, in record order.
pub open spec fn decode_dir_records(rs: Seq<(u32, u16, Seq<u8>)>) -> Seq<(u32, Seq<char>, u8)>
    decreases rs.len(),
{
    if rs.len() == 0 {
        Seq::empty()
    } else {
        let rest = decode_dir_records(rs.drop_last());
        match decode_dir_record(rs.last()) {
            Some(e) => rest.push(e),
            None => rest,
        }
    }
}

/// The decoded form of `bytes` holds a replacement character.
pub open spec fn lossy_replaced(bytes: Seq<u8>) -> bool {
    exists|i: int| 0 <= i < utf8_lossy(bytes).len() && utf8_lossy(bytes)[i] == REPLACEMENT_CHARACTER
}

/// A record whose name is not empty and decodes with a replacement
/// character (as every name that is not valid UTF-8 does) is listed, under
/// that decoded name: it is never taken for "." or "..".
pub proof fn lemma_replaced_name_is_listed(r: (u32, u16, Seq<u8>))
    requires
        record_name_len(r.1) > 0,
        lossy_replaced(r.2.take(record_name_len(r.1))),
    ensures
        decode_dir_record(r) == Some((r.0, utf8_lossy(r.2.take(record_name_len(r.1))), record_file_type(r.1))),
{
    let name = utf8_lossy(r.2.take(record_name_len(r.1)));
    let i = choose|i: int| 0 <= i < name.len() && name[i] == REPLACEMENT_CHARACTER;
    if name == seq!['.'] {
        assert(name[i] == '.');
    }
    if name == seq!['.', '.'] {
        assert(name[i] == '.');
    }
}

/// No entry of a decoded directory is "." or "..".
pub proof fn lemma_no_dot_entries(rs: Seq<(u32, u16, Seq<u8>)>)
    ensures
        forall|i: int| 0 <= i < decode_dir_records(rs).len() ==> {
            &&& #[trigger] decode_dir_records(rs)[i].1 != seq!['.']
            &&& decode_dir_records(rs)[i].1 != seq!['.', '.']
        },
    decreases rs.len(),
{
    if rs.len() > 0 {
        let rest = decode_dir_records(rs.drop_last());
        lemma_no_dot_entries(rs.drop_last());
        let all = decode_dir_records(rs);
        assert forall|i: int| 0 <= i < all.len() implies {
            &&& #[trigger] all[i].1 != seq!['.']
            &&& all[i].1 != seq!['.', '.']
        } by {
            if i < rest.len() {
                assert(all[i] == rest[i]);
            }
        }
    }
}

/// The text of a libext2fs error: the message that the error table gives,
/// or "Error code N" when it gives none.
pub open spec fn error_table_text(retval: i64, raw_msg: Option<Seq<char>>) -> Seq<char> {
    match raw_msg {
        Some(m) => m,
        None => "Error code "@ + int_decimal(retval as int),
    }
}

/// The superblock counters that `statfs` reads.
#[derive(Debug, Clone, Copy, PartialEq, Eq, Structural)]
pub struct SuperblockCounts {
    pub blocks_count: u64,
    pub free_blocks_count: u64,
    pub r_blocks_count: u64,
    pub inodes_count: u32,
    pub free_inodes_count: u32,
    pub log_block_size: u32,
}

/// Filesystem statistics in the form that FUSE reports them.
#[derive(Debug, Clone, Copy, PartialEq, Eq, Structural)]
pub struct StatFs {
    pub blocks: u64,
    pub bfree: u64,
    pub bavail: u64,
    pub files: u64,
    pub ffree: u64,
    pub bsize: u32,
    pub namelen: u32,
    pub frsize: u32,
}

/// Largest block-size exponent that libext2fs accepts when it opens a
/// filesystem (block sizes from 1 KiB up to 64 KiB).
pub const MAX_LOG_BLOCK_SIZE: u32 = 6;

/// Longest file name that an ext2 directory record can hold.
pub const EXT2_NAME_LEN: u32 = 255;

/// The statistics of a filesystem with superblock counters `sb`: all its
/// blocks and inodes, the free ones, and as available the free blocks beyond
/// those reserved for the superuser (none when fewer are free); the block
/// size is 1024 shifted by the superblock's exponent.
pub open spec fn statfs_of(sb: SuperblockCounts) -> StatFs {
    StatFs {
        blocks: sb.blocks_count,
        bfree: sb.free_blocks_count,
        bavail: if sb.free_blocks_count >= sb.r_blocks_count {
            (sb.free_blocks_count - sb.r_blocks_count) as u64
        } else {
            0
        },
        files: sb.inodes_count as u64,
        ffree: sb.free_inodes_count as u64,
        bsize: (1024 * vstd::arithmetic::power2::pow2(sb.log_block_size as nat)) as u32,
        namelen: EXT2_NAME_LEN,
        frsize: (1024 * vstd::arithmetic::power2::pow2(sb.log_block_size as nat)) as u32,
    }
}

/// The mode of an inode says it is a directory.
pub open spec fn mode_is_dir(mode: u16) -> bool {
    (mode & S_IFMT) == S_IFDIR
}

/// The 64-bit size stored in an inode's low and high size words.
pub open spec fn inode_size(inode: RawInode) -> int {
    inode.i_size as int + inode.i_size_high as int * 0x1_0000_0000
}

/// The attributes that `get_attr` reports for inode `ino` with record `inode`.
pub open spec fn attr_of(ino: u32, inode: RawInode) -> Ext2FileAttr {
    Ext2FileAttr {
        ino: ino as u64,
        size: inode_size(inode) as u64,
        blocks: inode.i_blocks as u64,
        atime: inode.i_atime as u64,
        mtime: inode.i_mtime as u64,
        ctime: inode.i_ctime as u64,
        mode: inode.i_mode,
        nlink: inode.i_links_count as u32,
        uid: inode.i_uid as u32,
        gid: inode.i_gid as u32,
        is_dir: mode_is_dir(inode.i_mode),
    }
}

/// The inode record that `create_file` writes for a new regular file: the
/// given permission bits marked as a regular file, one link, the low 16 bits
/// of the owner's ids, the three times set to `now` (taken modulo 2^32), and
/// every other field zero.
pub open spec fn new_file_record(mode: u16, uid: u32, gid: u32, now: u64) -> RawInode {
    RawInode {
        i_mode: mode | S_IFREG,
        i_uid: (uid as int % 0x10000) as u16,
        i_size: 0,
        i_atime: (now as int % 0x1_0000_0000) as u32,
        i_ctime: (now as int % 0x1_0000_0000) as u32,
        i_mtime: (now as int % 0x1_0000_0000) as u32,
        i_gid: (gid as int % 0x10000) as u16,
        i_links_count: 1,
        i_blocks: 0,
        i_size_high: 0,
    }
}

/// An open ext2/ext3/ext4 filesystem `fs`, with the decisions that the
/// driver takes around each libext2fs call on it.
pub struct Ext2FsHandle<F> {
    fs: F,
}

impl<F> Ext2FsHandle<F> {
    /// The filesystem that this handle holds.
    pub closed spec fn spec_fs(&self) -> F {
        self.fs
    }

    /// Wraps a filesystem opened by libext2fs.
    pub fn from_fs(fs: F) -> (h: Self)
        ensures
            h.spec_fs() == fs,
    {
        Ext2FsHandle { fs }
    }

    /// The filesystem that this handle holds.
    pub fn fs(&self) -> (r: &F)
        ensures
            *r == self.spec_fs(),
    {
        &self.fs
    }

    /// Gives the filesystem back so that it can be closed.
    pub fn into_fs(self) -> (r: F)
        ensures
            r == self.spec_fs(),
    {
        self.fs
    }

    /// The inode number of the root directory.
    pub fn root_ino() -> (r: u32)
        ensures
            r == EXT2_ROOT_INO,
    {
        EXT2_ROOT_INO
    }

    /// The flags handed to `ext2fs_open`: always forced, and writable unless
    /// the filesystem is opened read-only.
    pub fn open_flags(read_only: bool) -> (flags: i32)
        ensures
            flags == if read_only { EXT2_FLAG_FORCE } else { EXT2_FLAG_RW | EXT2_FLAG_FORCE },
            read_only ==> flags == 0x400,
            !read_only ==> flags == 0x401,
    {
        let rw: i32 = if read_only { 0 } else { EXT2_FLAG_RW };
        assert((0i32 | 0x400i32) == 0x400i32) by (bit_vector);
        assert((1i32 | 0x400i32) == 0x401i32) by (bit_vector);
        rw | EXT2_FLAG_FORCE
    }

    /// The inode that `namei` gives without asking libext2fs: the root
    /// directory for the path "/" and for the empty path, and no answer
    /// (so that the path is looked up) for every other path.
    pub fn namei_root(path: &str) -> (r: Option<u32>)
        ensures
            r == if path@.len() == 0 || path@ == seq!['/'] {
                Some(EXT2_ROOT_INO)
            } else {
                None::<u32>
            },
    {
        let len = path.unicode_len();
        if len == 0 {
            Some(EXT2_ROOT_INO)
        } else if len == 1 && path.get_char(0) == '/' {
            assert(path@ =~= seq!['/']);
            Some(EXT2_ROOT_INO)
        } else {
            assert(len == 1 ==> path@[0] != '/' ==> path@ != seq!['/']);
            None
        }
    }

    /// The attributes of inode `ino`, whose record libext2fs read as `inode`:
    /// the size joins the low and high size words, the times are the
    /// record's seconds, and the inode is a directory exactly when the
    /// file-type bits of its mode say so.
    pub fn get_attr(&self, ino: u32, inode: &RawInode) -> (attr: Ext2FileAttr)
        ensures
            attr == attr_of(ino, *inode),
    {
        let lo = inode.i_size as u64;
        let hi = inode.i_size_high as u64;
        let size = lo | (hi << 32u64);
        assert(lo <= u32::MAX && hi <= u32::MAX ==> (lo | (hi << 32u64)) == lo + hi * 0x1_0000_0000)
            by (bit_vector);
        let mode = inode.i_mode;
        let is_dir = (mode & S_IFMT) == S_IFDIR;
        Ext2FileAttr {
            ino: ino as u64,
            size,
            blocks: inode.i_blocks as u64,
            atime: inode.i_atime as u64,
            mtime: inode.i_mtime as u64,
            ctime: inode.i_ctime as u64,
            mode,
            nlink: inode.i_links_count as u32,
            uid: inode.i_uid as u32,
            gid: inode.i_gid as u32,
            is_dir,
        }
    }

    /// The inode record that `create_file` writes for a new regular file with
    /// permission bits `mode`, owned by `uid`/`gid`, created at `now` seconds
    /// since the Unix epoch.
    pub fn new_file_inode(mode: u16, uid: u32, gid: u32, now: u64) -> (inode: RawInode)
        ensures
            inode == new_file_record(mode, uid, gid, now),
            mode_is_dir(inode.i_mode) == false,
            inode.i_mode & 0o7777 == mode & 0o7777,
    {
        let now32: u32 = (now & 0xFFFF_FFFF) as u32;
        let uid16: u16 = (uid & 0xFFFF) as u16;
        let gid16: u16 = (gid & 0xFFFF) as u16;
        assert(((now & 0xFFFF_FFFF) as u32) as int == now as int % 0x1_0000_0000) by (bit_vector);
        assert(((uid & 0xFFFF) as u16) as int == uid as int % 0x10000) by (bit_vector);
        assert(((gid & 0xFFFF) as u16) as int == gid as int % 0x10000) by (bit_vector);
        assert(((mode | 0o100000u16) & 0o170000u16) != 0o040000u16) by (bit_vector);
        assert(((mode | 0o100000u16) & 0o7777u16) == mode & 0o7777u16) by (bit_vector);
        RawInode {
            i_mode: mode | S_IFREG,
            i_uid: uid16,
            i_size: 0,
            i_atime: now32,
            i_ctime: now32,
            i_mtime: now32,
            i_gid: gid16,
            i_links_count: 1,
            i_blocks: 0,
            i_size_high: 0,
        }
    }

    /// The mode that `mkdir` asks libext2fs to allocate a new directory
    /// inode with: the given bits marked as a directory.
    pub fn mkdir_mode(mode: u16) -> (m: u16)
        ensures
            m == mode | S_IFDIR,
            m & 0o7777 == mode & 0o7777,
            (mode & S_IFMT == 0 || mode & S_IFMT == S_IFDIR) ==> mode_is_dir(m),
    {
        assert(((mode & 0o170000u16) == 0u16 || (mode & 0o170000u16) == 0o040000u16)
            ==> ((mode | 0o040000u16) & 0o170000u16) == 0o040000u16) by (bit_vector);
        assert(((mode | 0o040000u16) & 0o7777u16) == mode & 0o7777u16) by (bit_vector);
        mode | S_IFDIR
    }

    /// The data that `read_file` returns from a buffer of the requested size
    /// after libext2fs reported `got` bytes read: the first `got` bytes, or
    /// the whole buffer when `got` exceeds it.
    pub fn read_file_data(buf: Vec<u8>, got: u32) -> (data: Vec<u8>)
        ensures
            got as int <= buf@.len() ==> data@ == buf@.subrange(0, got as int),
            got as int > buf@.len() ==> data@ == buf@,
    {
        let mut buf = buf;
        buf.truncate(got as usize);
        buf
    }

    /// The entry that a directory record with inode `inode` and name-length
    /// field `name_len` gives, once its name bytes were decoded as `name`:
    /// none for the "." and ".." records, otherwise the inode, the name and
    /// the file type from the high byte of the name-length field.
    pub fn dir_entry_from_name(inode: u32, name_len: u16, name: String) -> (e: Option<Ext2DirEntry>)
        ensures
            (name@ == seq!['.'] || name@ == seq!['.', '.']) ==> e is None,
            !(name@ == seq!['.'] || name@ == seq!['.', '.']) ==> (e matches Some(x)
                && x@ == (inode, name@, record_file_type(name_len))),
    {
        proof {
            reveal_strlit(".");
            reveal_strlit("..");
            assert("."@ =~= seq!['.']);
            assert(".."@ =~= seq!['.', '.']);
        }
        if str_equal(name.as_str(), ".") || str_equal(name.as_str(), "..") {
            return None;
        }
        let nl: u16 = name_len;
        let high = nl >> 8;
        assert(nl >> 8u16 <= 255) by (bit_vector);
        let file_type = high as u8;
        Some(Ext2DirEntry { inode, name, file_type })
    }

    /// The entry that one directory record gives, as `read_dir` keeps it:
    /// records with an empty name and the "." and ".." records give none. A
    /// name that is valid UTF-8 keeps exactly the characters it encodes.
    pub fn decode_dir_entry(raw: &RawDirEntry) -> (e: Option<Ext2DirEntry>)
        requires
            record_well_formed(raw@),
        ensures
            e matches Some(x) ==> decode_dir_record(raw@) == Some(x@),
            e is None <==> decode_dir_record(raw@) is None,
            valid_utf8(raw.name@.take(record_name_len(raw.name_len))) ==> (e matches Some(x) ==> x.name@ == decode_utf8(
                raw.name@.take(record_name_len(raw.name_len)),
            )),
            record_name_len(raw.name_len) > 0 && valid_utf8(raw.name@.take(record_name_len(raw.name_len)))
                ==> utf8_lossy(raw.name@.take(record_name_len(raw.name_len))) == decode_utf8(
                raw.name@.take(record_name_len(raw.name_len)),
            ),
            record_name_len(raw.name_len) > 0 && !valid_utf8(raw.name@.take(record_name_len(raw.name_len)))
                ==> lossy_replaced(raw.name@.take(record_name_len(raw.name_len))),
            record_name_len(raw.name_len) > 0 && !valid_utf8(raw.name@.take(record_name_len(raw.name_len)))
                ==> (e matches Some(x) && x.name@ == utf8_lossy(raw.name@.take(record_name_len(raw.name_len)))),
    {
        let n = (raw.name_len & 0xFF) as usize;
        if n == 0 {
            return None;
        }
        let bytes = slice_subrange(raw.name.as_slice(), 0, n);
        assert(bytes@ =~= raw.name@.take(n as int));
        let name = decode_utf8_lossy(bytes);
        proof {
            if !valid_utf8(bytes@) {
                let i = choose|i: int| 0 <= i < name@.len() && name@[i] == REPLACEMENT_CHARACTER;
                assert(name@[i] == REPLACEMENT_CHARACTER);
                assert(name@ != seq!['.']) by {
                    if name@ == seq!['.'] {
                        assert(name@[i] == '.');
                    }
                }
                assert(name@ != seq!['.', '.']) by {
                    if name@ == seq!['.', '.'] {
                        assert(name@[i] == '.');
                    }
                }
            }
        }
        Self::dir_entry_from_name(raw.inode, raw.name_len, name)
    }

    /// The entries of a directory whose records libext2fs handed over in
    /// `records`, in record order, without "." and ".." and without records
    /// whose name is empty.
    pub fn read_dir_entries(records: &Vec<RawDirEntry>) -> (entries: Vec<Ext2DirEntry>)
        requires
            forall|i: int| 0 <= i < records@.len() ==> record_well_formed(#[trigger] records@[i]@),
        ensures
            entries@.map_values(|e: Ext2DirEntry| e@)
                == decode_dir_records(records@.map_values(|r: RawDirEntry| r@)),
            forall|k: int|
                0 <= k < records@.len() && record_name_len(records@[k].name_len) > 0 && valid_utf8(
                    #[trigger] records@[k].name@.take(record_name_len(records@[k].name_len)),
                ) ==> utf8_lossy(records@[k].name@.take(record_name_len(records@[k].name_len))) == decode_utf8(
                    records@[k].name@.take(record_name_len(records@[k].name_len)),
                ),
            forall|k: int|
                0 <= k < records@.len() && record_name_len(records@[k].name_len) > 0 && !valid_utf8(
                    #[trigger] records@[k].name@.take(record_name_len(records@[k].name_len)),
                ) ==> lossy_replaced(records@[k].name@.take(record_name_len(records@[k].name_len))),
    {
        let ghost rs = records@.map_values(|r: RawDirEntry| r@);
        let mut entries: Vec<Ext2DirEntry> = Vec::new();
        let mut i: usize = 0;
        while i < records.len()
            invariant
                i <= records@.len(),
                rs == records@.map_values(|r: RawDirEntry| r@),
                forall|k: int| 0 <= k < records@.len() ==> record_well_formed(#[trigger] records@[k]@),
                entries@.map_values(|e: Ext2DirEntry| e@) == decode_dir_records(rs.take(i as int)),
                forall|k: int|
                    0 <= k < i && record_name_len(records@[k].name_len) > 0 && valid_utf8(
                        #[trigger] records@[k].name@.take(record_name_len(records@[k].name_len)),
                    ) ==> utf8_lossy(records@[k].name@.take(record_name_len(records@[k].name_len))) == decode_utf8(
                        records@[k].name@.take(record_name_len(records@[k].name_len)),
                    ),
                forall|k: int|
                    0 <= k < i && record_name_len(records@[k].name_len) > 0 && !valid_utf8(
                        #[trigger] records@[k].name@.take(record_name_len(records@[k].name_len)),
                    ) ==> lossy_replaced(records@[k].name@.take(record_name_len(records@[k].name_len))),
            decreases records@.len() - i,
        {
            let ghost before = entries@.map_values(|e: Ext2DirEntry| e@);
            assert(rs.take(i + 1).drop_last() =~= rs.take(i as int));
            assert(rs.take(i + 1).last() == records@[i as int]@);
            match Self::decode_dir_entry(&records[i]) {
                Some(e) => {
                    entries.push(e);
                    assert(entries@.map_values(|e: Ext2DirEntry| e@) =~= before.push(
                        entries@.last()@,
                    ));
                },
                None => {},
            }
            i += 1;
        }
        assert(rs.take(records@.len() as int) =~= rs);
        entries
    }

    /// The message for a libext2fs error `retval` met while opening `path`,
    /// given the text that the error table holds for it (`raw_msg`, none when
    /// the table has no text). The message is that text followed by
    /// " (code: N)". The hint for a whole disk given in place of a partition,
    /// which the code keeps for a bad magic number on a path that begins with
    /// "/dev/disk" and holds no 's', is never chosen: every such path holds
    /// the 's' of "disk".
    pub fn error_string(retval: i64, raw_msg: Option<&str>, path: &str) -> (msg: String)
        ensures
            msg@ == error_table_text(retval, match raw_msg {
                Some(m) => Some(m@),
                None => None::<Seq<char>>,
            }) + " (code: "@ + int_decimal(retval as int) + ")"@,
    {
        let raw: String = match raw_msg {
            Some(m) => String::from_str(m),
            None => String::from_str("Error code ").concat(i64_to_decimal(retval).as_str()),
        };
        let bad_magic = retval == EXT2_ET_BAD_MAGIC || contains_str(raw.as_str(), "magic")
            || contains_str(raw.as_str(), "ext2 19");
        proof {
            reveal_strlit("/dev/disk");
            if starts_with_seq(path@, "/dev/disk"@) {
                assert(path@[7] == "/dev/disk"@[7]);
                assert(path@.contains('s'));
            }
        }
        if bad_magic && starts_with_str(path, "/dev/disk") && !contains_char(path, 's') {
            let partition = replace_str(path, "/dev/disk", "/dev/rdisk").concat("s2");
            let msg = String::from_str("Bad magic number in superblock! You provided whole physical disk '")
                .concat(path)
                .concat("' (which contains partition tables, not an ext4 filesystem directly).\n\n==> PLEASE USE THE PARTITION DEVICE INSTEAD: 'sudo alpaca-extfs ")
                .concat(partition.as_str())
                .concat(" /Volumes/Ext4Drive'");
            return msg;
        }
        raw.concat(" (code: ").concat(i64_to_decimal(retval).as_str()).concat(")")
    }

    /// The statistics that `statfs` reports for a filesystem whose superblock
    /// holds the counters `sb`.
    pub fn statfs(&self, sb: &SuperblockCounts) -> (st: StatFs)
        requires
            sb.log_block_size <= MAX_LOG_BLOCK_SIZE,
        ensures
            st == statfs_of(*sb),
            st.blocks == sb.blocks_count,
            st.bfree == sb.free_blocks_count,
            st.files == sb.inodes_count,
            st.ffree == sb.free_inodes_count,
            st.bavail == if sb.free_blocks_count >= sb.r_blocks_count {
                sb.free_blocks_count - sb.r_blocks_count
            } else {
                0
            },
            st.bsize == 1024 * vstd::arithmetic::power2::pow2(sb.log_block_size as nat),
            st.frsize == st.bsize,
            st.namelen == 255,
    {
        let bavail = if sb.free_blocks_count >= sb.r_blocks_count {
            sb.free_blocks_count - sb.r_blocks_count
        } else {
            0
        };
        let bsize: u32 = 1024u32 << sb.log_block_size;
        proof {
            let e = sb.log_block_size;
            assert(e <= 6 ==> (1024u32 << e) as int == 1024 * vstd::arithmetic::power2::pow2(e as nat))
                by {
                vstd::arithmetic::power2::lemma2_to64();
                assert(e <= 6 ==> (1024u32 << e) == 1024u32 * (1u32 << e)) by (bit_vector);
                assert(e <= 6 ==> (1u32 << e) as int == vstd::arithmetic::power2::pow2(e as nat)) by {
                    if e <= 6 {
                        assert(e == 0 || e == 1 || e == 2 || e == 3 || e == 4 || e == 5 || e == 6);
                        assert((1u32 << 0u32) == 1u32) by (bit_vector);
                        assert((1u32 << 1u32) == 2u32) by (bit_vector);
                        assert((1u32 << 2u32) == 4u32) by (bit_vector);
                        assert((1u32 << 3u32) == 8u32) by (bit_vector);
                        assert((1u32 << 4u32) == 16u32) by (bit_vector);
                        assert((1u32 << 5u32) == 32u32) by (bit_vector);
                        assert((1u32 << 6u32) == 64u32) by (bit_vector);
                    }
                }
            }
        }
        StatFs {
            blocks: sb.blocks_count,
            bfree: sb.free_blocks_count,
            bavail,
            files: sb.inodes_count as u64,
            ffree: sb.free_inodes_count as u64,
            bsize,
            namelen: EXT2_NAME_LEN,
            frsize: bsize,
        }
    }
}

/// Decoding no records gives no entries.
pub proof fn lemma_no_records_no_entries()
    ensures
        decode_dir_records(Seq::<(u32, u16, Seq<u8>)>::empty()).len() == 0,
{
}

/// One more record at the end of a directory adds the entry it decodes to at
/// the end of the listing, and nothing when it decodes to none; the entries
/// of the records before it stay as they were.
pub proof fn lemma_dir_records_push(rs: Seq<(u32, u16, Seq<u8>)>, r: (u32, u16, Seq<u8>))
    ensures
        decode_dir_record(r) is Some ==> decode_dir_records(rs.push(r)) == decode_dir_records(rs).push(
            decode_dir_record(r).unwrap(),
        ),
        decode_dir_record(r) is None ==> decode_dir_records(rs.push(r)) == decode_dir_records(rs),
{
    assert(rs.push(r).drop_last() =~= rs);
    assert(rs.push(r).last() == r);
}

/// The listing of a directory is its records, in their order, each mapped to
/// the entry it decodes to, with the records that decode to none left out.
pub proof fn lemma_dir_records_filter_map(rs: Seq<(u32, u16, Seq<u8>)>)
    ensures
        decode_dir_records(rs) == rs.filter_map(|r: (u32, u16, Seq<u8>)| decode_dir_record(r)),
    decreases rs.len(),
{
    if rs.len() > 0 {
        lemma_dir_records_filter_map(rs.drop_last());
        let f = |r: (u32, u16, Seq<u8>)| decode_dir_record(r);
        match decode_dir_record(rs.last()) {
            Some(e) => {
                assert(decode_dir_records(rs) =~= rs.drop_last().filter_map(f) + seq![e]);
            },
            None => {},
        }
    }
}

/// A directory lists as many entries as it has records that decode to one.
pub proof fn lemma_dir_records_count(rs: Seq<(u32, u16, Seq<u8>)>)
    ensures
        decode_dir_records(rs).len() == rs.filter(|r: (u32, u16, Seq<u8>)| decode_dir_record(r) is Some).len(),
    decreases rs.len(),
{
    reveal(Seq::filter);
    if rs.len() > 0 {
        lemma_dir_records_count(rs.drop_last());
    }
}

/// The entries of the first `j` records open the listing of a directory.
pub proof fn lemma_dir_records_prefix(rs: Seq<(u32, u16, Seq<u8>)>, j: int)
    requires
        0 <= j <= rs.len(),
    ensures
        decode_dir_records(rs.take(j)).len() <= decode_dir_records(rs).len(),
        decode_dir_records(rs).take(decode_dir_records(rs.take(j)).len() as int) == decode_dir_records(rs.take(j)),
    decreases rs.len(),
{
    if j == rs.len() {
        assert(rs.take(j) =~= rs);
        assert(decode_dir_records(rs).take(decode_dir_records(rs).len() as int) =~= decode_dir_records(rs));
    } else {
        let rest = rs.drop_last();
        lemma_dir_records_prefix(rest, j);
        assert(rest.take(j) =~= rs.take(j));
        let p = decode_dir_records(rs.take(j));
        let all = decode_dir_records(rs);
        let before = decode_dir_records(rest);
        assert(all.take(p.len() as int) =~= before.take(p.len() as int));
    }
}

/// Every record that decodes to an entry is listed, in record order: the
/// entry of record `k` stands at the position given by the number of entries
/// that the records before it give.
pub proof fn lemma_record_entry_position(rs: Seq<(u32, u16, Seq<u8>)>, k: int)
    requires
        0 <= k < rs.len(),
        decode_dir_record(rs[k]) is Some,
    ensures
        decode_dir_records(rs.take(k)).len() < decode_dir_records(rs).len(),
        decode_dir_records(rs)[decode_dir_records(rs.take(k)).len() as int] == decode_dir_record(rs[k]).unwrap(),
        decode_dir_records(rs).contains(decode_dir_record(rs[k]).unwrap()),
{
    lemma_dir_records_prefix(rs, k + 1);
    assert(rs.take(k + 1).drop_last() =~= rs.take(k));
    assert(rs.take(k + 1).last() == rs[k]);
    let p = decode_dir_records(rs.take(k)).len() as int;
    let q = decode_dir_records(rs.take(k + 1));
    assert(q.len() == p + 1);
    assert(q[p] == decode_dir_record(rs[k]).unwrap());
    assert(decode_dir_records(rs).take(q.len() as int)[p] == decode_dir_records(rs)[p]);
}

/// Of two records that both decode to entries, the earlier one's entry is
/// listed first.
pub proof fn lemma_record_order_kept(rs: Seq<(u32, u16, Seq<u8>)>, k1: int, k2: int)
    requires
        0 <= k1 < k2 < rs.len(),
        decode_dir_record(rs[k1]) is Some,
    ensures
        decode_dir_records(rs.take(k1)).len() < decode_dir_records(rs.take(k2)).len(),
{
    lemma_record_entry_position(rs.take(k2), k1);
    assert(rs.take(k2).take(k1) =~= rs.take(k1));
    assert(rs.take(k2)[k1] == rs[k1]);
}

/// The statistics shown for a filesystem are its own counters: its block
/// count, its free blocks, its inode count and its free inodes; the blocks
/// available to users are the free ones less the reserved ones (none when
/// fewer are free than reserved); the block size is 1024 times 2 to the
/// superblock's exponent, and names hold up to 255 bytes.
pub proof fn lemma_statfs_counts(sb: SuperblockCounts)
    requires
        sb.log_block_size <= MAX_LOG_BLOCK_SIZE,
    ensures
        statfs_of(sb).blocks == sb.blocks_count,
        statfs_of(sb).bfree == sb.free_blocks_count,
        statfs_of(sb).files == sb.inodes_count,
        statfs_of(sb).ffree == sb.free_inodes_count,
        statfs_of(sb).bavail <= statfs_of(sb).bfree,
        sb.free_blocks_count >= sb.r_blocks_count ==> statfs_of(sb).bavail + sb.r_blocks_count
            == sb.free_blocks_count,
        sb.free_blocks_count < sb.r_blocks_count ==> statfs_of(sb).bavail == 0,
        statfs_of(sb).bsize == 1024 * vstd::arithmetic::power2::pow2(sb.log_block_size as nat),
        statfs_of(sb).frsize == statfs_of(sb).bsize,
        statfs_of(sb).namelen == 255,
{
    vstd::arithmetic::power2::lemma2_to64();
    let e = sb.log_block_size;
    assert(e == 0 || e == 1 || e == 2 || e == 3 || e == 4 || e == 5 || e == 6);
}

} // verus!
