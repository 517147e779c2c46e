//! The FUSE side of the driver: how inode attributes are shown to the
//! kernel, who owns what the driver shows and creates, how a directory is
//! listed page by page, and how a name is looked up in a directory.
//!
//! `Ext4FuseFs<H>` holds the open filesystem `H` together with the optional
//! owner that every inode is shown as belonging to. The program around the
//! library answers the kernel's requests: it calls libext2fs, hands what came
//! back to the functions here, and replies with what they return.

use vstd::prelude::*;
use crate::inode::FUSE_ROOT_ID;
use crate::inode::spec_ext2_to_fuse;
use crate::inode::ext2_ino_to_fuse;
use crate::ext2fs::Ext2FileAttr;
use crate::ext2fs::Ext2DirEntry;
use crate::text::str_equal;

verus! {

/// The kind of file that FUSE is told an inode is.
#[derive(Debug, Clone, Copy, PartialEq, Eq, Structural)]
pub enum FileKind {
    Directory,
    RegularFile,
    Symlink,
}

/// The attributes of an inode as FUSE receives them. Times are whole seconds
/// since the Unix epoch; `crtime` is the creation time.
#[derive(Debug, Clone, Copy, PartialEq, Eq, Structural)]
pub struct FuseAttr {
    pub ino: u64,
    pub size: u64,
    pub blocks: u64,
    pub atime: u64,
    pub mtime: u64,
    pub ctime: u64,
    pub crtime: u64,
    pub kind: FileKind,
    pub perm: u16,
    pub nlink: u32,
    pub uid: u32,
    pub gid: u32,
    pub rdev: u32,
    pub blksize: u32,
    pub flags: u32,
}

/// The preferred I/O block size that FUSE is told for every inode.
pub const FUSE_BLKSIZE: u32 = 4096;

/// Directory-record file type of a regular file.
pub const EXT2_FT_REG_FILE: u8 = 1;

/// Directory-record file type of a directory.
pub const EXT2_FT_DIR: u8 = 2;

/// Directory-record file type of a symbolic link.
pub const EXT2_FT_SYMLINK: u8 = 7;

/// The kind of file that an inode with attributes `attr` is shown as: a
/// directory when it is one, a symbolic link when all the bits of 0o120000
/// are set in its mode, a regular file otherwise.
pub open spec fn kind_of(attr: Ext2FileAttr) -> FileKind {
    if attr.is_dir {
        FileKind::Directory
    } else if (attr.mode & 0o120000) == 0o120000 {
        FileKind::Symlink
    } else {
        FileKind::RegularFile
    }
}

/// The permission bits shown for an inode: its own, with read and execute
/// for everyone and write for the owner added on directories.
pub open spec fn perm_of(attr: Ext2FileAttr) -> u16 {
    if attr.is_dir {
        (attr.mode & 0o777) | 0o755
    } else {
        attr.mode & 0o777
    }
}

/// An optional id, or the fallback when there is none.
pub open spec fn or_else(id: Option<u32>, fallback: u32) -> u32 {
    match id {
        Some(v) => v,
        None => fallback,
    }
}

/// The attributes that FUSE is shown for an inode with attributes `attr`,
/// when the driver maps every inode to the owner `owner_uid`/`owner_gid`
/// (each one only when present).
pub open spec fn fuse_attr_of(attr: Ext2FileAttr, owner_uid: Option<u32>, owner_gid: Option<u32>) -> FuseAttr {
    FuseAttr {
        ino: spec_ext2_to_fuse(attr.ino as u32),
        size: attr.size,
        blocks: attr.blocks,
        atime: attr.atime,
        mtime: attr.mtime,
        ctime: attr.ctime,
        crtime: attr.ctime,
        kind: kind_of(attr),
        perm: perm_of(attr),
        nlink: attr.nlink,
        uid: or_else(owner_uid, attr.uid),
        gid: or_else(owner_gid, attr.gid),
        rdev: 0,
        blksize: FUSE_BLKSIZE,
        flags: 0,
    }
}

/// The attributes shown to FUSE for an inode with attributes `attr`.
pub fn to_fuser_attr(attr: &Ext2FileAttr, owner_uid: Option<u32>, owner_gid: Option<u32>) -> (a: FuseAttr)
    ensures
        a == fuse_attr_of(*attr, owner_uid, owner_gid),
{
    let kind = if attr.is_dir {
        FileKind::Directory
    } else if (attr.mode & 0o120000) == 0o120000 {
        FileKind::Symlink
    } else {
        FileKind::RegularFile
    };
    let perm = if attr.is_dir {
        (attr.mode & 0o777) | 0o755
    } else {
        attr.mode & 0o777
    };
    let uid = match owner_uid {
        Some(u) => u,
        None => attr.uid,
    };
    let gid = match owner_gid {
        Some(g) => g,
        None => attr.gid,
    };
    FuseAttr {
        ino: ext2_ino_to_fuse(attr.ino as u32),
        size: attr.size,
        blocks: attr.blocks,
        atime: attr.atime,
        mtime: attr.mtime,
        ctime: attr.ctime,
        crtime: attr.ctime,
        kind,
        perm,
        nlink: attr.nlink,
        uid,
        gid,
        rdev: 0,
        blksize: FUSE_BLKSIZE,
        flags: 0,
    }
}

/// The filesystem that FUSE serves: the open filesystem `handle`, and the
/// user and group that every inode is shown as owned by, when set.
pub struct Ext4FuseFs<H> {
    handle: H,
    owner_uid: Option<u32>,
    owner_gid: Option<u32>,
}

impl<H> Ext4FuseFs<H> {
    /// The open filesystem.
    pub closed spec fn spec_handle(&self) -> H {
        self.handle
    }

    /// The user that every inode is shown as owned by, if any.
    pub closed spec fn spec_owner_uid(&self) -> Option<u32> {
        self.owner_uid
    }

    /// The group that every inode is shown as owned by, if any.
    pub closed spec fn spec_owner_gid(&self) -> Option<u32> {
        self.owner_gid
    }

    /// Serves `handle` showing each inode's own owner.
    pub fn new(handle: H) -> (fs: Self)
        ensures
            fs.spec_handle() == handle,
            fs.spec_owner_uid() == None::<u32>,
            fs.spec_owner_gid() == None::<u32>,
    {
        Ext4FuseFs { handle, owner_uid: None, owner_gid: None }
    }

    /// Serves `handle` showing every inode as owned by `uid` and `gid`.
    pub fn with_owner(handle: H, uid: u32, gid: u32) -> (fs: Self)
        ensures
            fs.spec_handle() == handle,
            fs.spec_owner_uid() == Some(uid),
            fs.spec_owner_gid() == Some(gid),
    {
        Ext4FuseFs { handle, owner_uid: Some(uid), owner_gid: Some(gid) }
    }

    /// The open filesystem.
    pub fn handle(&self) -> (h: &H)
        ensures
            *h == self.spec_handle(),
    {
        &self.handle
    }

    /// The user that every inode is shown as owned by, if any.
    pub fn owner_uid(&self) -> (u: Option<u32>)
        ensures
            u == self.spec_owner_uid(),
    {
        self.owner_uid
    }

    /// The group that every inode is shown as owned by, if any.
    pub fn owner_gid(&self) -> (g: Option<u32>)
        ensures
            g == self.spec_owner_gid(),
    {
        self.owner_gid
    }

    /// The attributes that this filesystem shows FUSE for an inode with
    /// attributes `attr` (in replies to getattr, lookup, create and mkdir).
    pub fn reply_attr(&self, attr: &Ext2FileAttr) -> (a: FuseAttr)
        ensures
            a == fuse_attr_of(*attr, self.spec_owner_uid(), self.spec_owner_gid()),
    {
        to_fuser_attr(attr, self.owner_uid, self.owner_gid)
    }

    /// The owner of a file or directory that the user `req_uid` in group
    /// `req_gid` creates: this filesystem's owner where it has one, the
    /// requesting user's ids otherwise.
    pub fn creation_owner(&self, req_uid: u32, req_gid: u32) -> (o: (u32, u32))
        ensures
            o == (or_else(self.spec_owner_uid(), req_uid), or_else(self.spec_owner_gid(), req_gid)),
    {
        let uid = match self.owner_uid {
            Some(u) => u,
            None => req_uid,
        };
        let gid = match self.owner_gid {
            Some(g) => g,
            None => req_gid,
        };
        (uid, gid)
    }
}

/// The ext2 mode bits for a mode that FUSE hands to create or mkdir: its
/// low 16 bits.
pub fn creation_mode(mode: u32) -> (m: u16)
    ensures
        m as int == mode as int % 0x10000,
{
    assert(((mode & 0xFFFF) as u16) as int == mode as int % 0x10000) by (bit_vector);
    (mode & 0xFFFF) as u16
}


/// One item of a directory listing as FUSE receives it: the inode, the
/// offset at which the listing resumes after this item, the kind of file,
/// and the name.
#[derive(Debug, Clone)]
pub struct DirItem {
    pub ino: u64,
    pub offset: i64,
    pub kind: FileKind,
    pub name: String,
}

impl View for DirItem {
    type V = (u64, i64, FileKind, Seq<char>);

    open spec fn view(&self) -> (u64, i64, FileKind, Seq<char>) {
        (self.ino, self.offset, self.kind, self.name@)
    }
}

/// The kind that a directory record's file type gives, when it gives one:
/// 2 a directory, 1 a regular file, 7 a symbolic link.
pub open spec fn dtype_kind_of(file_type: u8) -> Option<FileKind> {
    if file_type == EXT2_FT_DIR {
        Some(FileKind::Directory)
    } else if file_type == EXT2_FT_REG_FILE {
        Some(FileKind::RegularFile)
    } else if file_type == EXT2_FT_SYMLINK {
        Some(FileKind::Symlink)
    } else {
        None
    }
}

/// The kind listed for an entry with record file type `file_type`: the one
/// that the file type gives, or else the one that the inode's attributes
/// give (`attr`, none when they could not be read), or else a regular file.
pub open spec fn entry_kind(file_type: u8, attr: Option<Ext2FileAttr>) -> FileKind {
    match dtype_kind_of(file_type) {
        Some(k) => k,
        None => match attr {
            Some(a) => kind_of(a),
            None => FileKind::RegularFile,
        },
    }
}

/// The index of the first directory entry listed for a request at `offset`.
pub open spec fn readdir_start_of(offset: i64) -> int {
    if offset <= 2 {
        0
    } else {
        ((offset - 2) as usize) as int
    }
}

/// The "." and ".." items that open the listing of directory `ino`; they are
/// listed only for a request at offset 0.
pub open spec fn dot_items(ino: u64, offset: i64) -> Seq<(u64, i64, FileKind, Seq<char>)> {
    if offset == 0 {
        seq![(ino, 1i64, FileKind::Directory, seq!['.']), (FUSE_ROOT_ID, 2i64, FileKind::Directory, seq!['.', '.'])]
    } else {
        Seq::empty()
    }
}

/// The item listed for the directory entry at index `idx`: its inode as FUSE
/// numbers it, the offset `idx + 3`, its kind and its name.
pub open spec fn entry_item(idx: int, e: (u32, Seq<char>, u8), attr: Option<Ext2FileAttr>) -> (u64, i64, FileKind, Seq<char>) {
    (spec_ext2_to_fuse(e.0), (idx + 3) as i64, entry_kind(e.2, attr), e.1)
}

/// The listing of directory `ino` requested at `offset`, for directory
/// entries `entries` whose inode attributes are `attrs` (consulted only for
/// entries whose record gives no file type): "." and ".." at offset 0, then
/// each entry from index `readdir_start_of(offset)` on.
pub open spec fn readdir_listing(
    ino: u64,
    offset: i64,
    entries: Seq<(u32, Seq<char>, u8)>,
    attrs: Seq<Option<Ext2FileAttr>>,
) -> Seq<(u64, i64, FileKind, Seq<char>)> {
    let start = readdir_start_of(offset);
    let n = if start <= entries.len() { entries.len() - start } else { 0 };
    dot_items(ino, offset) + Seq::new(n as nat, |k: int| entry_item(start + k, entries[start + k], attrs[start + k]))
}

/// The kind that a directory record's file type gives, if it gives one;
/// for the other file types the inode's attributes decide.
pub fn dtype_kind(file_type: u8) -> (k: Option<FileKind>)
    ensures
        k == dtype_kind_of(file_type),
{
    if file_type == EXT2_FT_DIR {
        Some(FileKind::Directory)
    } else if file_type == EXT2_FT_REG_FILE {
        Some(FileKind::RegularFile)
    } else if file_type == EXT2_FT_SYMLINK {
        Some(FileKind::Symlink)
    } else {
        None
    }
}

/// The index of the first directory entry listed for a request at `offset`:
/// 0 up to offset 2 (the offsets of "." and ".."), `offset - 2` beyond.
pub fn readdir_start(offset: i64) -> (start: usize)
    ensures
        start as int == readdir_start_of(offset),
{
    if offset <= 2 {
        0
    } else {
        (offset - 2) as usize
    }
}

/// Whether a listing requested at `offset` consults the attributes of the
/// entry at index `idx` with record file type `file_type`: only for entries
/// that are listed and whose record gives no file type.
pub open spec fn needs_attr_of(offset: i64, idx: int, file_type: u8) -> bool {
    idx >= readdir_start_of(offset) && dtype_kind_of(file_type) is None
}

/// Whether a listing requested at `offset` consults the attributes of the
/// entry at index `idx` with record file type `file_type`.
pub fn readdir_needs_attr(offset: i64, idx: usize, file_type: u8) -> (b: bool)
    ensures
        b == needs_attr_of(offset, idx as int, file_type),
{
    idx >= readdir_start(offset) && dtype_kind(file_type).is_none()
}

/// A listing depends on the attributes of those entries only that it
/// consults: two attribute lists that agree there give the same listing.
pub proof fn lemma_listing_reads_only_needed_attrs(
    ino: u64,
    offset: i64,
    entries: Seq<(u32, Seq<char>, u8)>,
    attrs1: Seq<Option<Ext2FileAttr>>,
    attrs2: Seq<Option<Ext2FileAttr>>,
)
    requires
        attrs1.len() == entries.len(),
        attrs2.len() == entries.len(),
        forall|i: int| 0 <= i < entries.len() && needs_attr_of(offset, i, #[trigger] entries[i].2) ==> attrs1[i] == attrs2[i],
    ensures
        readdir_listing(ino, offset, entries, attrs1) == readdir_listing(ino, offset, entries, attrs2),
{
    let l1 = readdir_listing(ino, offset, entries, attrs1);
    let l2 = readdir_listing(ino, offset, entries, attrs2);
    let start = readdir_start_of(offset);
    assert forall|k: int| 0 <= k < l1.len() implies l1[k] == l2[k] by {
        let d = dot_items(ino, offset).len() as int;
        if k >= d {
            let i = start + k - d;
            assert(needs_attr_of(offset, i, entries[i].2) ==> attrs1[i] == attrs2[i]);
        }
    }
    assert(l1 =~= l2);
}

/// The listing of directory `ino` requested at `offset`: "." and ".." when
/// the offset is 0, then the entries from `readdir_start(offset)` on, each
/// with the offset at which a later request resumes after it. `attrs[i]` are
/// the attributes of entry `i`'s inode, read when its record gives no file
/// type (none when they were not read or could not be).
pub fn readdir_items(
    ino: u64,
    offset: i64,
    entries: &Vec<Ext2DirEntry>,
    attrs: &Vec<Option<Ext2FileAttr>>,
) -> (items: Vec<DirItem>)
    requires
        attrs@.len() == entries@.len(),
        entries@.len() + 3 <= i64::MAX,
    ensures
        items@.map_values(|d: DirItem| d@) == readdir_listing(
            ino,
            offset,
            entries@.map_values(|e: Ext2DirEntry| e@),
            attrs@,
        ),
{
    let ghost es = entries@.map_values(|e: Ext2DirEntry| e@);
    let ghost listing = readdir_listing(ino, offset, es, attrs@);
    let mut items: Vec<DirItem> = Vec::new();
    proof {
        reveal_strlit(".");
        reveal_strlit("..");
        assert("."@ =~= seq!['.']);
        assert(".."@ =~= seq!['.', '.']);
    }
    if offset == 0 {
        items.push(DirItem { ino, offset: 1, kind: FileKind::Directory, name: String::from_str(".") });
        let parent_ino = if ino == FUSE_ROOT_ID { FUSE_ROOT_ID } else { 1 };
        items.push(DirItem { ino: parent_ino, offset: 2, kind: FileKind::Directory, name: String::from_str("..") });
    }
    let ghost dots = dot_items(ino, offset);
    assert(items@.map_values(|d: DirItem| d@) =~= dots);
    let start = readdir_start(offset);
    let mut idx: usize = start;
    while idx < entries.len()
        invariant
            attrs@.len() == entries@.len(),
            entries@.len() + 3 <= i64::MAX,
            es == entries@.map_values(|e: Ext2DirEntry| e@),
            start as int == readdir_start_of(offset),
            dots == dot_items(ino, offset),
            start <= idx,
            start <= entries@.len() ==> idx <= entries@.len(),
            start > entries@.len() ==> idx == start,
            items@.map_values(|d: DirItem| d@) =~= dots + Seq::new(
                (idx - start) as nat,
                |k: int| entry_item(start + k, es[start + k], attrs@[start + k]),
            ),
        decreases entries@.len() - idx,
    {
        let entry = &entries[idx];
        let kind = match dtype_kind(entry.file_type) {
            Some(k) => k,
            None => match &attrs[idx] {
                Some(a) => {
                    if a.is_dir {
                        FileKind::Directory
                    } else if (a.mode & 0o120000) == 0o120000 {
                        FileKind::Symlink
                    } else {
                        FileKind::RegularFile
                    }
                },
                None => FileKind::RegularFile,
            },
        };
        let entry_offset: i64 = (idx as i64) + 3;
        let item = DirItem {
            ino: ext2_ino_to_fuse(entry.inode),
            offset: entry_offset,
            kind,
            name: entry.name.clone(),
        };
        let ghost before = items@.map_values(|d: DirItem| d@);
        items.push(item);
        assert(es[idx as int] == entries@[idx as int]@);
        assert(items@.map_values(|d: DirItem| d@) =~= before.push(
            entry_item(idx as int, es[idx as int], attrs@[idx as int]),
        ));
        idx += 1;
    }
    assert(items@.map_values(|d: DirItem| d@) =~= listing);
    items
}

/// The sum of a sequence of integers.
pub open spec fn total(s: Seq<int>) -> int
    decreases s.len(),
{
    if s.len() == 0 {
        0
    } else {
        s[0] + total(s.drop_first())
    }
}

/// What successive listings of directory `ino` hand to the kernel when the
/// first is requested at `offset`, request `j` keeps the first `takes[j]`
/// items it is given (the kernel's buffer holds no more), and each next
/// request resumes at the offset of the last item kept.
pub open spec fn paged_listing(
    ino: u64,
    offset: i64,
    entries: Seq<(u32, Seq<char>, u8)>,
    attrs: Seq<Option<Ext2FileAttr>>,
    takes: Seq<int>,
) -> Seq<(u64, i64, FileKind, Seq<char>)>
    decreases takes.len(),
{
    if takes.len() == 0 {
        Seq::empty()
    } else {
        let l = readdir_listing(ino, offset, entries, attrs);
        let t = takes[0];
        if t < 1 || t > l.len() {
            Seq::empty()
        } else {
            l.take(t) + paged_listing(ino, l[t - 1].1, entries, attrs, takes.drop_first())
        }
    }
}

proof fn lemma_total_nonneg(s: Seq<int>)
    requires
        forall|j: int| 0 <= j < s.len() ==> s[j] >= 1,
    ensures
        total(s) >= s.len(),
    decreases s.len(),
{
    if s.len() > 0 {
        let r = s.drop_first();
        assert forall|j: int| 0 <= j < r.len() implies r[j] >= 1 by {
            assert(r[j] == s[j + 1]);
        }
        lemma_total_nonneg(r);
    }
}

/// Listing a directory page by page gives every item of the full listing
/// once, in order, none skipped or repeated: starting at offset 0, or at the
/// offset of the `p`-th item already handed over (`p >= 2`), pages that keep
/// `takes[0]`, `takes[1]`, ... items (each at least one, all within the
/// listing) give items `p` to `p + total(takes)` of the full listing. The one
/// exception, left out here, is a first page that keeps only "." (offset 1):
/// the page after it starts after "..".
pub proof fn lemma_paged_listing_is_complete(
    ino: u64,
    entries: Seq<(u32, Seq<char>, u8)>,
    attrs: Seq<Option<Ext2FileAttr>>,
    p: int,
    takes: Seq<int>,
)
    requires
        entries.len() + 3 <= i64::MAX,
        entries.len() <= usize::MAX,
        p == 0 || 2 <= p <= entries.len() + 2,
        forall|j: int| 0 <= j < takes.len() ==> takes[j] >= 1,
        p + total(takes) <= entries.len() + 2,
        p == 0 && takes.len() > 0 ==> takes[0] != 1,
    ensures
        paged_listing(ino, p as i64, entries, attrs, takes)
            == readdir_listing(ino, 0, entries, attrs).subrange(p, p + total(takes)),
    decreases takes.len(),
{
    let full = readdir_listing(ino, 0, entries, attrs);
    lemma_listing_offsets(ino, entries, attrs);
    if takes.len() == 0 {
        assert(full.subrange(p, p) =~= Seq::<(u64, i64, FileKind, Seq<char>)>::empty());
    } else {
        let l = readdir_listing(ino, p as i64, entries, attrs);
        if p == 0 {
            assert(l =~= full.skip(0));
        } else {
            lemma_listing_resumes(ino, entries, attrs, p - 3);
            assert((p - 3 + 3) as i64 == p as i64);
        }
        assert(l =~= full.skip(p));
        let t = takes[0];
        let rest = takes.drop_first();
        assert forall|j: int| 0 <= j < rest.len() implies rest[j] >= 1 by {
            assert(rest[j] == takes[j + 1]);
        }
        lemma_total_nonneg(rest);
        assert(t <= l.len());
        assert(l[t - 1] == full[p + t - 1]);
        assert(l[t - 1].1 == (p + t) as i64);
        lemma_paged_listing_is_complete(ino, entries, attrs, p + t, rest);
        assert(l.take(t) =~= full.subrange(p, p + t));
        assert(full.subrange(p, p + t) + full.subrange(p + t, p + t + total(rest))
            =~= full.subrange(p, p + total(takes)));
    }
}

/// The inode of the first entry named `name` in a directory with entries
/// `entries`, if there is one.
pub open spec fn lookup_of(entries: Seq<(u32, Seq<char>, u8)>, name: Seq<char>) -> Option<u32>
    decreases entries.len(),
{
    if entries.len() == 0 {
        None
    } else if entries[0].1 == name {
        Some(entries[0].0)
    } else {
        lookup_of(entries.drop_first(), name)
    }
}

/// Looks `name` up among a directory's entries: the inode of the first entry
/// with that name, or none.
pub fn lookup_entry(entries: &Vec<Ext2DirEntry>, name: &str) -> (r: Option<u32>)
    ensures
        r == lookup_of(entries@.map_values(|e: Ext2DirEntry| e@), name@),
{
    let ghost es = entries@.map_values(|e: Ext2DirEntry| e@);
    let mut i: usize = 0;
    assert(es.skip(0) =~= es);
    while i < entries.len()
        invariant
            i <= entries@.len(),
            es == entries@.map_values(|e: Ext2DirEntry| e@),
            lookup_of(es.skip(i as int), name@) == lookup_of(es, name@),
        decreases entries@.len() - i,
    {
        assert(es.skip(i as int)[0] == entries@[i as int]@);
        assert(es.skip(i as int).drop_first() =~= es.skip(i + 1));
        if str_equal(entries[i].name.as_str(), name) {
            return Some(entries[i].inode);
        }
        i += 1;
    }
    assert(es.skip(i as int) =~= Seq::<(u32, Seq<char>, u8)>::empty());
    None
}


/// When the filesystem is served with an owner, every inode it shows is owned
/// by that user and group; without one, each inode shows its own ids.
pub proof fn lemma_owner_mapping(attr: Ext2FileAttr, uid: u32, gid: u32)
    ensures
        fuse_attr_of(attr, Some(uid), Some(gid)).uid == uid,
        fuse_attr_of(attr, Some(uid), Some(gid)).gid == gid,
        fuse_attr_of(attr, None, None).uid == attr.uid,
        fuse_attr_of(attr, None, None).gid == attr.gid,
{
}

/// Files and directories created through a filesystem served with an owner
/// belong to that owner, whoever asks; without one, to the requesting user.
pub proof fn lemma_creation_owner<H>(fs: Ext4FuseFs<H>, req_uid: u32, req_gid: u32)
    ensures
        fs.spec_owner_uid() is Some ==> or_else(fs.spec_owner_uid(), req_uid) == fs.spec_owner_uid().unwrap(),
        fs.spec_owner_gid() is Some ==> or_else(fs.spec_owner_gid(), req_gid) == fs.spec_owner_gid().unwrap(),
        fs.spec_owner_uid() is None ==> or_else(fs.spec_owner_uid(), req_uid) == req_uid,
        fs.spec_owner_gid() is None ==> or_else(fs.spec_owner_gid(), req_gid) == req_gid,
{
}

/// Every directory is shown readable and searchable by everyone and writable
/// by its owner (all of 0o755 set); other inodes show their own permission
/// bits. No inode shows bits beyond 0o777.
pub proof fn lemma_shown_permissions(attr: Ext2FileAttr, owner_uid: Option<u32>, owner_gid: Option<u32>)
    ensures
        attr.is_dir ==> fuse_attr_of(attr, owner_uid, owner_gid).perm & 0o755 == 0o755,
        !attr.is_dir ==> fuse_attr_of(attr, owner_uid, owner_gid).perm == attr.mode & 0o777,
        fuse_attr_of(attr, owner_uid, owner_gid).perm <= 0o777,
{
    let m = attr.mode;
    assert(((m & 0o777u16) | 0o755u16) & 0o755u16 == 0o755u16) by (bit_vector);
    assert(((m & 0o777u16) | 0o755u16) <= 0o777u16) by (bit_vector);
    assert((m & 0o777u16) <= 0o777u16) by (bit_vector);
}

/// An inode is shown as a directory exactly when it is one.
pub proof fn lemma_shown_kind(attr: Ext2FileAttr, owner_uid: Option<u32>, owner_gid: Option<u32>)
    ensures
        (fuse_attr_of(attr, owner_uid, owner_gid).kind == FileKind::Directory) == attr.is_dir,
{
}

/// Where a directory record gives no file type, the listing shows the entry
/// with the kind that getattr shows for its inode.
pub proof fn lemma_listing_kind_agrees_with_getattr(
    file_type: u8,
    attr: Ext2FileAttr,
    owner_uid: Option<u32>,
    owner_gid: Option<u32>,
)
    requires
        dtype_kind_of(file_type) is None,
    ensures
        entry_kind(file_type, Some(attr)) == fuse_attr_of(attr, owner_uid, owner_gid).kind,
{
}

/// The full listing of a directory (requested at offset 0) shows "." at
/// offset 1, ".." at offset 2, then entry `i` at offset `i + 3`: the item at
/// position `k` carries offset `k + 1`.
pub proof fn lemma_listing_offsets(
    ino: u64,
    entries: Seq<(u32, Seq<char>, u8)>,
    attrs: Seq<Option<Ext2FileAttr>>,
)
    requires
        entries.len() + 3 <= i64::MAX,
    ensures
        readdir_listing(ino, 0, entries, attrs).len() == entries.len() + 2,
        forall|k: int|
            0 <= k < entries.len() + 2 ==> #[trigger] readdir_listing(ino, 0, entries, attrs)[k].1 == k + 1,
{
}

/// A listing resumed at the offset that the kernel got with an item goes on
/// with the item after it: resuming at the offset of ".." (2), or of entry
/// `i` (`i + 3`), gives the full listing without its first 2, or `i + 3`,
/// items. (Resuming at the offset of "." (1) skips ".." as well.)
pub proof fn lemma_listing_resumes(
    ino: u64,
    entries: Seq<(u32, Seq<char>, u8)>,
    attrs: Seq<Option<Ext2FileAttr>>,
    i: int,
)
    requires
        entries.len() + 3 <= i64::MAX,
        entries.len() <= usize::MAX,
        -1 <= i < entries.len(),
    ensures
        readdir_listing(ino, (i + 3) as i64, entries, attrs)
            == readdir_listing(ino, 0, entries, attrs).skip(i + 3),
{
    let full = readdir_listing(ino, 0, entries, attrs);
    let part = readdir_listing(ino, (i + 3) as i64, entries, attrs);
    assert(readdir_start_of((i + 3) as i64) == i + 1);
    assert(part.len() == full.skip(i + 3).len());
    assert forall|k: int| 0 <= k < part.len() implies part[k] == full.skip(i + 3)[k] by {
        assert(full[k + i + 3] == entry_item(k + i + 1, entries[k + i + 1], attrs[k + i + 1]));
    }
    assert(part =~= full.skip(i + 3));
}

/// A lookup finds an entry with the name asked for, the first one, and finds
/// none exactly when no entry has that name.
pub proof fn lemma_lookup_finds_first(entries: Seq<(u32, Seq<char>, u8)>, name: Seq<char>)
    ensures
        lookup_of(entries, name) is None <==> forall|i: int| 0 <= i < entries.len() ==> #[trigger] entries[i].1 != name,
        lookup_of(entries, name) is Some ==> exists|i: int|
            0 <= i < entries.len() && #[trigger] entries[i].1 == name
                && entries[i].0 == lookup_of(entries, name).unwrap()
                && forall|j: int| 0 <= j < i ==> #[trigger] entries[j].1 != name,
    decreases entries.len(),
{
    if entries.len() > 0 {
        let rest = entries.drop_first();
        lemma_lookup_finds_first(rest, name);
        assert forall|i: int| 0 < i < entries.len() implies #[trigger] entries[i] == rest[i - 1] by {}
        if entries[0].1 == name {
            assert(0 <= 0 < entries.len() && entries[0].1 == name);
        } else {
            if lookup_of(rest, name) is Some {
                let j = choose|j: int|
                    0 <= j < rest.len() && #[trigger] rest[j].1 == name
                        && rest[j].0 == lookup_of(rest, name).unwrap()
                        && forall|k: int| 0 <= k < j ==> #[trigger] rest[k].1 != name;
                assert(entries[j + 1] == rest[j]);
                assert forall|k: int| 0 <= k < j + 1 implies #[trigger] entries[k].1 != name by {
                    if k > 0 {
                        assert(entries[k] == rest[k - 1]);
                    }
                }
            } else {
                assert forall|i: int| 0 <= i < entries.len() implies #[trigger] entries[i].1 != name by {
                    if i > 0 {
                        assert(entries[i] == rest[i - 1]);
                    }
                }
            }
        }
    }
}

/// What FUSE is shown of an inode copies the inode's own size, block count,
/// times and link count (its creation time is its change time), numbers it
/// as FUSE does (the ext2 root as the FUSE root, every other inode by its own
/// number), and has no device number, no flags and 4096-byte I/O blocks.
pub proof fn lemma_shown_attributes_copied(attr: Ext2FileAttr, owner_uid: Option<u32>, owner_gid: Option<u32>)
    ensures
        fuse_attr_of(attr, owner_uid, owner_gid).size == attr.size,
        fuse_attr_of(attr, owner_uid, owner_gid).blocks == attr.blocks,
        fuse_attr_of(attr, owner_uid, owner_gid).atime == attr.atime,
        fuse_attr_of(attr, owner_uid, owner_gid).mtime == attr.mtime,
        fuse_attr_of(attr, owner_uid, owner_gid).ctime == attr.ctime,
        fuse_attr_of(attr, owner_uid, owner_gid).crtime == attr.ctime,
        fuse_attr_of(attr, owner_uid, owner_gid).nlink == attr.nlink,
        attr.ino as u32 == 2 ==> fuse_attr_of(attr, owner_uid, owner_gid).ino == 1,
        attr.ino as u32 != 2 ==> fuse_attr_of(attr, owner_uid, owner_gid).ino == attr.ino as u32,
        fuse_attr_of(attr, owner_uid, owner_gid).rdev == 0,
        fuse_attr_of(attr, owner_uid, owner_gid).flags == 0,
        fuse_attr_of(attr, owner_uid, owner_gid).blksize == 4096,
{
}

/// The full listing of directory `ino` (requested at offset 0) opens with
/// "." for the directory itself at offset 1 and ".." for the root at offset
/// 2, both directories; then entry `k` follows at offset `k + 3`, under its
/// own name and its inode as FUSE numbers it.
pub proof fn lemma_listing_items(
    ino: u64,
    entries: Seq<(u32, Seq<char>, u8)>,
    attrs: Seq<Option<Ext2FileAttr>>,
)
    requires
        entries.len() + 3 <= i64::MAX,
    ensures
        readdir_listing(ino, 0, entries, attrs).len() == entries.len() + 2,
        readdir_listing(ino, 0, entries, attrs)[0] == (ino, 1i64, FileKind::Directory, seq!['.']),
        readdir_listing(ino, 0, entries, attrs)[1] == (1u64, 2i64, FileKind::Directory, seq!['.', '.']),
        forall|k: int| 0 <= k < entries.len() ==> {
            &&& (#[trigger] readdir_listing(ino, 0, entries, attrs)[k + 2]).0 == spec_ext2_to_fuse(entries[k].0)
            &&& readdir_listing(ino, 0, entries, attrs)[k + 2].1 == k + 3
            &&& readdir_listing(ino, 0, entries, attrs)[k + 2].3 == entries[k].1
        },
        forall|k: int| 0 <= k < entries.len() && entries[k].0 != 2 ==>
            (#[trigger] readdir_listing(ino, 0, entries, attrs)[k + 2]).0 == entries[k].0,
{
}

/// A listing requested past offset 0 holds no "." or ".." item: each of its
/// items is an entry of the directory, under that entry's name.
pub proof fn lemma_resumed_listing_has_no_dots(
    ino: u64,
    offset: i64,
    entries: Seq<(u32, Seq<char>, u8)>,
    attrs: Seq<Option<Ext2FileAttr>>,
)
    requires
        offset > 0,
        entries.len() + 3 <= i64::MAX,
    ensures
        forall|k: int| 0 <= k < readdir_listing(ino, offset, entries, attrs).len() ==>
            (#[trigger] readdir_listing(ino, offset, entries, attrs)[k]).3
                == entries[readdir_start_of(offset) + k].1,
{
}

} // verus!
