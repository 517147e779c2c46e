//! The order of libext2fs calls in each operation of the driver, and what
//! each failure is reported as.
//!
//! An operation that makes several calls is a machine: `start` names the
//! first call, and `resume`, given what the last call returned, names the
//! next call or ends the operation. The program around the library makes
//! the calls. Every operation that changes the filesystem ends with a flush
//! and reports success only when that flush succeeded; every file that an
//! operation opens is closed before the operation ends; removing the last
//! link of an inode releases its blocks and frees it; a directory is
//! removed only when it is empty, and refused before anything changes
//! otherwise.

use vstd::prelude::*;
use crate::ext2fs::RawInode;
use crate::ext2fs::S_IFDIR;
use crate::ext2fs::S_IFMT;
use crate::ext2fs::mode_is_dir;
use crate::ext2fs::new_file_record;
use crate::ext2fs::error_table_text;
use crate::ext2fs::Ext2FsHandle;
use crate::text::int_decimal;
use crate::text::nat_decimal;
use crate::text::i64_to_decimal;
use crate::text::u64_to_decimal;
use vstd::utf8::encode_utf8;

verus! {

/// How an operation failed, in the terms of `std::io::ErrorKind`.
#[derive(Debug, Clone, Copy, PartialEq, Eq, Structural)]
pub enum FsErrorKind {
    Other,
    InvalidInput,
    NotFound,
    DirectoryNotEmpty,
    NotADirectory,
}

/// The error that a failed operation reports.
#[derive(Debug)]
pub struct FsError {
    pub kind: FsErrorKind,
    pub msg: String,
}

impl View for FsError {
    type V = (FsErrorKind, Seq<char>);

    open spec fn view(&self) -> (FsErrorKind, Seq<char>) {
        (self.kind, self.msg@)
    }
}

/// What a libext2fs call returned: its error code (0 for success), its
/// value: the inode that `NewInode` allocated or `Lookup` found, 1 when
/// `FileOpen` gave a file and 0 when it gave none, the bytes that `FileRead`
/// read or `FileWrite` wrote, the number of entries (besides "." and "..")
/// that `ListDir` found; 0 for the other calls; and the record that
/// `ReadInode` read (all zero for the other calls).
#[derive(Debug, Clone, Copy, PartialEq, Eq, Structural)]
pub struct CallResult {
    pub retval: i64,
    pub value: u64,
    pub record: RawInode,
}

/// A libext2fs call that an operation asks for.
#[derive(Debug)]
pub enum Ext2Call {
    /// `ext2fs_new_inode` in directory `dir` for an inode of mode `mode`.
    NewInode { dir: u32, mode: u16 },
    /// `ext2fs_inode_alloc_stats2`, counting `ino` as a regular file in use.
    MarkInodeInUse { ino: u32 },
    /// `ext2fs_write_inode` of `inode` as inode `ino`.
    WriteInode { ino: u32, inode: RawInode },
    /// `ext2fs_link` of inode `ino` under `name` in `dir`, as a regular file.
    Link { dir: u32, name: String, ino: u32 },
    /// `ext2fs_unlink` of `name` from `dir`.
    Unlink { dir: u32, name: String },
    /// `ext2fs_mkdir` of directory `ino` under `name` in `parent`.
    Mkdir { parent: u32, ino: u32, name: String },
    /// `ext2fs_file_open` of inode `ino`, for writing when `write` holds.
    FileOpen { ino: u32, write: bool },
    /// `ext2fs_file_llseek` of the open file to `offset`.
    FileSeek { offset: u64 },
    /// `ext2fs_file_read` of `size` bytes from the open file.
    FileRead { size: u32 },
    /// `ext2fs_file_write` of the first `len` bytes of the data.
    FileWrite { len: u32 },
    /// `ext2fs_file_close` of the open file.
    FileClose,
    /// `ext2fs_flush`.
    Flush,
    /// `ext2fs_read_bitmaps`.
    ReadBitmaps,
    /// `ext2fs_lookup` of `name` in `dir`.
    Lookup { dir: u32, name: String },
    /// `ext2fs_read_inode` of inode `ino`.
    ReadInode { ino: u32 },
    /// Reads the entries of directory `dir` (`Ext2FsHandle::read_dir_entries`
    /// of what `ext2fs_dir_iterate2` hands over).
    ListDir { dir: u32 },
    /// Reads inode `ino`, sets its link count to `links` and, when given,
    /// its deletion time to `dtime`, and writes it back.
    SetLinks { ino: u32, links: u16, dtime: Option<u32> },
    /// Releases the blocks that inode `ino` holds, when it holds any
    /// (`ext2fs_inode_has_valid_blocks2`, then `ext2fs_punch` of all of it).
    ReleaseBlocks { ino: u32 },
    /// `ext2fs_inode_alloc_stats2`, counting `ino` (a directory when `is_dir`
    /// holds) as free.
    MarkInodeFree { ino: u32, is_dir: bool },
}

/// What an operation does next: make a call and go on in state `M`, or end
/// with a result.
#[derive(Debug)]
pub enum Step<M, T> {
    Next(M, Ext2Call),
    Done(Result<T, FsError>),
}

/// The step that ends an operation with a failure of kind `Other` whose
/// message is `prefix` followed by the error code.
pub open spec fn fails_with<M, T>(s: Step<M, T>, prefix: Seq<char>, retval: i64) -> bool {
    &&& s matches Step::Done(Err(e))
    &&& e@ == (FsErrorKind::Other, prefix + int_decimal(retval as int))
}

/// The position of the first zero byte, if any.
pub open spec fn first_nul(bytes: Seq<u8>) -> Option<int> {
    if exists|i: int| 0 <= i < bytes.len() && bytes[i] == 0 {
        Some(choose|i: int| 0 <= i < bytes.len() && bytes[i] == 0 && forall|j: int| 0 <= j < i ==> bytes[j] != 0)
    } else {
        None
    }
}

/// The error that turning text with a zero byte at `pos` into a C string
/// reports.
pub open spec fn nul_error_text(pos: int) -> Seq<char> {
    "nul byte found in provided data at position: "@ + int_decimal(pos)
}

/// The step that ends an operation because `bytes` hold a zero byte, which a
/// C string cannot.
pub open spec fn fails_on_nul<M, T>(s: Step<M, T>, bytes: Seq<u8>) -> bool {
    &&& first_nul(bytes) is Some
    &&& s matches Step::Done(Err(e))
    &&& e@ == (FsErrorKind::InvalidInput, nul_error_text(first_nul(bytes).unwrap()))
}

/// The failure of kind `Other` whose message is `prefix` followed by the
/// error code.
fn failure(prefix: &str, retval: i64) -> (e: FsError)
    ensures
        e@ == (FsErrorKind::Other, prefix@ + int_decimal(retval as int)),
{
    FsError { kind: FsErrorKind::Other, msg: String::from_str(prefix).concat(i64_to_decimal(retval).as_str()) }
}

/// The error that a text with a zero byte reports when it is turned into a C
/// string, or none when it has none.
pub fn nul_error(bytes: &[u8]) -> (e: Option<FsError>)
    ensures
        (e is None) <==> (first_nul(bytes@) is None),
        first_nul(bytes@) is Some ==> e == Some(FsError { kind: FsErrorKind::InvalidInput, msg: e.unwrap().msg }) && e.unwrap().msg@ == nul_error_text(first_nul(bytes@).unwrap()),
{
    let mut i: usize = 0;
    while i < bytes.len()
        invariant
            i <= bytes@.len(),
            forall|j: int| 0 <= j < i ==> bytes@[j] != 0,
        decreases bytes@.len() - i,
    {
        if bytes[i] == 0 {
            proof {
                let w = choose|k: int| 0 <= k < bytes@.len() && bytes@[k] == 0 && forall|j: int| 0 <= j < k ==> bytes@[j] != 0;
                assert(0 <= i < bytes@.len() && bytes@[i as int] == 0 && forall|j: int| 0 <= j < i ==> bytes@[j] != 0);
                if w < i {
                    assert(bytes@[w] != 0);
                } else if w > i {
                    assert(bytes@[i as int] != 0);
                }
                assert(w == i);
            }
            let msg = String::from_str("nul byte found in provided data at position: ")
                .concat(u64_to_decimal(i as u64).as_str());
            return Some(FsError { kind: FsErrorKind::InvalidInput, msg });
        }
        i += 1;
    }
    None
}

/// `r` is an error of kind `kind` with message `text`.
pub open spec fn err_is<T>(r: Result<T, FsError>, kind: FsErrorKind, text: Seq<char>) -> bool {
    &&& r matches Err(e)
    &&& e@ == (kind, text)
}

/// The message that a failed flush reports.
pub open spec fn flush_failed_text() -> Seq<char> {
    "Failed to flush ext4 filesystem: "@
}

/// What `ext2fs_flush` returning `retval` makes of a flush.
pub fn flush_result(retval: i64) -> (r: Result<(), FsError>)
    ensures
        retval == 0 ==> r == Ok::<(), FsError>(()),
        retval != 0 ==> err_is(r, FsErrorKind::Other, flush_failed_text() + int_decimal(retval as int)),
{
    if retval != 0 {
        Err(failure("Failed to flush ext4 filesystem: ", retval))
    } else {
        Ok(())
    }
}

/// What `ext2fs_read_bitmaps` returning `retval` makes of reading the
/// allocation bitmaps.
pub fn read_bitmaps_result(retval: i64) -> (r: Result<(), FsError>)
    ensures
        retval == 0 ==> r == Ok::<(), FsError>(()),
        retval != 0 ==> err_is(r, FsErrorKind::Other, "Failed to read ext4 bitmaps: "@ + int_decimal(retval as int)),
{
    if retval != 0 {
        Err(failure("Failed to read ext4 bitmaps: ", retval))
    } else {
        Ok(())
    }
}

/// What `ext2fs_read_inode` of inode `ino` returning `retval` makes of
/// reading it.
pub fn read_inode_result(ino: u32, retval: i64) -> (r: Result<(), FsError>)
    ensures
        retval == 0 ==> r == Ok::<(), FsError>(()),
        retval != 0 ==> err_is(
            r,
            FsErrorKind::Other,
            "Failed to read inode "@ + nat_decimal(ino as nat) + ": "@ + int_decimal(retval as int),
        ),
{
    if retval != 0 {
        let msg = String::from_str("Failed to read inode ")
            .concat(u64_to_decimal(ino as u64).as_str())
            .concat(": ")
            .concat(i64_to_decimal(retval).as_str());
        Err(FsError { kind: FsErrorKind::Other, msg })
    } else {
        Ok(())
    }
}

/// What `ext2fs_dir_iterate2` over directory `dir` returning `retval` makes
/// of reading it.
pub fn read_dir_result(dir: u32, retval: i64) -> (r: Result<(), FsError>)
    ensures
        retval == 0 ==> r == Ok::<(), FsError>(()),
        retval != 0 ==> err_is(
            r,
            FsErrorKind::Other,
            "Failed to iterate directory inode "@ + nat_decimal(dir as nat) + ": "@ + int_decimal(retval as int),
        ),
{
    if retval != 0 {
        let msg = String::from_str("Failed to iterate directory inode ")
            .concat(u64_to_decimal(dir as u64).as_str())
            .concat(": ")
            .concat(i64_to_decimal(retval).as_str());
        Err(FsError { kind: FsErrorKind::Other, msg })
    } else {
        Ok(())
    }
}

/// What `ext2fs_namei` of `path` returning `retval` and the inode `ino`
/// makes of a path lookup: the inode, or a `NotFound` error naming the path.
pub fn namei_result(path: &str, retval: i64, ino: u32) -> (r: Result<u32, FsError>)
    ensures
        retval == 0 ==> r == Ok::<u32, FsError>(ino),
        retval != 0 ==> err_is(r, FsErrorKind::NotFound, "Path '"@ + path@ + "' not found in ext4 filesystem"@),
{
    if retval != 0 {
        let msg = String::from_str("Path '").concat(path).concat("' not found in ext4 filesystem");
        Err(FsError { kind: FsErrorKind::NotFound, msg })
    } else {
        Ok(ino)
    }
}

/// The text that a failed `ext2fs_open` reports.
pub open spec fn open_failed_text(retval: i64, raw_msg: Option<Seq<char>>) -> Seq<char> {
    "Failed to open ext4 filesystem: "@ + error_table_text(retval, raw_msg) + " (code: "@ + int_decimal(
        retval as int,
    ) + ")"@
}

/// The view of an optional text.
pub open spec fn opt_view(t: Option<&str>) -> Option<Seq<char>> {
    match t {
        Some(m) => Some(m@),
        None => None,
    }
}

/// What `ext2fs_open` of `path` returning `retval` (and a filesystem, when
/// `opened` holds) makes of opening it; `raw_msg` is the text of the error
/// table for `retval`, none when it has none.
pub fn open_result(retval: i64, opened: bool, raw_msg: Option<&str>, path: &str) -> (r: Result<(), FsError>)
    ensures
        retval == 0 && opened ==> r == Ok::<(), FsError>(()),
        !(retval == 0 && opened) ==> err_is(r, FsErrorKind::Other, open_failed_text(retval, opt_view(raw_msg))),
{
    if retval != 0 || !opened {
        let detail = Ext2FsHandle::<()>::error_string(retval, raw_msg, path);
        let msg = String::from_str("Failed to open ext4 filesystem: ").concat(detail.as_str());
        assert(msg@ =~= open_failed_text(retval, opt_view(raw_msg)));
        Err(FsError { kind: FsErrorKind::Other, msg })
    } else {
        Ok(())
    }
}


/// The bytes of a text in UTF-8.
pub open spec fn utf8_bytes(t: Seq<char>) -> Seq<u8> {
    encode_utf8(t)
}

/// The link count that one less link leaves: one fewer, but never below 0.
pub open spec fn links_after_unlink(links: u16) -> u16 {
    if links > 0 {
        (links - 1) as u16
    } else {
        0
    }
}

/// A time in seconds as an inode stores it: modulo 2^32.
pub open spec fn inode_time(now: u64) -> u32 {
    (now as int % 0x1_0000_0000) as u32
}

/// A message of `prefix`, a number and ": ".
pub open spec fn numbered(prefix: Seq<char>, n: u32) -> Seq<char> {
    prefix + nat_decimal(n as nat) + ": "@
}

fn numbered_text(prefix: &str, n: u32) -> (s: String)
    ensures
        s@ == numbered(prefix@, n),
{
    String::from_str(prefix).concat(u64_to_decimal(n as u64).as_str()).concat(": ")
}

fn named_text(prefix: &str, name: &str) -> (s: String)
    ensures
        s@ == prefix@ + name@ + ": "@,
{
    String::from_str(prefix).concat(name).concat(": ")
}

fn time_of(now: u64) -> (t: u32)
    ensures
        t == inode_time(now),
{
    assert(((now & 0xFFFF_FFFF) as u32) as int == now as int % 0x1_0000_0000) by (bit_vector);
    (now & 0xFFFF_FFFF) as u32
}

/// `unlink`: finds the inode that `name` names in `dir`, reads it, removes
/// the name, counts one link less (setting the deletion time when none is
/// left) and, when no link is left, releases the inode's blocks and frees
/// the inode; then flushes. When the inode cannot be looked up or read, the
/// name is still removed and the inode left as it is.
#[derive(Debug)]
pub enum UnlinkOp {
    /// The name is being looked up.
    Looking { dir: u32, name: String, now: u32 },
    /// Inode `ino`, which the name names, is being read.
    Reading { dir: u32, name: String, now: u32, ino: u32 },
    /// The name is being removed; inode `ino` had `links` links.
    Removing { name: String, now: u32, ino: u32, links: u16, is_dir: bool },
    /// The name is being removed although its inode could not be looked up
    /// or read; the inode is then left as it is.
    RemovingOnly { name: String },
    /// The link count of inode `ino` is being set to `links`.
    Dropping { ino: u32, links: u16, is_dir: bool },
    /// The blocks of inode `ino` are being released.
    Releasing { ino: u32, is_dir: bool },
    /// Inode `ino` is being counted free.
    Freeing,
    /// The filesystem is being flushed.
    Flushing,
}

impl UnlinkOp {
    /// Starts removing `name` from directory `dir` at `now` seconds since the
    /// Unix epoch: fails at once when the name holds a zero byte.
    pub fn start(dir: u32, name: &str, now: u64) -> (s: Step<UnlinkOp, ()>)
        ensures
            unlink_started(dir, name@, now, s),
    {
        match nul_error(name.as_bytes()) {
            Some(e) => Step::Done(Err(e)),
            None => Step::Next(
                UnlinkOp::Looking { dir, name: String::from_str(name), now: time_of(now) },
                Ext2Call::Lookup { dir, name: String::from_str(name) },
            ),
        }
    }

    /// Goes on after the last call returned `r`.
    pub fn resume(self, r: CallResult) -> (s: Step<UnlinkOp, ()>)
        ensures
            unlink_next(self, r, s),
            s matches Step::Done(Ok(_)) ==> (self is Flushing && r.retval == 0),
    {
        match self {
            UnlinkOp::Looking { dir, name, now } => {
                if r.retval != 0 {
                    let call_name = name.clone();
                    Step::Next(UnlinkOp::RemovingOnly { name }, Ext2Call::Unlink { dir, name: call_name })
                } else {
                    let ino = r.value as u32;
                    Step::Next(UnlinkOp::Reading { dir, name, now, ino }, Ext2Call::ReadInode { ino })
                }
            },
            UnlinkOp::Reading { dir, name, now, ino } => {
                let call_name = name.clone();
                if r.retval != 0 {
                    Step::Next(UnlinkOp::RemovingOnly { name }, Ext2Call::Unlink { dir, name: call_name })
                } else {
                    let links = r.record.i_links_count;
                    let is_dir = (r.record.i_mode & S_IFMT) == S_IFDIR;
                    Step::Next(UnlinkOp::Removing { name, now, ino, links, is_dir }, Ext2Call::Unlink { dir, name: call_name })
                }
            },
            UnlinkOp::Removing { name, now, ino, links, is_dir } => {
                if r.retval != 0 {
                    let prefix = named_text("Failed to unlink ", name.as_str());
                    Step::Done(Err(failure(prefix.as_str(), r.retval)))
                } else {
                    let left: u16 = if links > 0 { links - 1 } else { 0 };
                    let dtime = if left == 0 { Some(now) } else { None };
                    Step::Next(UnlinkOp::Dropping { ino, links: left, is_dir }, Ext2Call::SetLinks { ino, links: left, dtime })
                }
            },
            UnlinkOp::RemovingOnly { name } => {
                if r.retval != 0 {
                    let prefix = named_text("Failed to unlink ", name.as_str());
                    Step::Done(Err(failure(prefix.as_str(), r.retval)))
                } else {
                    Step::Next(UnlinkOp::Flushing, Ext2Call::Flush)
                }
            },
            UnlinkOp::Dropping { ino, links, is_dir } => {
                if r.retval != 0 {
                    let prefix = numbered_text("Failed to write inode ", ino);
                    Step::Done(Err(failure(prefix.as_str(), r.retval)))
                } else if links == 0 {
                    Step::Next(UnlinkOp::Releasing { ino, is_dir }, Ext2Call::ReleaseBlocks { ino })
                } else {
                    Step::Next(UnlinkOp::Flushing, Ext2Call::Flush)
                }
            },
            UnlinkOp::Releasing { ino, is_dir } => {
                if r.retval != 0 {
                    let prefix = numbered_text("Failed to release the blocks of inode ", ino);
                    Step::Done(Err(failure(prefix.as_str(), r.retval)))
                } else {
                    Step::Next(UnlinkOp::Freeing, Ext2Call::MarkInodeFree { ino, is_dir })
                }
            },
            UnlinkOp::Freeing => Step::Next(UnlinkOp::Flushing, Ext2Call::Flush),
            UnlinkOp::Flushing => {
                if r.retval != 0 {
                    Step::Done(Err(failure("Failed to flush ext4 filesystem: ", r.retval)))
                } else {
                    Step::Done(Ok(()))
                }
            },
        }
    }
}

/// The step that `UnlinkOp::start` takes for removing `name` from `dir` at
/// `now`: a failure when the name holds a zero byte, else the lookup of the
/// name.
pub open spec fn unlink_started(dir: u32, name: Seq<char>, now: u64, s: Step<UnlinkOp, ()>) -> bool {
    if first_nul(utf8_bytes(name)) is Some {
        fails_on_nul(s, utf8_bytes(name))
    } else {
        s matches Step::Next(UnlinkOp::Looking { dir: d, name: n, now: t }, Ext2Call::Lookup { dir: d2, name: m })
            && n@ == name && m@ == name && d == dir && d2 == dir && t == inode_time(now)
    }
}

/// The step that `UnlinkOp::resume` takes from state `m` after a call
/// returned `r`. When the name cannot be looked up, or its inode cannot be
/// read, the name is still removed (and the error of that removal, if any,
/// is the one reported); the inode is then left as it is.
pub open spec fn unlink_next(m: UnlinkOp, r: CallResult, s: Step<UnlinkOp, ()>) -> bool {
    match m {
        UnlinkOp::Looking { dir, name, now } => if r.retval != 0 {
            s matches Step::Next(UnlinkOp::RemovingOnly { name: n }, Ext2Call::Unlink { dir: d, name: k })
                && n@ == name@ && k@ == name@ && d == dir
        } else {
            s matches Step::Next(UnlinkOp::Reading { dir: d, name: n, now: t, ino }, Ext2Call::ReadInode { ino: i })
                && d == dir && n@ == name@ && t == now && ino == r.value as u32 && i == ino
        },
        UnlinkOp::Reading { dir, name, now, ino } => if r.retval != 0 {
            s matches Step::Next(UnlinkOp::RemovingOnly { name: n }, Ext2Call::Unlink { dir: d, name: k })
                && n@ == name@ && k@ == name@ && d == dir
        } else {
            s matches Step::Next(
                UnlinkOp::Removing { name: n, now: t, ino: i, links, is_dir },
                Ext2Call::Unlink { dir: d, name: k },
            ) && n@ == name@ && k@ == name@ && t == now && i == ino && d == dir
                && links == r.record.i_links_count && is_dir == mode_is_dir(r.record.i_mode)
        },
        UnlinkOp::Removing { name, now, ino, links, is_dir } => if r.retval != 0 {
            fails_with(s, "Failed to unlink "@ + name@ + ": "@, r.retval)
        } else {
            s matches Step::Next(
                UnlinkOp::Dropping { ino: i, links: l, is_dir: d },
                Ext2Call::SetLinks { ino: j, links: k, dtime },
            ) && i == ino && j == ino && l == links_after_unlink(links) && k == l && d == is_dir
                && dtime == if l == 0 { Some(now) } else { None::<u32> }
        },
        UnlinkOp::RemovingOnly { name } => if r.retval != 0 {
            fails_with(s, "Failed to unlink "@ + name@ + ": "@, r.retval)
        } else {
            s matches Step::Next(UnlinkOp::Flushing, Ext2Call::Flush)
        },
        UnlinkOp::Dropping { ino, links, is_dir } => if r.retval != 0 {
            fails_with(s, numbered("Failed to write inode "@, ino), r.retval)
        } else if links == 0 {
            s matches Step::Next(UnlinkOp::Releasing { ino: i, is_dir: d }, Ext2Call::ReleaseBlocks { ino: j })
                && i == ino && j == ino && d == is_dir
        } else {
            s matches Step::Next(UnlinkOp::Flushing, Ext2Call::Flush)
        },
        UnlinkOp::Releasing { ino, is_dir } => if r.retval != 0 {
            fails_with(s, numbered("Failed to release the blocks of inode "@, ino), r.retval)
        } else {
            s matches Step::Next(UnlinkOp::Freeing, Ext2Call::MarkInodeFree { ino: i, is_dir: d }) && i == ino
                && d == is_dir
        },
        UnlinkOp::Freeing => s matches Step::Next(UnlinkOp::Flushing, Ext2Call::Flush),
        UnlinkOp::Flushing => if r.retval != 0 {
            fails_with(s, flush_failed_text(), r.retval)
        } else {
            s matches Step::Done(Ok(()))
        },
    }
}

/// `steps` and `results` form a run of `UnlinkOp`: each step but the last
/// asks for a call, and the step after it is what `resume` takes when that
/// call returned the matching result.
pub open spec fn unlink_run(steps: Seq<Step<UnlinkOp, ()>>, results: Seq<CallResult>) -> bool {
    &&& steps.len() == results.len() + 1
    &&& forall|k: int| 0 <= k < results.len() ==> #[trigger] unlink_moves(steps, results, k)
}

/// Step `k` of `steps` asks for a call, and step `k + 1` is what `resume`
/// takes when that call returned result `k`.
pub open spec fn unlink_moves(steps: Seq<Step<UnlinkOp, ()>>, results: Seq<CallResult>, k: int) -> bool {
    steps[k] matches Step::Next(m, _) && unlink_next(m, results[k], steps[k + 1])
}

/// Removing the last link of a file, when every call succeeds: the name is
/// looked up, its inode read, the name removed, the link count set to 0 with
/// the deletion time, the inode's blocks released and the inode counted free,
/// then the filesystem is flushed and the operation ends with `Ok`.
pub proof fn lemma_unlink_last_link_run(
    dir: u32,
    name: Seq<char>,
    now: u64,
    steps: Seq<Step<UnlinkOp, ()>>,
    results: Seq<CallResult>,
)
    requires
        first_nul(utf8_bytes(name)) is None,
        unlink_started(dir, name, now, steps[0]),
        unlink_run(steps, results),
        results.len() == 7,
        forall|k: int| 0 <= k < 7 ==> (#[trigger] results[k]).retval == 0,
        results[1].record.i_links_count == 1,
    ensures
        ({
            let ino = results[0].value as u32;
            &&& steps[0] matches Step::Next(_, Ext2Call::Lookup { dir: d, name: n }) && d == dir && n@ == name
            &&& steps[1] matches Step::Next(_, Ext2Call::ReadInode { ino: i }) && i == ino
            &&& steps[2] matches Step::Next(_, Ext2Call::Unlink { dir: d, name: n }) && d == dir && n@ == name
            &&& steps[3] matches Step::Next(_, Ext2Call::SetLinks { ino: i, links, dtime })
                && i == ino && links == 0 && dtime == Some(inode_time(now))
            &&& steps[4] matches Step::Next(_, Ext2Call::ReleaseBlocks { ino: i }) && i == ino
            &&& steps[5] matches Step::Next(_, Ext2Call::MarkInodeFree { ino: i, is_dir })
                && i == ino && is_dir == mode_is_dir(results[1].record.i_mode)
            &&& steps[6] matches Step::Next(_, Ext2Call::Flush)
            &&& steps[7] matches Step::Done(Ok(()))
        }),
{
    assert(unlink_moves(steps, results, 0));
    assert(results[0].retval == 0);
    assert(unlink_moves(steps, results, 1));
    assert(results[1].retval == 0);
    assert(unlink_moves(steps, results, 2));
    assert(results[2].retval == 0);
    assert(unlink_moves(steps, results, 3));
    assert(results[3].retval == 0);
    assert(unlink_moves(steps, results, 4));
    assert(results[4].retval == 0);
    assert(unlink_moves(steps, results, 5));
    assert(unlink_moves(steps, results, 6));
    assert(results[6].retval == 0);
}

/// Removing one of several links of a file, when every call succeeds: the
/// name is looked up, its inode read, the name removed and the link count
/// lowered by one with no deletion time; the inode and its blocks stay, the
/// filesystem is flushed and the operation ends with `Ok`.
pub proof fn lemma_unlink_shared_link_run(
    dir: u32,
    name: Seq<char>,
    now: u64,
    steps: Seq<Step<UnlinkOp, ()>>,
    results: Seq<CallResult>,
)
    requires
        first_nul(utf8_bytes(name)) is None,
        unlink_started(dir, name, now, steps[0]),
        unlink_run(steps, results),
        results.len() == 5,
        forall|k: int| 0 <= k < 5 ==> (#[trigger] results[k]).retval == 0,
        results[1].record.i_links_count > 1,
    ensures
        ({
            let ino = results[0].value as u32;
            &&& steps[0] matches Step::Next(_, Ext2Call::Lookup { dir: d, name: n }) && d == dir && n@ == name
            &&& steps[1] matches Step::Next(_, Ext2Call::ReadInode { ino: i }) && i == ino
            &&& steps[2] matches Step::Next(_, Ext2Call::Unlink { dir: d, name: n }) && d == dir && n@ == name
            &&& steps[3] matches Step::Next(_, Ext2Call::SetLinks { ino: i, links, dtime })
                && i == ino && links == results[1].record.i_links_count - 1 && dtime is None
            &&& steps[4] matches Step::Next(_, Ext2Call::Flush)
            &&& steps[5] matches Step::Done(Ok(()))
        }),
{
    assert(unlink_moves(steps, results, 0));
    assert(results[0].retval == 0);
    assert(unlink_moves(steps, results, 1));
    assert(results[1].retval == 0);
    assert(unlink_moves(steps, results, 2));
    assert(results[2].retval == 0);
    assert(unlink_moves(steps, results, 3));
    assert(results[3].retval == 0);
    assert(unlink_moves(steps, results, 4));
    assert(results[4].retval == 0);
}

/// The link count that a parent directory keeps when a subdirectory (and so
/// its ".." link) goes: one fewer, but never below 1.
pub open spec fn parent_links_after_rmdir(links: u16) -> u16 {
    if links > 1 {
        (links - 1) as u16
    } else {
        links
    }
}

/// `rmdir`: finds the inode that `name` names in `parent` and reads it;
/// refuses, before changing anything, when it is not a directory or holds
/// entries besides "." and ".."; otherwise removes the name, clears the
/// directory's links (setting its deletion time), releases its blocks,
/// frees it, counts one link less in the parent, then flushes.
#[derive(Debug)]
pub enum RemoveDir {
    /// The name is being looked up.
    Looking { parent: u32, name: String, now: u32 },
    /// Inode `ino`, which the name names, is being read.
    Reading { parent: u32, name: String, now: u32, ino: u32 },
    /// Directory `ino` is being listed.
    Listing { parent: u32, name: String, now: u32, ino: u32 },
    /// The name is being removed.
    Removing { parent: u32, name: String, now: u32, ino: u32 },
    /// The links of directory `ino` are being cleared.
    Clearing { parent: u32, ino: u32 },
    /// The blocks of directory `ino` are being released.
    Releasing { parent: u32, ino: u32 },
    /// Directory `ino` is being counted free.
    Freeing { parent: u32 },
    /// The parent's record is being read.
    ReadingParent { parent: u32 },
    /// The parent's link count is being set.
    DroppingParent { parent: u32 },
    /// The filesystem is being flushed.
    Flushing,
}

impl RemoveDir {
    /// Starts removing directory `name` from `parent` at `now` seconds since
    /// the Unix epoch: fails at once when the name holds a zero byte.
    pub fn start(parent: u32, name: &str, now: u64) -> (s: Step<RemoveDir, ()>)
        ensures
            first_nul(utf8_bytes(name@)) is Some ==> fails_on_nul(s, utf8_bytes(name@)),
            first_nul(utf8_bytes(name@)) is None ==> (s matches Step::Next(
                RemoveDir::Looking { parent: p, name: n, now: t },
                Ext2Call::Lookup { dir, name: m },
            ) && n@ == name@ && m@ == name@ && p == parent && dir == parent && t == inode_time(now)),
    {
        match nul_error(name.as_bytes()) {
            Some(e) => Step::Done(Err(e)),
            None => Step::Next(
                RemoveDir::Looking { parent, name: String::from_str(name), now: time_of(now) },
                Ext2Call::Lookup { dir: parent, name: String::from_str(name) },
            ),
        }
    }

    /// Goes on after the last call returned `r`.
    pub fn resume(self, r: CallResult) -> (s: Step<RemoveDir, ()>)
        ensures
            (match self {
                RemoveDir::Looking { parent, name, now } => if r.retval != 0 {
                    fails_with(s, "Failed to remove directory "@ + name@ + ": "@, r.retval)
                } else {
                    s matches Step::Next(
                        RemoveDir::Reading { parent: p, name: n, now: t, ino },
                        Ext2Call::ReadInode { ino: i },
                    ) && p == parent && n@ == name@ && t == now && ino == r.value as u32 && i == ino
                },
                RemoveDir::Reading { parent, name, now, ino } => if r.retval != 0 {
                    fails_with(s, numbered("Failed to read inode "@, ino), r.retval)
                } else if !mode_is_dir(r.record.i_mode) {
                    s matches Step::Done(Err(e)) && e@ == (FsErrorKind::NotADirectory, "Not a directory: "@ + name@)
                } else {
                    s matches Step::Next(
                        RemoveDir::Listing { parent: p, name: n, now: t, ino: i },
                        Ext2Call::ListDir { dir },
                    ) && p == parent && n@ == name@ && t == now && i == ino && dir == ino
                },
                RemoveDir::Listing { parent, name, now, ino } => if r.retval != 0 {
                    fails_with(s, numbered("Failed to iterate directory inode "@, ino), r.retval)
                } else if r.value > 0 {
                    s matches Step::Done(Err(e)) && e@ == (FsErrorKind::DirectoryNotEmpty, "Directory not empty: "@ + name@)
                } else {
                    s matches Step::Next(
                        RemoveDir::Removing { parent: p, name: n, now: t, ino: i },
                        Ext2Call::Unlink { dir, name: m },
                    ) && p == parent && n@ == name@ && m@ == name@ && t == now && i == ino && dir == parent
                },
                RemoveDir::Removing { parent, name, now, ino } => if r.retval != 0 {
                    fails_with(s, "Failed to unlink "@ + name@ + ": "@, r.retval)
                } else {
                    s matches Step::Next(
                        RemoveDir::Clearing { parent: p, ino: i },
                        Ext2Call::SetLinks { ino: j, links, dtime },
                    ) && p == parent && i == ino && j == ino && links == 0 && dtime == Some(now)
                },
                RemoveDir::Clearing { parent, ino } => if r.retval != 0 {
                    fails_with(s, numbered("Failed to write inode "@, ino), r.retval)
                } else {
                    s matches Step::Next(RemoveDir::Releasing { parent: p, ino: i }, Ext2Call::ReleaseBlocks { ino: j })
                        && p == parent && i == ino && j == ino
                },
                RemoveDir::Releasing { parent, ino } => if r.retval != 0 {
                    fails_with(s, numbered("Failed to release the blocks of inode "@, ino), r.retval)
                } else {
                    s matches Step::Next(RemoveDir::Freeing { parent: p }, Ext2Call::MarkInodeFree { ino: i, is_dir })
                        && p == parent && i == ino && is_dir
                },
                RemoveDir::Freeing { parent } => s matches Step::Next(
                    RemoveDir::ReadingParent { parent: p },
                    Ext2Call::ReadInode { ino },
                ) && p == parent && ino == parent,
                RemoveDir::ReadingParent { parent } => if r.retval != 0 {
                    fails_with(s, numbered("Failed to read inode "@, parent), r.retval)
                } else {
                    s matches Step::Next(
                        RemoveDir::DroppingParent { parent: p },
                        Ext2Call::SetLinks { ino, links, dtime },
                    ) && p == parent && ino == parent && links == parent_links_after_rmdir(r.record.i_links_count)
                        && dtime is None
                },
                RemoveDir::DroppingParent { parent } => if r.retval != 0 {
                    fails_with(s, numbered("Failed to write inode "@, parent), r.retval)
                } else {
                    s matches Step::Next(RemoveDir::Flushing, Ext2Call::Flush)
                },
                RemoveDir::Flushing => if r.retval != 0 {
                    fails_with(s, flush_failed_text(), r.retval)
                } else {
                    s matches Step::Done(Ok(()))
                },
            }),
            s matches Step::Done(Ok(_)) ==> (self is Flushing && r.retval == 0),
            s matches Step::Done(Err(e)) && e.kind == FsErrorKind::DirectoryNotEmpty ==> (self is Listing),
    {
        match self {
            RemoveDir::Looking { parent, name, now } => {
                if r.retval != 0 {
                    let prefix = named_text("Failed to remove directory ", name.as_str());
                    Step::Done(Err(failure(prefix.as_str(), r.retval)))
                } else {
                    let ino = r.value as u32;
                    Step::Next(RemoveDir::Reading { parent, name, now, ino }, Ext2Call::ReadInode { ino })
                }
            },
            RemoveDir::Reading { parent, name, now, ino } => {
                if r.retval != 0 {
                    let prefix = numbered_text("Failed to read inode ", ino);
                    Step::Done(Err(failure(prefix.as_str(), r.retval)))
                } else if (r.record.i_mode & S_IFMT) != S_IFDIR {
                    let msg = String::from_str("Not a directory: ").concat(name.as_str());
                    Step::Done(Err(FsError { kind: FsErrorKind::NotADirectory, msg }))
                } else {
                    Step::Next(RemoveDir::Listing { parent, name, now, ino }, Ext2Call::ListDir { dir: ino })
                }
            },
            RemoveDir::Listing { parent, name, now, ino } => {
                if r.retval != 0 {
                    let prefix = numbered_text("Failed to iterate directory inode ", ino);
                    Step::Done(Err(failure(prefix.as_str(), r.retval)))
                } else if r.value > 0 {
                    let msg = String::from_str("Directory not empty: ").concat(name.as_str());
                    Step::Done(Err(FsError { kind: FsErrorKind::DirectoryNotEmpty, msg }))
                } else {
                    let call_name = name.clone();
                    Step::Next(RemoveDir::Removing { parent, name, now, ino }, Ext2Call::Unlink { dir: parent, name: call_name })
                }
            },
            RemoveDir::Removing { parent, name, now, ino } => {
                if r.retval != 0 {
                    let prefix = named_text("Failed to unlink ", name.as_str());
                    Step::Done(Err(failure(prefix.as_str(), r.retval)))
                } else {
                    Step::Next(RemoveDir::Clearing { parent, ino }, Ext2Call::SetLinks { ino, links: 0, dtime: Some(now) })
                }
            },
            RemoveDir::Clearing { parent, ino } => {
                if r.retval != 0 {
                    let prefix = numbered_text("Failed to write inode ", ino);
                    Step::Done(Err(failure(prefix.as_str(), r.retval)))
                } else {
                    Step::Next(RemoveDir::Releasing { parent, ino }, Ext2Call::ReleaseBlocks { ino })
                }
            },
            RemoveDir::Releasing { parent, ino } => {
                if r.retval != 0 {
                    let prefix = numbered_text("Failed to release the blocks of inode ", ino);
                    Step::Done(Err(failure(prefix.as_str(), r.retval)))
                } else {
                    Step::Next(RemoveDir::Freeing { parent }, Ext2Call::MarkInodeFree { ino, is_dir: true })
                }
            },
            RemoveDir::Freeing { parent } => Step::Next(RemoveDir::ReadingParent { parent }, Ext2Call::ReadInode { ino: parent }),
            RemoveDir::ReadingParent { parent } => {
                if r.retval != 0 {
                    let prefix = numbered_text("Failed to read inode ", parent);
                    Step::Done(Err(failure(prefix.as_str(), r.retval)))
                } else {
                    let links = r.record.i_links_count;
                    let left: u16 = if links > 1 { links - 1 } else { links };
                    Step::Next(RemoveDir::DroppingParent { parent }, Ext2Call::SetLinks { ino: parent, links: left, dtime: None })
                }
            },
            RemoveDir::DroppingParent { parent } => {
                if r.retval != 0 {
                    let prefix = numbered_text("Failed to write inode ", parent);
                    Step::Done(Err(failure(prefix.as_str(), r.retval)))
                } else {
                    Step::Next(RemoveDir::Flushing, Ext2Call::Flush)
                }
            },
            RemoveDir::Flushing => {
                if r.retval != 0 {
                    Step::Done(Err(failure("Failed to flush ext4 filesystem: ", r.retval)))
                } else {
                    Step::Done(Ok(()))
                }
            },
        }
    }
}

/// What opening a filesystem does after `ext2fs_open` gave one: reads the
/// allocation bitmaps when the filesystem is writable, and keeps the
/// filesystem whatever that read returns.
#[derive(Debug)]
pub enum OpenedFs {
    /// The bitmaps are being read.
    LoadingBitmaps,
}

impl OpenedFs {
    /// Starts what follows a successful open.
    pub fn start(read_only: bool) -> (s: Step<OpenedFs, ()>)
        ensures
            read_only ==> (s matches Step::Done(Ok(()))),
            !read_only ==> (s matches Step::Next(OpenedFs::LoadingBitmaps, Ext2Call::ReadBitmaps)),
    {
        if read_only {
            Step::Done(Ok(()))
        } else {
            Step::Next(OpenedFs::LoadingBitmaps, Ext2Call::ReadBitmaps)
        }
    }

    /// Ends after the bitmaps were read, whatever the read returned.
    pub fn resume(self, r: CallResult) -> (s: Step<OpenedFs, ()>)
        ensures
            s matches Step::Done(Ok(())),
    {
        Step::Done(Ok(()))
    }
}

/// The flags with which a filesystem at `path` (its bytes) is opened, or the
/// error that a path holding a zero byte reports before libext2fs is asked.
pub fn open_request(path: &[u8], read_only: bool) -> (r: Result<i32, FsError>)
    ensures
        first_nul(path@) is None ==> r == Ok::<i32, FsError>(
            if read_only { 0x400i32 } else { 0x401i32 },
        ),
        first_nul(path@) is Some ==> err_is(r, FsErrorKind::InvalidInput, nul_error_text(first_nul(path@).unwrap())),
{
    match nul_error(path) {
        Some(e) => Err(e),
        None => Ok(Ext2FsHandle::<()>::open_flags(read_only)),
    }
}

/// `mkdir`: allocates a directory inode, makes the directory, then flushes.
#[derive(Debug)]
pub enum MakeDir {
    /// The inode is being allocated.
    Allocating { parent: u32, name: String },
    /// Directory `ino` is being made under `name`.
    Making { name: String, ino: u32 },
    /// The filesystem is being flushed.
    Flushing { ino: u32 },
}

impl MakeDir {
    /// Starts making directory `name` with permission bits `mode` in `parent`.
    pub fn start(parent: u32, name: &str, mode: u16) -> (s: Step<MakeDir, u32>)
        ensures
            s matches Step::Next(MakeDir::Allocating { parent: p, name: n }, Ext2Call::NewInode { dir, mode: m })
                && p == parent && n@ == name@ && dir == parent && m == mode | S_IFDIR,
    {
        let m = Ext2FsHandle::<()>::mkdir_mode(mode);
        Step::Next(MakeDir::Allocating { parent, name: String::from_str(name) }, Ext2Call::NewInode { dir: parent, mode: m })
    }

    /// Goes on after the last call returned `r`.
    pub fn resume(self, r: CallResult) -> (s: Step<MakeDir, u32>)
        ensures
            (match self {
                MakeDir::Allocating { parent, name } => if r.retval != 0 {
                    fails_with(s, "Failed to allocate dir inode: "@, r.retval)
                } else if first_nul(utf8_bytes(name@)) is Some {
                    fails_on_nul(s, utf8_bytes(name@))
                } else {
                    s matches Step::Next(MakeDir::Making { name: n, ino }, Ext2Call::Mkdir { parent: p, ino: i, name: m })
                        && n@ == name@ && m@ == name@ && p == parent && ino == r.value as u32 && i == ino
                },
                MakeDir::Making { name, ino } => if r.retval != 0 {
                    fails_with(s, "Failed to mkdir "@ + name@ + ": "@, r.retval)
                } else {
                    s matches Step::Next(MakeDir::Flushing { ino: i }, Ext2Call::Flush) && i == ino
                },
                MakeDir::Flushing { ino } => if r.retval != 0 {
                    fails_with(s, flush_failed_text(), r.retval)
                } else {
                    s matches Step::Done(Ok(i)) && i == ino
                },
            }),
            s matches Step::Done(Ok(_)) ==> (self is Flushing && r.retval == 0),
    {
        match self {
            MakeDir::Allocating { parent, name } => {
                if r.retval != 0 {
                    return Step::Done(Err(failure("Failed to allocate dir inode: ", r.retval)));
                }
                match nul_error(name.as_str().as_bytes()) {
                    Some(e) => Step::Done(Err(e)),
                    None => {
                        let ino = r.value as u32;
                        let call_name = name.clone();
                        Step::Next(MakeDir::Making { name, ino }, Ext2Call::Mkdir { parent, ino, name: call_name })
                    },
                }
            },
            MakeDir::Making { name, ino } => {
                if r.retval != 0 {
                    let prefix = String::from_str("Failed to mkdir ").concat(name.as_str()).concat(": ");
                    Step::Done(Err(failure(prefix.as_str(), r.retval)))
                } else {
                    Step::Next(MakeDir::Flushing { ino }, Ext2Call::Flush)
                }
            },
            MakeDir::Flushing { ino } => {
                if r.retval != 0 {
                    Step::Done(Err(failure("Failed to flush ext4 filesystem: ", r.retval)))
                } else {
                    Step::Done(Ok(ino))
                }
            },
        }
    }
}


/// `create_file`: allocates an inode, counts it in use, writes its record,
/// links it under its name, then flushes.
#[derive(Debug)]
pub enum CreateFile {
    /// The inode is being allocated.
    Allocating { parent: u32, name: String, record: RawInode },
    /// Inode `ino` is being counted in use.
    Counting { parent: u32, name: String, record: RawInode, ino: u32 },
    /// The record of inode `ino` is being written.
    Writing { parent: u32, name: String, ino: u32 },
    /// Inode `ino` is being linked under its name.
    Linking { ino: u32 },
    /// The filesystem is being flushed.
    Flushing { ino: u32 },
}

impl CreateFile {
    /// Starts creating regular file `name` in `parent` with permission bits
    /// `mode`, owned by `uid`/`gid`, at `now` seconds since the Unix epoch.
    pub fn start(parent: u32, name: &str, mode: u16, uid: u32, gid: u32, now: u64) -> (s: Step<CreateFile, u32>)
        ensures
            create_started(parent, name@, mode, uid, gid, now, s),
    {
        let record = Ext2FsHandle::<()>::new_file_inode(mode, uid, gid, now);
        Step::Next(
            CreateFile::Allocating { parent, name: String::from_str(name), record },
            Ext2Call::NewInode { dir: parent, mode },
        )
    }

    /// Goes on after the last call returned `r`.
    pub fn resume(self, r: CallResult) -> (s: Step<CreateFile, u32>)
        ensures
            create_next(self, r, s),
            s matches Step::Done(Ok(_)) ==> (self is Flushing && r.retval == 0),
    {
        match self {
            CreateFile::Allocating { parent, name, record } => {
                if r.retval != 0 {
                    Step::Done(Err(failure("Failed to allocate inode: ", r.retval)))
                } else {
                    let ino = r.value as u32;
                    Step::Next(CreateFile::Counting { parent, name, record, ino }, Ext2Call::MarkInodeInUse { ino })
                }
            },
            CreateFile::Counting { parent, name, record, ino } => {
                Step::Next(CreateFile::Writing { parent, name, ino }, Ext2Call::WriteInode { ino, inode: record })
            },
            CreateFile::Writing { parent, name, ino } => {
                if r.retval != 0 {
                    return Step::Done(Err(failure("Failed to write new inode: ", r.retval)));
                }
                match nul_error(name.as_str().as_bytes()) {
                    Some(e) => Step::Done(Err(e)),
                    None => Step::Next(CreateFile::Linking { ino }, Ext2Call::Link { dir: parent, name, ino }),
                }
            },
            CreateFile::Linking { ino } => {
                if r.retval != 0 {
                    Step::Done(Err(failure("Failed to link file: ", r.retval)))
                } else {
                    Step::Next(CreateFile::Flushing { ino }, Ext2Call::Flush)
                }
            },
            CreateFile::Flushing { ino } => {
                if r.retval != 0 {
                    Step::Done(Err(failure("Failed to flush ext4 filesystem: ", r.retval)))
                } else {
                    Step::Done(Ok(ino))
                }
            },
        }
    }
}

/// The step that `CreateFile::start` takes for creating `name` in `parent`:
/// the allocation of an inode, with the record that the file will get.
pub open spec fn create_started(
    parent: u32,
    name: Seq<char>,
    mode: u16,
    uid: u32,
    gid: u32,
    now: u64,
    s: Step<CreateFile, u32>,
) -> bool {
    s matches Step::Next(CreateFile::Allocating { parent: p, name: n, record }, Ext2Call::NewInode { dir, mode: m })
        && p == parent && n@ == name && record == new_file_record(mode, uid, gid, now) && dir == parent && m == mode
}

/// The step that `CreateFile::resume` takes from state `m` after a call
/// returned `r`.
pub open spec fn create_next(m: CreateFile, r: CallResult, s: Step<CreateFile, u32>) -> bool {
    match m {
        CreateFile::Allocating { parent, name, record } => if r.retval != 0 {
            fails_with(s, "Failed to allocate inode: "@, r.retval)
        } else {
            s matches Step::Next(
                CreateFile::Counting { parent: p, name: n, record: rec, ino },
                Ext2Call::MarkInodeInUse { ino: i },
            ) && p == parent && n@ == name@ && rec == record && ino == r.value as u32 && i == ino
        },
        CreateFile::Counting { parent, name, record, ino } => s matches Step::Next(
            CreateFile::Writing { parent: p, name: n, ino: i },
            Ext2Call::WriteInode { ino: j, inode },
        ) && p == parent && n@ == name@ && i == ino && j == ino && inode == record,
        CreateFile::Writing { parent, name, ino } => if r.retval != 0 {
            fails_with(s, "Failed to write new inode: "@, r.retval)
        } else if first_nul(utf8_bytes(name@)) is Some {
            fails_on_nul(s, utf8_bytes(name@))
        } else {
            s matches Step::Next(CreateFile::Linking { ino: i }, Ext2Call::Link { dir, name: n, ino: j })
                && i == ino && dir == parent && n@ == name@ && j == ino
        },
        CreateFile::Linking { ino } => if r.retval != 0 {
            fails_with(s, "Failed to link file: "@, r.retval)
        } else {
            s matches Step::Next(CreateFile::Flushing { ino: i }, Ext2Call::Flush) && i == ino
        },
        CreateFile::Flushing { ino } => if r.retval != 0 {
            fails_with(s, flush_failed_text(), r.retval)
        } else {
            s matches Step::Done(Ok(i)) && i == ino
        },
    }
}

/// `steps` and `results` form a run of `CreateFile`: each step but the last
/// asks for a call, and the step after it is what `resume` takes when that
/// call returned the matching result.
pub open spec fn create_run(steps: Seq<Step<CreateFile, u32>>, results: Seq<CallResult>) -> bool {
    &&& steps.len() == results.len() + 1
    &&& forall|k: int| 0 <= k < results.len() ==> #[trigger] create_moves(steps, results, k)
}

/// Step `k` of `steps` asks for a call, and step `k + 1` is what `resume`
/// takes when that call returned result `k`.
pub open spec fn create_moves(steps: Seq<Step<CreateFile, u32>>, results: Seq<CallResult>, k: int) -> bool {
    steps[k] matches Step::Next(m, _) && create_next(m, results[k], steps[k + 1])
}

/// Creating a file when every call succeeds: an inode is allocated in the
/// parent, counted in use, given the new file's record (`new_file_record`),
/// linked under the name in the parent, then the filesystem is flushed and
/// the operation ends with the new inode.
pub proof fn lemma_create_file_run(
    parent: u32,
    name: Seq<char>,
    mode: u16,
    uid: u32,
    gid: u32,
    now: u64,
    steps: Seq<Step<CreateFile, u32>>,
    results: Seq<CallResult>,
)
    requires
        first_nul(utf8_bytes(name)) is None,
        create_started(parent, name, mode, uid, gid, now, steps[0]),
        create_run(steps, results),
        results.len() == 5,
        forall|k: int| 0 <= k < 5 ==> (#[trigger] results[k]).retval == 0,
    ensures
        ({
            let ino = results[0].value as u32;
            &&& steps[0] matches Step::Next(_, Ext2Call::NewInode { dir, mode: m }) && dir == parent && m == mode
            &&& steps[1] matches Step::Next(_, Ext2Call::MarkInodeInUse { ino: i }) && i == ino
            &&& steps[2] matches Step::Next(_, Ext2Call::WriteInode { ino: i, inode })
                && i == ino && inode == new_file_record(mode, uid, gid, now)
            &&& steps[3] matches Step::Next(_, Ext2Call::Link { dir, name: n, ino: i })
                && dir == parent && n@ == name && i == ino
            &&& steps[4] matches Step::Next(_, Ext2Call::Flush)
            &&& steps[5] matches Step::Done(Ok(i)) && i == ino
        }),
{
    assert(create_moves(steps, results, 0));
    assert(results[0].retval == 0);
    assert(create_moves(steps, results, 1));
    assert(create_moves(steps, results, 2));
    assert(results[2].retval == 0);
    assert(create_moves(steps, results, 3));
    assert(results[3].retval == 0);
    assert(create_moves(steps, results, 4));
    assert(results[4].retval == 0);
}

/// `write_file`: opens the file for writing, moves to the offset (unless it
/// is 0), writes, closes the file, then flushes.
#[derive(Debug)]
pub enum WriteFile {
    /// The file is being opened.
    Opening { offset: u64, len: u32 },
    /// The open file is being moved to the offset.
    Seeking { len: u32 },
    /// The data are being written.
    Writing,
    /// The file is being closed after the write returned `write_res`.
    Closing { write_res: i64, written: u32 },
    /// The filesystem is being flushed.
    Flushing { written: u32 },
}

impl WriteFile {
    /// Starts writing `data_len` bytes at `offset` into inode `ino`; the
    /// length handed to libext2fs is taken modulo 2^32.
    pub fn start(ino: u32, offset: u64, data_len: usize) -> (s: Step<WriteFile, usize>)
        ensures
            s matches Step::Next(WriteFile::Opening { offset: o, len }, Ext2Call::FileOpen { ino: i, write })
                && o == offset && len == data_len as u32 && i == ino && write,
    {
        Step::Next(WriteFile::Opening { offset, len: data_len as u32 }, Ext2Call::FileOpen { ino, write: true })
    }

    /// Goes on after the last call returned `r`.
    pub fn resume(self, r: CallResult) -> (s: Step<WriteFile, usize>)
        ensures
            (match self {
                WriteFile::Opening { offset, len } => if r.retval != 0 || r.value == 0 {
                    fails_with(s, "Failed to open file for writing: "@, r.retval)
                } else if offset > 0 {
                    s matches Step::Next(WriteFile::Seeking { len: l }, Ext2Call::FileSeek { offset: o })
                        && l == len && o == offset
                } else {
                    s matches Step::Next(WriteFile::Writing, Ext2Call::FileWrite { len: l }) && l == len
                },
                WriteFile::Seeking { len } => s matches Step::Next(WriteFile::Writing, Ext2Call::FileWrite { len: l })
                    && l == len,
                WriteFile::Writing => s matches Step::Next(
                    WriteFile::Closing { write_res, written },
                    Ext2Call::FileClose,
                ) && write_res == r.retval && written == r.value as u32,
                WriteFile::Closing { write_res, written } => if write_res != 0 {
                    fails_with(s, "Failed to write file data: "@, write_res)
                } else {
                    s matches Step::Next(WriteFile::Flushing { written: w }, Ext2Call::Flush) && w == written
                },
                WriteFile::Flushing { written } => if r.retval != 0 {
                    fails_with(s, flush_failed_text(), r.retval)
                } else {
                    s matches Step::Done(Ok(n)) && n == written as usize
                },
            }),
            s matches Step::Done(Ok(_)) ==> (self is Flushing && r.retval == 0),
            s matches Step::Done(_) ==> !(self is Seeking || self is Writing),
    {
        match self {
            WriteFile::Opening { offset, len } => {
                if r.retval != 0 || r.value == 0 {
                    Step::Done(Err(failure("Failed to open file for writing: ", r.retval)))
                } else if offset > 0 {
                    Step::Next(WriteFile::Seeking { len }, Ext2Call::FileSeek { offset })
                } else {
                    Step::Next(WriteFile::Writing, Ext2Call::FileWrite { len })
                }
            },
            WriteFile::Seeking { len } => Step::Next(WriteFile::Writing, Ext2Call::FileWrite { len }),
            WriteFile::Writing => {
                Step::Next(WriteFile::Closing { write_res: r.retval, written: r.value as u32 }, Ext2Call::FileClose)
            },
            WriteFile::Closing { write_res, written } => {
                if write_res != 0 {
                    Step::Done(Err(failure("Failed to write file data: ", write_res)))
                } else {
                    Step::Next(WriteFile::Flushing { written }, Ext2Call::Flush)
                }
            },
            WriteFile::Flushing { written } => {
                if r.retval != 0 {
                    Step::Done(Err(failure("Failed to flush ext4 filesystem: ", r.retval)))
                } else {
                    Step::Done(Ok(written as usize))
                }
            },
        }
    }
}

/// `read_file`: opens the file, moves to the offset (unless it is 0),
/// reads, then closes the file. The bytes read are the first of those that
/// the read reported (`Ext2FsHandle::read_file_data`).
#[derive(Debug)]
pub enum ReadFile {
    /// The file is being opened.
    Opening { ino: u32, offset: u64, size: u32 },
    /// The open file is being moved to the offset.
    Seeking { ino: u32, size: u32 },
    /// The data are being read.
    Reading { ino: u32 },
    /// The file is being closed after the read returned `read_res`.
    Closing { ino: u32, read_res: i64, got: u32 },
}

impl ReadFile {
    /// Starts reading `size` bytes at `offset` from inode `ino`; the size
    /// handed to libext2fs is taken modulo 2^32.
    pub fn start(ino: u32, offset: u64, size: usize) -> (s: Step<ReadFile, u32>)
        ensures
            s matches Step::Next(ReadFile::Opening { ino: i, offset: o, size: n }, Ext2Call::FileOpen { ino: j, write })
                && i == ino && o == offset && n == size as u32 && j == ino && !write,
    {
        Step::Next(ReadFile::Opening { ino, offset, size: size as u32 }, Ext2Call::FileOpen { ino, write: false })
    }

    /// Goes on after the last call returned `r`; ends with the number of
    /// bytes read.
    pub fn resume(self, r: CallResult) -> (s: Step<ReadFile, u32>)
        ensures
            (match self {
                ReadFile::Opening { ino, offset, size } => if r.retval != 0 || r.value == 0 {
                    fails_with(s, "Failed to open file inode "@ + nat_decimal(ino as nat) + ": "@, r.retval)
                } else if offset > 0 {
                    s matches Step::Next(ReadFile::Seeking { ino: i, size: n }, Ext2Call::FileSeek { offset: o })
                        && i == ino && n == size && o == offset
                } else {
                    s matches Step::Next(ReadFile::Reading { ino: i }, Ext2Call::FileRead { size: n }) && i == ino
                        && n == size
                },
                ReadFile::Seeking { ino, size } => s matches Step::Next(
                    ReadFile::Reading { ino: i },
                    Ext2Call::FileRead { size: n },
                ) && i == ino && n == size,
                ReadFile::Reading { ino } => s matches Step::Next(
                    ReadFile::Closing { ino: i, read_res, got },
                    Ext2Call::FileClose,
                ) && i == ino && read_res == r.retval && got == r.value as u32,
                ReadFile::Closing { ino, read_res, got } => if read_res != 0 {
                    fails_with(s, "Failed to read file inode "@ + nat_decimal(ino as nat) + ": "@, read_res)
                } else {
                    s matches Step::Done(Ok(n)) && n == got
                },
            }),
            s matches Step::Done(_) ==> !(self is Seeking || self is Reading),
    {
        match self {
            ReadFile::Opening { ino, offset, size } => {
                if r.retval != 0 || r.value == 0 {
                    let prefix = String::from_str("Failed to open file inode ")
                        .concat(u64_to_decimal(ino as u64).as_str())
                        .concat(": ");
                    Step::Done(Err(failure(prefix.as_str(), r.retval)))
                } else if offset > 0 {
                    Step::Next(ReadFile::Seeking { ino, size }, Ext2Call::FileSeek { offset })
                } else {
                    Step::Next(ReadFile::Reading { ino }, Ext2Call::FileRead { size })
                }
            },
            ReadFile::Seeking { ino, size } => Step::Next(ReadFile::Reading { ino }, Ext2Call::FileRead { size }),
            ReadFile::Reading { ino } => {
                Step::Next(ReadFile::Closing { ino, read_res: r.retval, got: r.value as u32 }, Ext2Call::FileClose)
            },
            ReadFile::Closing { ino, read_res, got } => {
                if read_res != 0 {
                    let prefix = String::from_str("Failed to read file inode ")
                        .concat(u64_to_decimal(ino as u64).as_str())
                        .concat(": ");
                    Step::Done(Err(failure(prefix.as_str(), read_res)))
                } else {
                    Step::Done(Ok(got))
                }
            },
        }
    }
}

} // verus!
