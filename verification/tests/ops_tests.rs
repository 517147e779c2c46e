use alpaca_extfs::ext2fs::RawInode;
use alpaca_extfs::ops::{
    flush_result, namei_result, nul_error, open_result, read_bitmaps_result, read_dir_result,
    open_request, read_inode_result, CallResult, CreateFile, Ext2Call, FsError, FsErrorKind, MakeDir,
    OpenedFs, ReadFile, RemoveDir, Step, UnlinkOp, WriteFile,
};

const ZERO: RawInode = RawInode {
    i_mode: 0,
    i_uid: 0,
    i_size: 0,
    i_atime: 0,
    i_ctime: 0,
    i_mtime: 0,
    i_gid: 0,
    i_links_count: 0,
    i_blocks: 0,
    i_size_high: 0,
};

fn record(mode: u16, links: u16) -> CallResult {
    CallResult { retval: 0, value: 0, record: RawInode { i_mode: mode, i_links_count: links, ..ZERO } }
}

/// Runs an operation against scripted call results; returns the calls it
/// asked for and how it ended.
fn drive<M, T>(
    first: Step<M, T>,
    resume: fn(M, CallResult) -> Step<M, T>,
    results: &[CallResult],
) -> (Vec<Ext2Call>, Result<T, FsError>) {
    let mut calls = Vec::new();
    let mut step = first;
    let mut i = 0;
    loop {
        match step {
            Step::Next(state, call) => {
                calls.push(call);
                let r = results.get(i).copied().unwrap_or(CallResult { retval: 0, value: 0, record: ZERO });
                i += 1;
                step = resume(state, r);
            }
            Step::Done(result) => return (calls, result),
        }
    }
}

fn ok(value: u64) -> CallResult {
    CallResult { retval: 0, value, record: ZERO }
}

fn fail(retval: i64) -> CallResult {
    CallResult { retval, value: 0, record: ZERO }
}

fn names(calls: &[Ext2Call]) -> Vec<&'static str> {
    calls
        .iter()
        .map(|c| match c {
            Ext2Call::NewInode { .. } => "new_inode",
            Ext2Call::MarkInodeInUse { .. } => "alloc_stats",
            Ext2Call::WriteInode { .. } => "write_inode",
            Ext2Call::Link { .. } => "link",
            Ext2Call::Unlink { .. } => "unlink",
            Ext2Call::Mkdir { .. } => "mkdir",
            Ext2Call::FileOpen { .. } => "file_open",
            Ext2Call::FileSeek { .. } => "file_seek",
            Ext2Call::FileRead { .. } => "file_read",
            Ext2Call::FileWrite { .. } => "file_write",
            Ext2Call::FileClose => "file_close",
            Ext2Call::Flush => "flush",
            Ext2Call::ReadBitmaps => "read_bitmaps",
            Ext2Call::Lookup { .. } => "lookup",
            Ext2Call::ReadInode { .. } => "read_inode",
            Ext2Call::ListDir { .. } => "list_dir",
            Ext2Call::SetLinks { .. } => "set_links",
            Ext2Call::ReleaseBlocks { .. } => "release_blocks",
            Ext2Call::MarkInodeFree { .. } => "free_inode",
        })
        .collect()
}

#[test]
fn create_file_calls_in_order_and_flushes() {
    let (calls, result) = drive(
        CreateFile::start(2, "hello.txt", 0o644, 501, 20, 1_700_000_000),
        CreateFile::resume,
        &[ok(12), ok(0), ok(0), ok(0), ok(0)],
    );
    assert_eq!(names(&calls), vec!["new_inode", "alloc_stats", "write_inode", "link", "flush"]);
    assert!(matches!(calls[0], Ext2Call::NewInode { dir: 2, mode: 0o644 }));
    assert!(matches!(calls[1], Ext2Call::MarkInodeInUse { ino: 12 }));
    match &calls[2] {
        Ext2Call::WriteInode { ino, inode } => {
            assert_eq!(*ino, 12);
            assert_eq!(
                *inode,
                RawInode {
                    i_mode: 0o100644,
                    i_uid: 501,
                    i_size: 0,
                    i_atime: 1_700_000_000,
                    i_ctime: 1_700_000_000,
                    i_mtime: 1_700_000_000,
                    i_gid: 20,
                    i_links_count: 1,
                    i_blocks: 0,
                    i_size_high: 0,
                }
            );
        }
        other => panic!("unexpected call {:?}", other),
    }
    assert!(matches!(&calls[3], Ext2Call::Link { dir: 2, name, ino: 12 } if name == "hello.txt"));
    assert_eq!(result.unwrap(), 12);
}

#[test]
fn create_file_stops_at_the_first_failure() {
    let (calls, result) = drive(
        CreateFile::start(2, "hello.txt", 0o644, 501, 20, 0),
        CreateFile::resume,
        &[ok(12), ok(0), ok(0), fail(2133571400)],
    );
    assert_eq!(names(&calls), vec!["new_inode", "alloc_stats", "write_inode", "link"]);
    let e = result.unwrap_err();
    assert_eq!(e.kind, FsErrorKind::Other);
    assert_eq!(e.msg, "Failed to link file: 2133571400");

    let (calls, result) = drive(CreateFile::start(2, "a", 0o644, 0, 0, 0), CreateFile::resume, &[fail(28)]);
    assert_eq!(names(&calls), vec!["new_inode"]);
    assert_eq!(result.unwrap_err().msg, "Failed to allocate inode: 28");

    let (_, result) =
        drive(CreateFile::start(2, "a", 0o644, 0, 0, 0), CreateFile::resume, &[ok(12), ok(0), fail(-5)]);
    assert_eq!(result.unwrap_err().msg, "Failed to write new inode: -5");

    let (calls, result) = drive(
        CreateFile::start(2, "a", 0o644, 0, 0, 0),
        CreateFile::resume,
        &[ok(12), ok(0), ok(0), ok(0), fail(9)],
    );
    assert_eq!(calls.len(), 5);
    assert_eq!(result.unwrap_err().msg, "Failed to flush ext4 filesystem: 9");
}

#[test]
fn create_file_refuses_a_name_with_a_zero_byte_before_linking() {
    let (calls, result) = drive(
        CreateFile::start(2, "bad\0name", 0o644, 0, 0, 0),
        CreateFile::resume,
        &[ok(12), ok(0), ok(0)],
    );
    assert_eq!(names(&calls), vec!["new_inode", "alloc_stats", "write_inode"]);
    let e = result.unwrap_err();
    assert_eq!(e.kind, FsErrorKind::InvalidInput);
    assert_eq!(e.msg, "nul byte found in provided data at position: 3");
}

#[test]
fn write_file_closes_before_flushing() {
    let data = b"Hello Ext4 from macOS Rust driver!";
    let (calls, result) = drive(
        WriteFile::start(12, 0, data.len()),
        WriteFile::resume,
        &[ok(1), ok(data.len() as u64), ok(0), ok(0)],
    );
    assert_eq!(names(&calls), vec!["file_open", "file_write", "file_close", "flush"]);
    assert!(matches!(calls[0], Ext2Call::FileOpen { ino: 12, write: true }));
    assert!(matches!(calls[1], Ext2Call::FileWrite { len: 34 }));
    assert_eq!(result.unwrap(), data.len());

    let (calls, result) =
        drive(WriteFile::start(12, 4096, 10), WriteFile::resume, &[ok(1), ok(0), ok(10), ok(0), ok(0)]);
    assert_eq!(names(&calls), vec!["file_open", "file_seek", "file_write", "file_close", "flush"]);
    assert!(matches!(calls[1], Ext2Call::FileSeek { offset: 4096 }));
    assert_eq!(result.unwrap(), 10);
}

#[test]
fn write_file_failures() {
    let (calls, result) =
        drive(WriteFile::start(12, 0, 10), WriteFile::resume, &[ok(1), CallResult { retval: 5, value: 3, record: ZERO }, ok(0)]);
    assert_eq!(names(&calls), vec!["file_open", "file_write", "file_close"]);
    assert_eq!(result.unwrap_err().msg, "Failed to write file data: 5");

    let (calls, result) = drive(WriteFile::start(12, 0, 10), WriteFile::resume, &[ok(0)]);
    assert_eq!(names(&calls), vec!["file_open"]);
    assert_eq!(result.unwrap_err().msg, "Failed to open file for writing: 0");

    let (_, result) = drive(WriteFile::start(12, 0, 10), WriteFile::resume, &[fail(2133571388)]);
    assert_eq!(result.unwrap_err().msg, "Failed to open file for writing: 2133571388");
}

#[test]
fn read_file_closes_after_reading() {
    let (calls, result) = drive(ReadFile::start(12, 0, 34), ReadFile::resume, &[ok(1), ok(34), ok(0)]);
    assert_eq!(names(&calls), vec!["file_open", "file_read", "file_close"]);
    assert!(matches!(calls[0], Ext2Call::FileOpen { ino: 12, write: false }));
    assert!(matches!(calls[1], Ext2Call::FileRead { size: 34 }));
    assert_eq!(result.unwrap(), 34);

    let (calls, result) = drive(ReadFile::start(12, 10, 34), ReadFile::resume, &[ok(1), ok(0), ok(24), ok(0)]);
    assert_eq!(names(&calls), vec!["file_open", "file_seek", "file_read", "file_close"]);
    assert_eq!(result.unwrap(), 24);

    let (calls, result) = drive(ReadFile::start(12, 0, 34), ReadFile::resume, &[ok(1), fail(7), ok(0)]);
    assert_eq!(names(&calls), vec!["file_open", "file_read", "file_close"]);
    assert_eq!(result.unwrap_err().msg, "Failed to read file inode 12: 7");

    let (_, result) = drive(ReadFile::start(77, 0, 34), ReadFile::resume, &[fail(2)]);
    assert_eq!(result.unwrap_err().msg, "Failed to open file inode 77: 2");
}

#[test]
fn unlink_of_the_last_link_frees_the_inode() {
    let (calls, result) = drive(
        UnlinkOp::start(2, "hello.txt", (1u64 << 32) + 7),
        UnlinkOp::resume,
        &[ok(12), record(0o100644, 1), ok(0), ok(0), ok(0), ok(0), ok(0)],
    );
    assert_eq!(
        names(&calls),
        vec!["lookup", "read_inode", "unlink", "set_links", "release_blocks", "free_inode", "flush"]
    );
    assert!(matches!(&calls[0], Ext2Call::Lookup { dir: 2, name } if name == "hello.txt"));
    assert!(matches!(calls[1], Ext2Call::ReadInode { ino: 12 }));
    assert!(matches!(&calls[2], Ext2Call::Unlink { dir: 2, name } if name == "hello.txt"));
    assert!(matches!(calls[3], Ext2Call::SetLinks { ino: 12, links: 0, dtime: Some(7) }));
    assert!(matches!(calls[4], Ext2Call::ReleaseBlocks { ino: 12 }));
    assert!(matches!(calls[5], Ext2Call::MarkInodeFree { ino: 12, is_dir: false }));
    assert!(result.is_ok());
}

#[test]
fn unlink_of_one_of_several_links_keeps_the_inode() {
    let (calls, result) =
        drive(UnlinkOp::start(2, "hello.txt", 5), UnlinkOp::resume, &[ok(12), record(0o100644, 2), ok(0), ok(0), ok(0)]);
    assert_eq!(names(&calls), vec!["lookup", "read_inode", "unlink", "set_links", "flush"]);
    assert!(matches!(calls[3], Ext2Call::SetLinks { ino: 12, links: 1, dtime: None }));
    assert!(result.is_ok());
}

#[test]
fn unlink_failures() {
    // A name that cannot be looked up is still handed to the unlink call,
    // whose error is the one reported.
    let (calls, result) =
        drive(UnlinkOp::start(2, "hello.txt", 0), UnlinkOp::resume, &[fail(2133571396), fail(2133571396)]);
    assert_eq!(names(&calls), vec!["lookup", "unlink"]);
    assert!(matches!(&calls[1], Ext2Call::Unlink { dir: 2, name } if name == "hello.txt"));
    assert_eq!(result.unwrap_err().msg, "Failed to unlink hello.txt: 2133571396");

    let (_, result) =
        drive(UnlinkOp::start(2, "hello.txt", 0), UnlinkOp::resume, &[ok(12), record(0o100644, 1), fail(4)]);
    assert_eq!(result.unwrap_err().msg, "Failed to unlink hello.txt: 4");

    // An inode that cannot be read: the name is still removed, the inode is
    // left as it is, and the filesystem is flushed.
    let (calls, result) = drive(UnlinkOp::start(2, "hello.txt", 0), UnlinkOp::resume, &[ok(12), fail(3), ok(0), ok(0)]);
    assert_eq!(names(&calls), vec!["lookup", "read_inode", "unlink", "flush"]);
    assert!(result.is_ok());

    let (calls, result) = drive(UnlinkOp::start(2, "hello.txt", 0), UnlinkOp::resume, &[ok(12), fail(3), fail(5)]);
    assert_eq!(calls.len(), 3);
    assert_eq!(result.unwrap_err().msg, "Failed to unlink hello.txt: 5");

    let (calls, result) = drive(UnlinkOp::start(2, "hello.txt", 0), UnlinkOp::resume, &[fail(2), ok(0), ok(0)]);
    assert_eq!(names(&calls), vec!["lookup", "unlink", "flush"]);
    assert!(result.is_ok());

    let (calls, result) = drive(
        UnlinkOp::start(2, "hello.txt", 0),
        UnlinkOp::resume,
        &[ok(12), record(0o100644, 1), ok(0), ok(0), fail(8)],
    );
    assert_eq!(calls.len(), 5);
    assert_eq!(result.unwrap_err().msg, "Failed to release the blocks of inode 12: 8");

    let (_, result) = drive(
        UnlinkOp::start(2, "hello.txt", 0),
        UnlinkOp::resume,
        &[ok(12), record(0o100644, 2), ok(0), ok(0), fail(9)],
    );
    assert_eq!(result.unwrap_err().msg, "Failed to flush ext4 filesystem: 9");

    let (calls, result) = drive(UnlinkOp::start(2, "a\0", 0), UnlinkOp::resume, &[]);
    assert!(calls.is_empty());
    let e = result.unwrap_err();
    assert_eq!(e.kind, FsErrorKind::InvalidInput);
    assert_eq!(e.msg, "nul byte found in provided data at position: 1");
}

#[test]
fn rmdir_of_an_empty_directory() {
    let (calls, result) = drive(
        RemoveDir::start(2, "docs", 42),
        RemoveDir::resume,
        &[ok(13), record(0o040755, 2), ok(0), ok(0), ok(0), ok(0), ok(0), record(0o040755, 4), ok(0), ok(0)],
    );
    assert_eq!(
        names(&calls),
        vec![
            "lookup", "read_inode", "list_dir", "unlink", "set_links", "release_blocks", "free_inode", "read_inode",
            "set_links", "flush",
        ]
    );
    assert!(matches!(calls[2], Ext2Call::ListDir { dir: 13 }));
    assert!(matches!(calls[4], Ext2Call::SetLinks { ino: 13, links: 0, dtime: Some(42) }));
    assert!(matches!(calls[6], Ext2Call::MarkInodeFree { ino: 13, is_dir: true }));
    assert!(matches!(calls[7], Ext2Call::ReadInode { ino: 2 }));
    assert!(matches!(calls[8], Ext2Call::SetLinks { ino: 2, links: 3, dtime: None }));
    assert!(result.is_ok());
}

#[test]
fn rmdir_refuses_a_directory_with_entries_before_changing_anything() {
    let (calls, result) =
        drive(RemoveDir::start(2, "docs", 42), RemoveDir::resume, &[ok(13), record(0o040755, 2), ok(1)]);
    assert_eq!(names(&calls), vec!["lookup", "read_inode", "list_dir"]);
    let e = result.unwrap_err();
    assert_eq!(e.kind, FsErrorKind::DirectoryNotEmpty);
    assert_eq!(e.msg, "Directory not empty: docs");
}

#[test]
fn rmdir_refuses_a_file() {
    let (calls, result) =
        drive(RemoveDir::start(2, "hello.txt", 42), RemoveDir::resume, &[ok(12), record(0o100644, 1)]);
    assert_eq!(names(&calls), vec!["lookup", "read_inode"]);
    let e = result.unwrap_err();
    assert_eq!(e.kind, FsErrorKind::NotADirectory);
    assert_eq!(e.msg, "Not a directory: hello.txt");
    let (_, result) = drive(RemoveDir::start(2, "docs", 42), RemoveDir::resume, &[fail(6)]);
    assert_eq!(result.unwrap_err().msg, "Failed to remove directory docs: 6");
}

#[test]
fn rmdir_keeps_at_least_one_parent_link() {
    let (calls, _) = drive(
        RemoveDir::start(2, "docs", 42),
        RemoveDir::resume,
        &[ok(13), record(0o040755, 2), ok(0), ok(0), ok(0), ok(0), ok(0), record(0o040755, 1), ok(0), ok(0)],
    );
    assert!(matches!(calls[8], Ext2Call::SetLinks { ino: 2, links: 1, dtime: None }));
}

#[test]
fn opened_filesystem_reads_bitmaps_only_when_writable() {
    let (calls, result) = drive(OpenedFs::start(false), OpenedFs::resume, &[fail(5)]);
    assert_eq!(names(&calls), vec!["read_bitmaps"]);
    assert!(result.is_ok());
    let (calls, result) = drive(OpenedFs::start(true), OpenedFs::resume, &[]);
    assert!(calls.is_empty());
    assert!(result.is_ok());
}

#[test]
fn open_request_flags_and_zero_bytes() {
    assert_eq!(open_request(b"/tmp/disk.img", true).unwrap(), 0x400);
    assert_eq!(open_request(b"/tmp/disk.img", false).unwrap(), 0x401);
    let e = open_request(b"/tmp/\0disk", false).unwrap_err();
    assert_eq!(e.kind, FsErrorKind::InvalidInput);
    assert_eq!(e.msg, "nul byte found in provided data at position: 5");
}

#[test]
fn test_non_existent_file_open_fails_gracefully() {
    let flags = open_request(b"/non_existent_ext4_dev.img", true).unwrap();
    assert_eq!(flags, 0x400);
    // ext2fs_open reports ENOENT and hands back no filesystem.
    let res = open_result(2, false, Some("No such file or directory"), "/non_existent_ext4_dev.img");
    assert!(res.is_err());
}

#[test]
fn mkdir_allocates_a_directory_inode() {
    let (calls, result) = drive(MakeDir::start(2, "docs", 0o755), MakeDir::resume, &[ok(13), ok(0), ok(0)]);
    assert_eq!(names(&calls), vec!["new_inode", "mkdir", "flush"]);
    assert!(matches!(calls[0], Ext2Call::NewInode { dir: 2, mode: 0o040755 }));
    assert!(matches!(&calls[1], Ext2Call::Mkdir { parent: 2, ino: 13, name } if name == "docs"));
    assert_eq!(result.unwrap(), 13);

    let (_, result) = drive(MakeDir::start(2, "docs", 0o755), MakeDir::resume, &[ok(13), fail(17)]);
    assert_eq!(result.unwrap_err().msg, "Failed to mkdir docs: 17");
    let (_, result) = drive(MakeDir::start(2, "docs", 0o755), MakeDir::resume, &[fail(28)]);
    assert_eq!(result.unwrap_err().msg, "Failed to allocate dir inode: 28");
}

#[test]
fn single_call_results() {
    assert!(flush_result(0).is_ok());
    assert_eq!(flush_result(3).unwrap_err().msg, "Failed to flush ext4 filesystem: 3");
    assert!(read_bitmaps_result(0).is_ok());
    assert_eq!(read_bitmaps_result(11).unwrap_err().msg, "Failed to read ext4 bitmaps: 11");
    assert!(read_inode_result(12, 0).is_ok());
    assert_eq!(read_inode_result(12, 4).unwrap_err().msg, "Failed to read inode 12: 4");
    assert!(read_dir_result(2, 0).is_ok());
    assert_eq!(read_dir_result(2, 20).unwrap_err().msg, "Failed to iterate directory inode 2: 20");
    assert_eq!(namei_result("/docs", 0, 13).unwrap(), 13);
    let e = namei_result("/missing", 1, 0).unwrap_err();
    assert_eq!(e.kind, FsErrorKind::NotFound);
    assert_eq!(e.msg, "Path '/missing' not found in ext4 filesystem");
}

#[test]
fn open_failure_message() {
    assert!(open_result(0, true, None, "disk.img").is_ok());
    let e = open_result(2, false, Some("No such file or directory"), "/non_existent_ext4_dev.img").unwrap_err();
    assert_eq!(e.msg, "Failed to open ext4 filesystem: No such file or directory (code: 2)");
    let e = open_result(0, false, None, "disk.img").unwrap_err();
    assert_eq!(e.msg, "Failed to open ext4 filesystem: Error code 0 (code: 0)");
}

#[test]
fn zero_byte_positions_are_byte_offsets() {
    assert!(nul_error(b"hello").is_none());
    assert_eq!(nul_error(b"a\0b\0").unwrap().msg, "nul byte found in provided data at position: 1");
    assert_eq!(nul_error("é\0".as_bytes()).unwrap().msg, "nul byte found in provided data at position: 2");
    assert_eq!(nul_error(b"\0").unwrap().kind, FsErrorKind::InvalidInput);
    assert_eq!(nul_error(b"ab\0c").unwrap().msg, "nul byte found in provided data at position: 2");
}
