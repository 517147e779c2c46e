use alpaca_extfs::ext2fs::{
    Ext2FileAttr, Ext2FsHandle, RawDirEntry, RawInode, StatFs, SuperblockCounts,
};

type Handle = Ext2FsHandle<()>;

fn raw_inode(mode: u16) -> RawInode {
    RawInode {
        i_mode: mode,
        i_uid: 501,
        i_size: 34,
        i_atime: 1_700_000_000,
        i_ctime: 1_700_000_100,
        i_mtime: 1_700_000_200,
        i_gid: 20,
        i_links_count: 1,
        i_blocks: 8,
        i_size_high: 0,
    }
}

fn record(inode: u32, file_type: u8, name: &[u8]) -> RawDirEntry {
    let mut buf = name.to_vec();
    buf.resize(255, 0);
    RawDirEntry { inode, name_len: ((file_type as u16) << 8) | name.len() as u16, name: buf }
}

#[test]
fn root_inode_is_two() {
    assert_eq!(Handle::root_ino(), 2);
}

#[test]
fn handle_gives_back_its_filesystem() {
    let h = Ext2FsHandle::from_fs(42u32);
    assert_eq!(*h.fs(), 42);
    assert_eq!(h.into_fs(), 42);
}

#[test]
fn open_flags_force_and_read_write() {
    assert_eq!(Handle::open_flags(true), 0x400);
    assert_eq!(Handle::open_flags(false), 0x401);
}

#[test]
fn namei_answers_root_paths_itself() {
    assert_eq!(Handle::namei_root("/"), Some(2));
    assert_eq!(Handle::namei_root(""), Some(2));
    assert_eq!(Handle::namei_root("/docs"), None);
    assert_eq!(Handle::namei_root("//"), None);
    assert_eq!(Handle::namei_root("docs"), None);
}

#[test]
fn get_attr_of_regular_file() {
    let h = Ext2FsHandle::from_fs(());
    let attr = h.get_attr(12, &raw_inode(0o100644));
    assert_eq!(
        attr,
        Ext2FileAttr {
            ino: 12,
            size: 34,
            blocks: 8,
            atime: 1_700_000_000,
            mtime: 1_700_000_200,
            ctime: 1_700_000_100,
            mode: 0o100644,
            nlink: 1,
            uid: 501,
            gid: 20,
            is_dir: false,
        }
    );
}

#[test]
fn get_attr_joins_size_words_and_detects_directories() {
    let h = Ext2FsHandle::from_fs(());
    let mut inode = raw_inode(0o040755);
    inode.i_size = 5;
    inode.i_size_high = 3;
    let attr = h.get_attr(2, &inode);
    assert_eq!(attr.size, 3 * (1u64 << 32) + 5);
    assert!(attr.is_dir);
    assert!(!h.get_attr(2, &raw_inode(0o120777)).is_dir);
    assert!(!h.get_attr(2, &raw_inode(0o060644)).is_dir);
    let mut max = raw_inode(0o100600);
    max.i_size = u32::MAX;
    max.i_size_high = u32::MAX;
    assert_eq!(h.get_attr(7, &max).size, u64::MAX);
}

#[test]
fn new_file_inode_record() {
    let inode = Handle::new_file_inode(0o644, 501, 20, 1_700_000_000);
    assert_eq!(
        inode,
        RawInode {
            i_mode: 0o100644,
            i_uid: 501,
            i_size: 0,
            i_atime: 1_700_000_000,
            i_ctime: 1_700_000_000,
            i_mtime: 1_700_000_000,
            i_gid: 20,
            i_links_count: 1,
            i_blocks: 0,
            i_size_high: 0,
        }
    );
}

#[test]
fn new_file_inode_truncates_ids_and_time() {
    let inode = Handle::new_file_inode(0o100600, 70_000, 65_536, (1u64 << 32) + 5);
    assert_eq!(inode.i_mode, 0o100600);
    assert_eq!(inode.i_uid, 4464);
    assert_eq!(inode.i_gid, 0);
    assert_eq!(inode.i_atime, 5);
    assert_eq!(inode.i_mtime, 5);
    assert_eq!(inode.i_ctime, 5);
}

#[test]
fn mkdir_marks_mode_as_directory() {
    assert_eq!(Handle::mkdir_mode(0o755), 0o040755);
    assert_eq!(Handle::mkdir_mode(0o040700), 0o040700);
}

#[test]
fn read_data_is_truncated_to_bytes_read() {
    let buf: Vec<u8> = (1..=10).collect();
    assert_eq!(Handle::read_file_data(buf.clone(), 3), vec![1, 2, 3]);
    assert_eq!(Handle::read_file_data(buf.clone(), 0), Vec::<u8>::new());
    assert_eq!(Handle::read_file_data(buf.clone(), 10), buf);
    assert_eq!(Handle::read_file_data(buf.clone(), 99), buf);
}

#[test]
fn directory_record_decoding() {
    let e = Handle::decode_dir_entry(&record(12, 1, b"hello.txt")).unwrap();
    assert_eq!(e.inode, 12);
    assert_eq!(e.name, "hello.txt");
    assert_eq!(e.file_type, 1);
    let d = Handle::decode_dir_entry(&record(13, 2, b"docs")).unwrap();
    assert_eq!(d.file_type, 2);
    assert!(Handle::decode_dir_entry(&record(2, 2, b".")).is_none());
    assert!(Handle::decode_dir_entry(&record(2, 2, b"..")).is_none());
    assert!(Handle::decode_dir_entry(&record(5, 1, b"")).is_none());
    let dots = Handle::decode_dir_entry(&record(14, 1, b"...")).unwrap();
    assert_eq!(dots.name, "...");
}

#[test]
fn directory_record_with_invalid_utf8_name_is_kept_with_replacement() {
    let e = Handle::decode_dir_entry(&record(20, 1, &[0x66, 0xff, 0x6f])).unwrap();
    assert_eq!(e.name, "f\u{FFFD}o");
    let accented = Handle::decode_dir_entry(&record(21, 1, "é.txt".as_bytes())).unwrap();
    assert_eq!(accented.name, "é.txt");
}

#[test]
fn directory_record_name_length_is_low_byte() {
    let mut r = record(30, 7, b"link-target");
    r.name_len = (7u16 << 8) | 4;
    let e = Handle::decode_dir_entry(&r).unwrap();
    assert_eq!(e.name, "link");
    assert_eq!(e.file_type, 7);
}

#[test]
fn read_dir_keeps_record_order_without_dot_entries() {
    let records = vec![
        record(2, 2, b"."),
        record(2, 2, b".."),
        record(11, 2, b"lost+found"),
        record(12, 2, b"docs"),
        record(13, 1, b"hello.txt"),
        record(0, 0, b""),
    ];
    let entries = Handle::read_dir_entries(&records);
    let names: Vec<String> = entries.iter().map(|e| e.name.clone()).collect();
    assert_eq!(names, vec!["lost+found", "docs", "hello.txt"]);
    let inodes: Vec<u32> = entries.iter().map(|e| e.inode).collect();
    assert_eq!(inodes, vec![11, 12, 13]);
    assert!(names.contains(&"docs".to_string()));
    assert!(names.contains(&"hello.txt".to_string()));
}

#[test]
fn error_string_appends_code() {
    assert_eq!(
        Handle::error_string(2133571262, Some("Short read"), "/tmp/disk.img"),
        "Short read (code: 2133571262)"
    );
    assert_eq!(Handle::error_string(5, None, "/tmp/disk.img"), "Error code 5 (code: 5)");
    assert_eq!(Handle::error_string(-3, None, "x"), "Error code -3 (code: -3)");
}

#[test]
fn error_string_never_gives_the_whole_disk_hint() {
    let msg = "Bad magic number in super-block";
    assert_eq!(
        Handle::error_string(2133571347, Some(msg), "/dev/disk4"),
        "Bad magic number in super-block (code: 2133571347)"
    );
    assert_eq!(
        Handle::error_string(2133571347, None, "/dev/disk4"),
        "Error code 2133571347 (code: 2133571347)"
    );
}

#[test]
fn statfs_counts() {
    let h = Ext2FsHandle::from_fs(());
    let sb = SuperblockCounts {
        blocks_count: 4096,
        free_blocks_count: 3000,
        r_blocks_count: 204,
        inodes_count: 4096,
        free_inodes_count: 4085,
        log_block_size: 2,
    };
    assert_eq!(
        h.statfs(&sb),
        StatFs {
            blocks: 4096,
            bfree: 3000,
            bavail: 2796,
            files: 4096,
            ffree: 4085,
            bsize: 4096,
            namelen: 255,
            frsize: 4096,
        }
    );
    let tight = SuperblockCounts { free_blocks_count: 100, log_block_size: 0, ..sb };
    let st = h.statfs(&tight);
    assert_eq!(st.bavail, 0);
    assert_eq!(st.bsize, 1024);
    let big = SuperblockCounts { log_block_size: 6, ..sb };
    assert_eq!(h.statfs(&big).bsize, 65536);
}

#[test]
fn entry_from_decoded_name() {
    let e = Handle::dir_entry_from_name(12, (2u16 << 8) | 4, "docs".to_string()).unwrap();
    assert_eq!((e.inode, e.name.as_str(), e.file_type), (12, "docs", 2));
    assert!(Handle::dir_entry_from_name(2, (2u16 << 8) | 1, ".".to_string()).is_none());
    assert!(Handle::dir_entry_from_name(2, (2u16 << 8) | 2, "..".to_string()).is_none());
    assert!(Handle::dir_entry_from_name(3, 3, "...".to_string()).is_some());
}
