use alpaca_extfs::ext2fs::{Ext2DirEntry, Ext2FileAttr};
use alpaca_extfs::fuse::{
    creation_mode, dtype_kind, lookup_entry, readdir_items, readdir_needs_attr, readdir_start, to_fuser_attr, DirItem, Ext4FuseFs,
    FileKind, FuseAttr,
};

fn attr(ino: u64, mode: u16, is_dir: bool) -> Ext2FileAttr {
    Ext2FileAttr {
        ino,
        size: 4096,
        blocks: 8,
        atime: 10,
        mtime: 20,
        ctime: 30,
        mode,
        nlink: 2,
        uid: 0,
        gid: 0,
        is_dir,
    }
}

fn entry(inode: u32, name: &str, file_type: u8) -> Ext2DirEntry {
    Ext2DirEntry { inode, name: name.to_string(), file_type }
}

fn summary(items: &[DirItem]) -> Vec<(u64, i64, FileKind, String)> {
    items.iter().map(|d| (d.ino, d.offset, d.kind, d.name.clone())).collect()
}

#[test]
fn root_directory_attributes() {
    let a = to_fuser_attr(&attr(2, 0o040700, true), None, None);
    assert_eq!(
        a,
        FuseAttr {
            ino: 1,
            size: 4096,
            blocks: 8,
            atime: 10,
            mtime: 20,
            ctime: 30,
            crtime: 30,
            kind: FileKind::Directory,
            perm: 0o755,
            nlink: 2,
            uid: 0,
            gid: 0,
            rdev: 0,
            blksize: 4096,
            flags: 0,
        }
    );
}

#[test]
fn directory_permissions_are_widened() {
    assert_eq!(to_fuser_attr(&attr(12, 0o040750, true), None, None).perm, 0o755);
    assert_eq!(to_fuser_attr(&attr(12, 0o040777, true), None, None).perm, 0o777);
    assert_eq!(to_fuser_attr(&attr(12, 0o040000, true), None, None).perm, 0o755);
    assert_eq!(to_fuser_attr(&attr(12, 0o040722, true), None, None).perm, 0o777);
}

#[test]
fn file_kinds_and_permissions() {
    let f = to_fuser_attr(&attr(13, 0o100644, false), None, None);
    assert_eq!(f.kind, FileKind::RegularFile);
    assert_eq!(f.perm, 0o644);
    assert_eq!(f.ino, 13);
    let l = to_fuser_attr(&attr(14, 0o120777, false), None, None);
    assert_eq!(l.kind, FileKind::Symlink);
    assert_eq!(l.perm, 0o777);
    let s = to_fuser_attr(&attr(15, 0o104755, false), None, None);
    assert_eq!(s.perm, 0o755);
    assert_eq!(s.kind, FileKind::RegularFile);
}

#[test]
fn owner_mapping_applies_to_every_attribute() {
    let mut a = attr(13, 0o100644, false);
    a.uid = 1000;
    a.gid = 1000;
    let fs = Ext4FuseFs::with_owner((), 501, 20);
    assert_eq!(fs.owner_uid(), Some(501));
    assert_eq!(fs.owner_gid(), Some(20));
    let shown = fs.reply_attr(&a);
    assert_eq!((shown.uid, shown.gid), (501, 20));
    let plain = Ext4FuseFs::new(());
    assert_eq!(plain.owner_uid(), None);
    let shown = plain.reply_attr(&a);
    assert_eq!((shown.uid, shown.gid), (1000, 1000));
    assert_eq!(to_fuser_attr(&a, Some(7), None).gid, 1000);
}

#[test]
fn creation_owner_and_mode() {
    let fs = Ext4FuseFs::with_owner("handle", 501, 20);
    assert_eq!(*fs.handle(), "handle");
    assert_eq!(fs.creation_owner(0, 0), (501, 20));
    let plain = Ext4FuseFs::new(());
    assert_eq!(plain.creation_owner(1000, 100), (1000, 100));
    assert_eq!(creation_mode(0o100644), 0o100644);
    assert_eq!(creation_mode(0x1_0000 | 0o644), 0o644);
}

#[test]
fn directory_record_types() {
    assert_eq!(dtype_kind(2), Some(FileKind::Directory));
    assert_eq!(dtype_kind(1), Some(FileKind::RegularFile));
    assert_eq!(dtype_kind(7), Some(FileKind::Symlink));
    assert_eq!(dtype_kind(0), None);
    assert_eq!(dtype_kind(4), None);
}

#[test]
fn readdir_start_index() {
    assert_eq!(readdir_start(0), 0);
    assert_eq!(readdir_start(1), 0);
    assert_eq!(readdir_start(2), 0);
    assert_eq!(readdir_start(3), 1);
    assert_eq!(readdir_start(5), 3);
    assert_eq!(readdir_start(-4), 0);
}

#[test]
fn full_listing_of_root() {
    let entries = vec![entry(11, "lost+found", 2), entry(12, "docs", 2), entry(13, "hello.txt", 1)];
    let attrs = vec![None, None, None];
    let items = readdir_items(1, 0, &entries, &attrs);
    assert_eq!(
        summary(&items),
        vec![
            (1, 1, FileKind::Directory, ".".to_string()),
            (1, 2, FileKind::Directory, "..".to_string()),
            (11, 3, FileKind::Directory, "lost+found".to_string()),
            (12, 4, FileKind::Directory, "docs".to_string()),
            (13, 5, FileKind::RegularFile, "hello.txt".to_string()),
        ]
    );
}

#[test]
fn listing_resumes_after_the_last_item_received() {
    let entries = vec![entry(11, "a", 1), entry(12, "b", 1), entry(13, "c", 7), entry(2, "up", 2)];
    let attrs = vec![None, None, None, None];
    let full = summary(&readdir_items(12, 0, &entries, &attrs));
    for (k, item) in full.iter().enumerate() {
        if item.1 == 1 {
            continue;
        }
        let resumed = summary(&readdir_items(12, item.1, &entries, &attrs));
        assert_eq!(resumed, full[k + 1..].to_vec());
    }
    assert_eq!(full[1].0, 1);
    assert_eq!(full[5], (1, 6, FileKind::Directory, "up".to_string()));
    // Resuming after "." skips "..".
    assert_eq!(summary(&readdir_items(12, 1, &entries, &attrs)), full[2..].to_vec());
    assert!(readdir_items(12, 40, &entries, &attrs).is_empty());
}

#[test]
fn listing_falls_back_on_inode_attributes() {
    let entries = vec![entry(20, "d", 0), entry(21, "l", 0), entry(22, "f", 0), entry(23, "u", 0)];
    let attrs = vec![
        Some(attr(20, 0o040755, true)),
        Some(attr(21, 0o120777, false)),
        Some(attr(22, 0o100644, false)),
        None,
    ];
    let items = readdir_items(5, 3, &entries, &attrs);
    assert_eq!(
        summary(&items),
        vec![
            (21, 4, FileKind::Symlink, "l".to_string()),
            (22, 5, FileKind::RegularFile, "f".to_string()),
            (23, 6, FileKind::RegularFile, "u".to_string()),
        ]
    );
    let first = readdir_items(5, 0, &entries, &attrs);
    assert_eq!(first[2].kind, FileKind::Directory);
}

#[test]
fn record_type_wins_over_attributes() {
    let entries = vec![entry(20, "d", 1)];
    let attrs = vec![Some(attr(20, 0o040755, true))];
    assert_eq!(readdir_items(5, 2, &entries, &attrs)[0].kind, FileKind::RegularFile);
}

#[test]
fn lookup_finds_first_entry_with_name() {
    let entries = vec![entry(11, "docs", 2), entry(12, "hello.txt", 1), entry(13, "docs", 1)];
    assert_eq!(lookup_entry(&entries, "docs"), Some(11));
    assert_eq!(lookup_entry(&entries, "hello.txt"), Some(12));
    assert_eq!(lookup_entry(&entries, "hello"), None);
    assert_eq!(lookup_entry(&entries, ""), None);
    assert_eq!(lookup_entry(&[].to_vec(), "docs"), None);
}

#[test]
fn attributes_are_read_only_where_the_listing_needs_them() {
    assert!(readdir_needs_attr(0, 0, 0));
    assert!(!readdir_needs_attr(0, 0, 1));
    assert!(!readdir_needs_attr(5, 2, 0));
    assert!(readdir_needs_attr(5, 3, 0));
    assert!(!readdir_needs_attr(5, 3, 7));
    let entries = vec![entry(20, "d", 0), entry(21, "f", 1)];
    let with = vec![Some(attr(20, 0o040755, true)), Some(attr(21, 0o040755, true))];
    let without = vec![Some(attr(20, 0o040755, true)), None];
    assert_eq!(summary(&readdir_items(5, 0, &entries, &with)), summary(&readdir_items(5, 0, &entries, &without)));
}
