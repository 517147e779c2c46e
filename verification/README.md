# alpaca-extfs

A user-space ext2/ext3/ext4 read/write driver served through FUSE (macFUSE on
macOS), built on libext2fs from e2fsprogs.

- `src/` is the verified library (Verus). It holds the driver's decisions with
  their contracts and laws:
  - `inode.rs`: FUSE root inode 1 and ext2 root inode 2, mapped both ways;
  - `ext2fs.rs`: inode records to attributes, new inode records, directory
    records to entries, open flags, error messages, filesystem statistics;
  - `fuse.rs`: attributes shown to FUSE, ownership mapping, paged directory
    listings, name lookup;
  - `mount.rs`: mount options, macFUSE arguments, session access, the owner
    taken from `SUDO_UID`/`SUDO_GID`;
  - `ops.rs`: the filesystem operations (open, create, write, read, mkdir,
    unlink, rmdir) as state machines that name each next libext2fs call and
    decide from its result, with laws over whole runs;
  - `text.rs`: decimal rendering and parsing, substring tests, replacement.
- `app/` is the program: command line, daemon mode, unmounting, the libext2fs
  calls (`ffi.rs`, `ext2.rs`) and the FUSE request loop (`fuse.rs`).
- `tests/` exercises the library on concrete values.
