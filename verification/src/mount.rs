//! How the driver mounts a volume: which mount options it asks for, the
//! argument list that macFUSE's `fuse_mount` receives for them, which users
//! the FUSE session lets in, and whose ownership inodes are shown with when
//! the driver runs under `sudo`.

use vstd::prelude::*;
use crate::text::parse_u32;
use crate::text::spec_parse_u32;

verus! {

/// A mount option of the driver.
#[derive(Debug, Clone)]
pub enum MountOpt {
    /// The name of the mounted filesystem's source (`fsname=`).
    FSName(String),
    /// The filesystem subtype (`subtype=`).
    Subtype(String),
    /// An option passed on verbatim.
    Custom(String),
    /// Read-only.
    RO,
    /// Read-write.
    RW,
    /// Every user may access the mount.
    AllowOther,
    /// The mounting user and root may access the mount.
    AllowRoot,
    /// The kernel checks permissions.
    DefaultPermissions,
}

/// Which users a FUSE session answers.
#[derive(Debug, Clone, Copy, PartialEq, Eq, Structural)]
pub enum SessionAcl {
    All,
    RootAndOwner,
    Owner,
}

/// The text after `-o` that macFUSE receives for a mount option.
pub open spec fn option_text(o: MountOpt) -> Seq<char> {
    match o {
        MountOpt::FSName(n) => "fsname="@ + n@,
        MountOpt::Subtype(s) => "subtype="@ + s@,
        MountOpt::Custom(v) => v@,
        MountOpt::RO => "ro"@,
        MountOpt::RW => "rw"@,
        MountOpt::AllowOther => "allow_other"@,
        MountOpt::AllowRoot => "allow_root"@,
        MountOpt::DefaultPermissions => "default_permissions"@,
    }
}

/// The arguments that always open macFUSE's argument list: the program name
/// and the options that let the volume nest in other macFUSE volumes, show
/// as a local disk, and leave permission checks to the filesystem.
pub open spec fn base_args() -> Seq<Seq<char>> {
    seq![
        "alpaca-extfs"@,
        "-o"@,
        "allow_recursion"@,
        "-o"@,
        "local"@,
        "-o"@,
        "defer_permissions"@,
    ]
}

/// The argument list that macFUSE receives for `options`: the base
/// arguments, then `-o` and the option's text for each option in order.
pub open spec fn macfuse_args_of(options: Seq<MountOpt>) -> Seq<Seq<char>>
    decreases options.len(),
{
    if options.len() == 0 {
        base_args()
    } else {
        macfuse_args_of(options.drop_last()) + seq!["-o"@, option_text(options.last())]
    }
}

/// The users that a session mounted with `options` answers: everyone when
/// `allow_other` is among them, else root and the owner when `allow_root`
/// is, else only the owner.
pub open spec fn session_acl_of(options: Seq<MountOpt>) -> SessionAcl {
    if exists|i: int| 0 <= i < options.len() && #[trigger] options[i] is AllowOther {
        SessionAcl::All
    } else if exists|i: int| 0 <= i < options.len() && #[trigger] options[i] is AllowRoot {
        SessionAcl::RootAndOwner
    } else {
        SessionAcl::Owner
    }
}

/// The text after `-o` that macFUSE receives for a mount option.
pub fn option_arg(o: &MountOpt) -> (s: String)
    ensures
        s@ == option_text(*o),
{
    match o {
        MountOpt::FSName(n) => String::from_str("fsname=").concat(n.as_str()),
        MountOpt::Subtype(t) => String::from_str("subtype=").concat(t.as_str()),
        MountOpt::Custom(v) => v.clone(),
        MountOpt::RO => String::from_str("ro"),
        MountOpt::RW => String::from_str("rw"),
        MountOpt::AllowOther => String::from_str("allow_other"),
        MountOpt::AllowRoot => String::from_str("allow_root"),
        MountOpt::DefaultPermissions => String::from_str("default_permissions"),
    }
}

/// The argument list that macFUSE's `fuse_mount` receives for a mount with
/// `options`.
pub fn macfuse_args(options: &Vec<MountOpt>) -> (args: Vec<String>)
    ensures
        args@.map_values(|a: String| a@) == macfuse_args_of(options@),
{
    let mut args: Vec<String> = Vec::new();
    args.push(String::from_str("alpaca-extfs"));
    args.push(String::from_str("-o"));
    args.push(String::from_str("allow_recursion"));
    args.push(String::from_str("-o"));
    args.push(String::from_str("local"));
    args.push(String::from_str("-o"));
    args.push(String::from_str("defer_permissions"));
    assert(args@.map_values(|a: String| a@) =~= base_args());
    assert(options@.take(0) =~= Seq::<MountOpt>::empty());
    let mut i: usize = 0;
    while i < options.len()
        invariant
            i <= options@.len(),
            args@.map_values(|a: String| a@) == macfuse_args_of(options@.take(i as int)),
        decreases options@.len() - i,
    {
        let ghost before = args@.map_values(|a: String| a@);
        args.push(String::from_str("-o"));
        args.push(option_arg(&options[i]));
        assert(options@.take(i + 1).drop_last() =~= options@.take(i as int));
        assert(args@.map_values(|a: String| a@) =~= before + seq!["-o"@, option_text(options@[i as int])]);
        i += 1;
    }
    assert(options@.take(options@.len() as int) =~= options@);
    args
}

/// The users that a session mounted with `options` answers.
pub fn session_acl(options: &Vec<MountOpt>) -> (acl: SessionAcl)
    ensures
        acl == session_acl_of(options@),
{
    let mut other = false;
    let mut root = false;
    let mut i: usize = 0;
    while i < options.len()
        invariant
            i <= options@.len(),
            other == exists|k: int| 0 <= k < i && #[trigger] options@[k] is AllowOther,
            root == exists|k: int| 0 <= k < i && #[trigger] options@[k] is AllowRoot,
        decreases options@.len() - i,
    {
        match &options[i] {
            MountOpt::AllowOther => {
                other = true;
            },
            MountOpt::AllowRoot => {
                root = true;
            },
            _ => {},
        }
        i += 1;
    }
    if other {
        SessionAcl::All
    } else if root {
        SessionAcl::RootAndOwner
    } else {
        SessionAcl::Owner
    }
}

/// The options that the driver mounts a volume with: read-only or
/// read-write, the volume name that Finder shows, the device as the
/// filesystem's source, and access for every user.
pub open spec fn mount_options_of(read_only: bool, volname: Seq<char>, device: Seq<char>) -> Seq<Seq<char>> {
    seq![
        if read_only { "ro"@ } else { "rw"@ },
        "volname="@ + volname,
        "fsname="@ + device,
        "allow_other"@,
    ]
}

/// The options that the driver mounts a volume with.
pub fn mount_options(read_only: bool, volname: &str, device: &str) -> (opts: Vec<MountOpt>)
    ensures
        opts@.map_values(|o: MountOpt| option_text(o)) == mount_options_of(read_only, volname@, device@),
        opts@.len() == 4,
        opts@[0] is RO <==> read_only,
        opts@[0] is RW <==> !read_only,
        opts@[1] matches MountOpt::Custom(v) && v@ == "volname="@ + volname@,
        opts@[2] matches MountOpt::FSName(d) && d@ == device@,
        opts@[3] is AllowOther,
{
    let mut opts: Vec<MountOpt> = Vec::new();
    if read_only {
        opts.push(MountOpt::RO);
    } else {
        opts.push(MountOpt::RW);
    }
    opts.push(MountOpt::Custom(String::from_str("volname=").concat(volname)));
    opts.push(MountOpt::FSName(String::from_str(device)));
    opts.push(MountOpt::AllowOther);
    assert(opts@.map_values(|o: MountOpt| option_text(o)) =~= mount_options_of(read_only, volname@, device@));
    opts
}

/// The name that Finder shows for the volume: the last component of the
/// mount point, or "Ext4Drive" when it has none that is valid UTF-8.
pub fn volume_name(mount_point_name: Option<&str>) -> (name: &str)
    ensures
        name@ == match mount_point_name {
            Some(n) => n@,
            None => "Ext4Drive"@,
        },
{
    match mount_point_name {
        Some(n) => n,
        None => "Ext4Drive",
    }
}

/// The owner that inodes are shown with when the driver runs under `sudo`:
/// the user and group ids that `SUDO_UID` and `SUDO_GID` hold, when both are
/// set and both are decimal numbers that fit in 32 bits.
pub open spec fn sudo_owner_of(sudo_uid: Option<Seq<char>>, sudo_gid: Option<Seq<char>>) -> Option<(u32, u32)> {
    match (sudo_uid, sudo_gid) {
        (Some(u), Some(g)) => match (spec_parse_u32(u), spec_parse_u32(g)) {
            (Some(uid), Some(gid)) => Some((uid, gid)),
            _ => None,
        },
        _ => None,
    }
}

/// The owner that inodes are shown with, given the values of `SUDO_UID` and
/// `SUDO_GID` (none when unset).
pub fn sudo_owner(sudo_uid: Option<&str>, sudo_gid: Option<&str>) -> (owner: Option<(u32, u32)>)
    ensures
        owner == sudo_owner_of(
            match sudo_uid { Some(u) => Some(u@), None => None::<Seq<char>> },
            match sudo_gid { Some(g) => Some(g@), None => None::<Seq<char>> },
        ),
{
    match (sudo_uid, sudo_gid) {
        (Some(u), Some(g)) => match (parse_u32(u), parse_u32(g)) {
            (Some(uid), Some(gid)) => Some((uid, gid)),
            _ => None,
        },
        _ => None,
    }
}


/// macFUSE's argument list always begins with the base arguments, and holds
/// two more arguments for each mount option.
pub proof fn lemma_macfuse_args_shape(options: Seq<MountOpt>)
    ensures
        macfuse_args_of(options).len() == 7 + 2 * options.len(),
        macfuse_args_of(options).take(7) == base_args(),
    decreases options.len(),
{
    if options.len() > 0 {
        lemma_macfuse_args_shape(options.drop_last());
        assert(macfuse_args_of(options).take(7) =~= macfuse_args_of(options.drop_last()).take(7));
    } else {
        assert(base_args().take(7) =~= base_args());
    }
}

/// A mount whose options hold `allow_other` (as the driver's always do)
/// answers every user.
pub proof fn lemma_allow_other_opens_session(options: Seq<MountOpt>, i: int)
    requires
        0 <= i < options.len(),
        options[i] is AllowOther,
    ensures
        session_acl_of(options) == SessionAcl::All,
{
}

/// Each mount option reaches macFUSE as `-o` followed by its own text, in
/// the order of the options, after the base arguments.
pub proof fn lemma_macfuse_args_options(options: Seq<MountOpt>)
    ensures
        forall|i: int| 0 <= i < options.len() ==> {
            &&& #[trigger] macfuse_args_of(options)[7 + 2 * i] == "-o"@
            &&& macfuse_args_of(options)[7 + 2 * i + 1] == option_text(options[i])
        },
    decreases options.len(),
{
    if options.len() > 0 {
        let rest = options.drop_last();
        lemma_macfuse_args_options(rest);
        lemma_macfuse_args_shape(rest);
        let all = macfuse_args_of(options);
        let before = macfuse_args_of(rest);
        assert forall|i: int| 0 <= i < options.len() implies {
            &&& #[trigger] all[7 + 2 * i] == "-o"@
            &&& all[7 + 2 * i + 1] == option_text(options[i])
        } by {
            if i < rest.len() {
                assert(all[7 + 2 * i] == before[7 + 2 * i]);
                assert(all[7 + 2 * i + 1] == before[7 + 2 * i + 1]);
                assert(rest[i] == options[i]);
            }
        }
    }
}

/// The text of each mount option: `rw` for read-write, `ro` for read-only,
/// `fsname=` and `subtype=` before the given name, a custom option as given,
/// and `allow_other`, `allow_root`, `default_permissions` for the access
/// options.
pub proof fn lemma_option_texts(o: MountOpt)
    ensures
        o is RW ==> option_text(o) == "rw"@,
        o is RO ==> option_text(o) == "ro"@,
        o matches MountOpt::FSName(n) ==> option_text(o) == "fsname="@ + n@,
        o matches MountOpt::Subtype(n) ==> option_text(o) == "subtype="@ + n@,
        o matches MountOpt::Custom(v) ==> option_text(o) == v@,
        o is AllowOther ==> option_text(o) == "allow_other"@,
        o is AllowRoot ==> option_text(o) == "allow_root"@,
        o is DefaultPermissions ==> option_text(o) == "default_permissions"@,
{
}

} // verus!
