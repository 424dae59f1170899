//! The mounts of the boot sequence: which filesystems are mounted, in what
//! order, and what the failure of each one means.
//!
//! Nothing here touches the kernel. [`mountfs`] is asked after every attempt
//! what comes next; the caller performs the mount it names and comes back
//! with the result.

use vstd::prelude::*;
use vstd::string::*;

verus! {

/// The mount options this sequence uses.
#[derive(Clone, Copy, Debug, PartialEq, Eq, Structural)]
pub struct MountFlags {
    pub read_only: bool,
    pub no_suid: bool,
    pub no_dev: bool,
    pub relative_atime: bool,
    pub remount: bool,
}

/// One call of `mount(2)`: what is mounted, where, as which type.
#[derive(Clone, Copy, Debug)]
pub struct MountRequest<'a> {
    pub source: Option<&'a str>,
    pub target: &'a str,
    pub fstype: &'a str,
    pub flags: MountFlags,
}

/// A mount that failed for good: where, and the `errno` of the failure.
#[derive(Clone, Debug)]
pub struct MountError {
    pub mountpoint: String,
    pub err: i32,
}

/// What the caller of [`mountfs`] or [`proc`] does next.
#[derive(Clone, Debug)]
pub enum MountAction<'a> {
    /// Perform this mount and report how it ended.
    Mount(MountRequest<'a>),
    /// Every mount is in place.
    Done,
    /// Stop: this mount failed and nothing can proceed without it.
    Fail(MountError),
}

/// The number of mounts in the sequence of [`mount_filesystem`].
pub const MOUNT_COUNT: usize = 5;

/// The place of `/dev` in the sequence, the one mount that may be found busy.
pub const DEV_INDEX: usize = 2;

/// The place of the root remount in the sequence.
pub const ROOT_INDEX: usize = 3;

/// `EBUSY` on Linux.
pub open spec fn spec_busy() -> i32 {
    16
}

/// No option set.
pub open spec fn no_flags() -> MountFlags {
    MountFlags {
        read_only: false,
        no_suid: false,
        no_dev: false,
        relative_atime: false,
        remount: false,
    }
}

/// The `index`-th mount of the sequence for the root device `root_disk`:
/// `/tmp`, `/proc`, `/dev`, the root remount, `/sys`.
pub open spec fn nth_request<'a>(root_disk: &'a str, index: int) -> MountRequest<'a> {
    if index == 0 {
        MountRequest {
            source: Some("tmpfs"),
            target: "/tmp",
            fstype: "tmpfs",
            flags: MountFlags { no_suid: true, no_dev: true, relative_atime: true, ..no_flags() },
        }
    } else if index == 1 {
        MountRequest { source: None, target: "/proc", fstype: "proc", flags: no_flags() }
    } else if index == 2 {
        MountRequest { source: Some("devtmpfs"), target: "/dev", fstype: "devtmpfs", flags: no_flags() }
    } else if index == 3 {
        MountRequest {
            source: Some(root_disk),
            target: "/",
            fstype: "",
            flags: MountFlags { remount: true, ..no_flags() },
        }
    } else {
        MountRequest {
            source: Some("sysfs"),
            target: "/sys",
            fstype: "sysfs",
            flags: MountFlags { read_only: true, ..no_flags() },
        }
    }
}

/// How the `index`-th mount is named in an error: its mountpoint, and for
/// the root remount the device as well.
pub open spec fn mountpoint_label(root_disk: Seq<char>, index: int) -> Seq<char> {
    if index == 0 {
        "/tmp"@
    } else if index == 1 {
        "/proc"@
    } else if index == DEV_INDEX {
        "/dev"@
    } else if index == ROOT_INDEX {
        "/ -> "@ + root_disk
    } else {
        "/sys"@
    }
}

/// Whether the sequence goes on after the `index`-th mount failed with
/// `errno`: only where `/dev` was busy, which means it is mounted already.
pub open spec fn tolerated(index: int, errno: i32) -> bool {
    index == DEV_INDEX && errno == spec_busy()
}

/// Whether `last`, the result of the mount before the `done`-th, ends the
/// sequence.
pub open spec fn is_fatal(done: int, last: Result<(), i32>) -> bool {
    0 < done <= MOUNT_COUNT && last is Err && !tolerated(done - 1, last->Err_0)
}

/// `libc::EBUSY`, the `errno` of a mountpoint that is in use. On Linux the
/// constant is 16, which is all the contract claims.
#[verifier::external_body]
fn busy_errno() -> (e: i32)
    ensures
        e == spec_busy(),
{
    libc::EBUSY
}

/// The mount of `/proc` that comes before anything else is read: read-only,
/// no other option.
pub fn mount_proc() -> (r: MountRequest<'static>)
    ensures
        r.source is None,
        r.target == "/proc",
        r.fstype == "proc",
        r.flags == (MountFlags { read_only: true, ..no_flags() }),
{
    MountRequest {
        source: None,
        target: "/proc",
        fstype: "proc",
        flags: MountFlags {
            read_only: true,
            no_suid: false,
            no_dev: false,
            relative_atime: false,
            remount: false,
        },
    }
}

fn request_at<'a>(root_disk: &'a str, index: usize) -> (r: MountRequest<'a>)
    requires
        index < MOUNT_COUNT,
    ensures
        r == nth_request(root_disk, index as int),
{
    let none = MountFlags {
        read_only: false,
        no_suid: false,
        no_dev: false,
        relative_atime: false,
        remount: false,
    };
    if index == 0 {
        MountRequest {
            source: Some("tmpfs"),
            target: "/tmp",
            fstype: "tmpfs",
            flags: MountFlags { no_suid: true, no_dev: true, relative_atime: true, ..none },
        }
    } else if index == 1 {
        MountRequest { source: None, target: "/proc", fstype: "proc", flags: none }
    } else if index == 2 {
        MountRequest { source: Some("devtmpfs"), target: "/dev", fstype: "devtmpfs", flags: none }
    } else if index == 3 {
        MountRequest {
            source: Some(root_disk),
            target: "/",
            fstype: "",
            flags: MountFlags { remount: true, ..none },
        }
    } else {
        MountRequest {
            source: Some("sysfs"),
            target: "/sys",
            fstype: "sysfs",
            flags: MountFlags { read_only: true, ..none },
        }
    }
}

fn label_at(root_disk: &str, index: usize) -> (s: String)
    requires
        index < MOUNT_COUNT,
    ensures
        s@ == mountpoint_label(root_disk@, index as int),
{
    if index == 0 {
        String::from_str("/tmp")
    } else if index == 1 {
        String::from_str("/proc")
    } else if index == 2 {
        String::from_str("/dev")
    } else if index == 3 {
        String::from_str("/ -> ").concat(root_disk)
    } else {
        String::from_str("/sys")
    }
}

/// The filesystems the system needs to boot, in the order in which they are
/// mounted: `/tmp` as tmpfs (nosuid, nodev, relatime), `/proc`, `/dev` as
/// devtmpfs, `root_disk` remounted onto `/`, and `/sys` as sysfs, read-only.
pub fn mount_filesystem<'a>(root_disk: &'a str) -> (plan: Vec<MountRequest<'a>>)
    ensures
        plan@.len() == MOUNT_COUNT,
        forall|i: int| 0 <= i < MOUNT_COUNT ==> #[trigger] plan@[i] == nth_request(root_disk, i),
{
    let mut plan: Vec<MountRequest<'a>> = Vec::new();
    let mut index: usize = 0;
    while index < MOUNT_COUNT
        invariant
            index <= MOUNT_COUNT,
            plan@.len() == index,
            forall|i: int| 0 <= i < index ==> plan@[i] == nth_request(root_disk, i),
        decreases MOUNT_COUNT - index,
    {
        plan.push(request_at(root_disk, index));
        index = index + 1;
    }
    plan
}

/// The next move of the mount sequence, after `done` of its mounts were
/// attempted and the last of them ended with `last`.
///
/// A failure ends the sequence with an error that names the mountpoint and
/// carries the `errno`, except where `/dev` is busy. Otherwise the next
/// mount of [`mount_filesystem`] is due, or the sequence is complete. Before
/// the first attempt (`done == 0`) `last` is not looked at.
pub fn mountfs<'a>(root_disk: &'a str, done: usize, last: Result<(), i32>) -> (action: MountAction<'a>)
    ensures
        is_fatal(done as int, last) ==> (action matches MountAction::Fail(e)
            && e.mountpoint@ == mountpoint_label(root_disk@, done - 1)
            && e.err == last->Err_0),
        !is_fatal(done as int, last) && done < MOUNT_COUNT ==> (action matches MountAction::Mount(r)
            && r == nth_request(root_disk, done as int)),
        !is_fatal(done as int, last) && done >= MOUNT_COUNT ==> action is Done,
{
    if 0 < done && done <= MOUNT_COUNT {
        if let Err(errno) = last {
            let busy = busy_errno();
            if !(done - 1 == DEV_INDEX && errno == busy) {
                return MountAction::Fail(
                    MountError { mountpoint: label_at(root_disk, done - 1), err: errno },
                );
            }
        }
    }
    if done < MOUNT_COUNT {
        MountAction::Mount(request_at(root_disk, done))
    } else {
        MountAction::Done
    }
}

/// The mount of `/proc` on its own, before anything else is read: one
/// mount, read-only and with no other option, as [`mount_proc`] describes
/// it. `last` is `None` before the attempt and its result afterwards: the
/// mount is done if it succeeded, and failed with `/proc` and the `errno`
/// if it did not.
pub fn proc(last: Option<Result<(), i32>>) -> (action: MountAction<'static>)
    ensures
        last is None ==> (action matches MountAction::Mount(r) && r.source is None && r.target
            == "/proc" && r.fstype == "proc" && r.flags == (MountFlags {
            read_only: true,
            ..no_flags()
        })),
        last == Some(Ok::<(), i32>(())) ==> action is Done,
        last matches Some(Err(errno)) ==> (action matches MountAction::Fail(e) && e.mountpoint@
            == "/proc"@ && e.err == errno),
{
    match last {
        None => MountAction::Mount(mount_proc()),
        Some(Ok(())) => MountAction::Done,
        Some(Err(errno)) => MountAction::Fail(
            MountError { mountpoint: String::from_str("/proc"), err: errno },
        ),
    }
}

} // verus!
