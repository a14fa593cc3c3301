//! Access control on the endpoint: the modes set at bind time and the choice
//! of the admin group. The shell performs the filesystem calls; every value
//! it applies is decided here.

use crate::text::{parse_u64_dec, spec_all_digits, spec_dec_value};
use vstd::prelude::*;

verus! {

/// Everything the shell applies around the bind on Unix: the containing
/// directory's mode (setgid so new sockets inherit the admin group), the
/// socket file's mode, the process umask held during the bind (so the kernel
/// does not strip group permission on creation), and the group the directory
/// is chowned to.
pub struct BindPlan {
    pub dir_mode: u32,
    pub socket_mode: u32,
    pub bind_umask: u32,
    pub gid: u32,
}

/// A `/run/user` entry, as the shell found it: the entry's file name and the
/// owning group of the entry.
pub struct RunUserEntry {
    pub name: Vec<u8>,
    pub gid: u32,
}

/// An entry counts when its name is a numeric user id in `[1000, 65534)`.
pub open spec fn spec_run_user_entry_matches(name: Seq<u8>) -> bool {
    &&& name.len() > 0
    &&& spec_all_digits(name)
    &&& spec_dec_value(name) <= u64::MAX as int
    &&& 1000 <= spec_dec_value(name) < 65534
}

/// The group of the first matching `/run/user` entry.
pub open spec fn spec_pick_run_user_gid(entries: Seq<(Seq<u8>, u32)>) -> Option<u32>
    decreases entries.len(),
{
    if entries.len() == 0 {
        None
    } else if spec_run_user_entry_matches(entries.first().0) {
        Some(entries.first().1)
    } else {
        spec_pick_run_user_gid(entries.drop_first())
    }
}

pub open spec fn spec_entries_view(entries: Seq<RunUserEntry>) -> Seq<(Seq<u8>, u32)> {
    entries.map_values(|e: RunUserEntry| (e.name@, e.gid))
}

proof fn lemma_pick_run_user_skip(entries: Seq<(Seq<u8>, u32)>, i: int)
    requires
        0 <= i <= entries.len(),
        forall|j: int| 0 <= j < i ==> !spec_run_user_entry_matches(#[trigger] entries[j].0),
    ensures
        spec_pick_run_user_gid(entries) == spec_pick_run_user_gid(entries.skip(i)),
    decreases i,
{
    if i > 0 {
        assert(entries.drop_first().skip(i - 1) =~= entries.skip(i));
        lemma_pick_run_user_skip(entries.drop_first(), i - 1);
    } else {
        assert(entries.skip(0) =~= entries);
    }
}

/// The group of the first `/run/user` entry whose name is a numeric user id
/// in `[1000, 65534)`, if any.
pub fn pick_run_user_gid(entries: &Vec<RunUserEntry>) -> (r: Option<u32>)
    ensures
        r == spec_pick_run_user_gid(spec_entries_view(entries@)),
{
    let n = entries.len();
    for i in 0..n
        invariant
            n == entries@.len(),
            forall|j: int| 0 <= j < i ==> !spec_run_user_entry_matches(
                #[trigger] spec_entries_view(entries@)[j].0,
            ),
    {
        let matched = match parse_u64_dec(entries[i].name.as_slice()) {
            Some(v) => 1000 <= v && v < 65534,
            None => false,
        };
        if matched {
            proof {
                lemma_pick_run_user_skip(spec_entries_view(entries@), i as int);
                assert(spec_entries_view(entries@).skip(i as int).first() == spec_entries_view(
                    entries@,
                )[i as int]);
            }
            return Some(entries[i].gid);
        }
    }
    proof {
        lemma_pick_run_user_skip(spec_entries_view(entries@), entries@.len() as int);
    }
    None
}

/// The value of `SUDO_GID`, when the variable is set, numeric, and in group
/// id range.
pub fn parse_sudo_gid(value: Option<&Vec<u8>>) -> (r: Option<u32>)
    ensures
        (match value {
            Some(v) => r == (if v@.len() > 0 && spec_all_digits(v@) && spec_dec_value(v@)
                <= u32::MAX as int {
                Some(spec_dec_value(v@) as u32)
            } else {
                None::<u32>
            }),
            None => r is None,
        }),
{
    match value {
        Some(v) => match parse_u64_dec(v.as_slice()) {
            Some(g) => {
                if g <= u32::MAX as u64 {
                    Some(g as u32)
                } else {
                    None
                }
            },
            None => None,
        },
        None => None,
    }
}

/// The admin group, by precedence: a parsable `SUDO_GID`; the first matching
/// `/run/user` entry; the console device's group; the process's own group.
pub open spec fn spec_admin_gid(
    sudo_gid: Option<u32>,
    entries: Seq<(Seq<u8>, u32)>,
    console_gid: Option<u32>,
    process_gid: u32,
) -> u32 {
    match sudo_gid {
        Some(g) => g,
        None => match spec_pick_run_user_gid(entries) {
            Some(g) => g,
            None => match console_gid {
                Some(g) => g,
                None => process_gid,
            },
        },
    }
}

/// Choose the admin group from what the shell could observe.
pub fn choose_admin_gid(
    sudo_gid: Option<u32>,
    entries: &Vec<RunUserEntry>,
    console_gid: Option<u32>,
    process_gid: u32,
) -> (r: u32)
    ensures
        r == spec_admin_gid(sudo_gid, spec_entries_view(entries@), console_gid, process_gid),
{
    match sudo_gid {
        Some(g) => g,
        None => match pick_run_user_gid(entries) {
            Some(g) => g,
            None => match console_gid {
                Some(g) => g,
                None => process_gid,
            },
        },
    }
}

/// The bind-time plan: directory `rwxrws---`, socket `rw-rw----`, umask
/// `007` while binding, and the chosen admin group.
pub fn bind_plan(
    sudo_gid: Option<u32>,
    entries: &Vec<RunUserEntry>,
    console_gid: Option<u32>,
    process_gid: u32,
) -> (r: BindPlan)
    ensures
        r.dir_mode == 0o2770u32,
        r.socket_mode == 0o660u32,
        r.bind_umask == 0o007u32,
        r.gid == spec_admin_gid(sudo_gid, spec_entries_view(entries@), console_gid, process_gid),
{
    BindPlan {
        dir_mode: 0o2770,
        socket_mode: 0o660,
        bind_umask: 0o007,
        gid: choose_admin_gid(sudo_gid, entries, console_gid, process_gid),
    }
}

/// The security descriptor attached to the named pipe on Windows:
/// generic-all for Everyone.
pub fn windows_security_descriptor() -> (r: &'static str)
    ensures
        r@ == "D:(A;;GA;;;WD)"@,
{
    "D:(A;;GA;;;WD)"
}

/// Re-open the endpoint file after it exists: the mode to set on it, if it is
/// there at all. A missing endpoint needs nothing.
pub fn set_ipc_socket_permissions(ipc_path_exists: bool) -> (r: Option<u32>)
    ensures
        r == (if ipc_path_exists {
            Some(0o666u32)
        } else {
            None::<u32>
        }),
{
    if ipc_path_exists {
        Some(0o666)
    } else {
        None
    }
}

} // verus!
