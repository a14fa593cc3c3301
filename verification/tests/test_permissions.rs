//! The permission gate: bind-time modes and the admin-group choice.

use clash_verge_service_ipc::permission::{
    bind_plan, choose_admin_gid, parse_sudo_gid, pick_run_user_gid, set_ipc_socket_permissions,
    windows_security_descriptor, RunUserEntry,
};

fn entry(name: &str, gid: u32) -> RunUserEntry {
    RunUserEntry { name: name.as_bytes().to_vec(), gid }
}

#[test]
fn bind_plan_sets_the_specified_modes() {
    let plan = bind_plan(None, &Vec::new(), None, 988);
    assert_eq!(plan.dir_mode, 0o2770);
    assert_eq!(plan.socket_mode, 0o660);
    assert_eq!(plan.bind_umask, 0o007);
    assert_eq!(plan.gid, 988);
}

#[test]
fn admin_gid_follows_the_precedence() {
    let entries = vec![entry("1000", 1000)];
    // a parsable SUDO_GID wins
    assert_eq!(choose_admin_gid(Some(4), &entries, Some(20), 99), 4);
    // then the first matching /run/user entry
    assert_eq!(choose_admin_gid(None, &entries, Some(20), 99), 1000);
    // then the console group
    assert_eq!(choose_admin_gid(None, &Vec::new(), Some(20), 99), 20);
    // then the process group
    assert_eq!(choose_admin_gid(None, &Vec::new(), None, 99), 99);
}

#[test]
fn run_user_entries_need_a_numeric_name_in_range() {
    assert_eq!(pick_run_user_gid(&vec![entry("1000", 10)]), Some(10));
    assert_eq!(pick_run_user_gid(&vec![entry("65533", 11)]), Some(11));
    // below and above the range, or not numeric: skipped
    assert_eq!(pick_run_user_gid(&vec![entry("999", 12)]), None);
    assert_eq!(pick_run_user_gid(&vec![entry("65534", 13)]), None);
    assert_eq!(pick_run_user_gid(&vec![entry("gdm", 14)]), None);
    assert_eq!(pick_run_user_gid(&vec![entry("", 15)]), None);
    // the first matching entry wins
    let entries = vec![entry("0", 1), entry("1001", 2), entry("1002", 3)];
    assert_eq!(pick_run_user_gid(&entries), Some(2));
}

#[test]
fn sudo_gid_parses_only_numerals_in_group_range() {
    assert_eq!(parse_sudo_gid(Some(&b"1000".to_vec())), Some(1000));
    assert_eq!(parse_sudo_gid(Some(&b"0".to_vec())), Some(0));
    assert_eq!(parse_sudo_gid(Some(&b"4294967295".to_vec())), Some(u32::MAX));
    assert_eq!(parse_sudo_gid(Some(&b"4294967296".to_vec())), None);
    assert_eq!(parse_sudo_gid(Some(&b"10x".to_vec())), None);
    assert_eq!(parse_sudo_gid(Some(&b"".to_vec())), None);
    assert_eq!(parse_sudo_gid(None), None);
}

#[test]
fn endpoint_reopen_mode() {
    assert_eq!(set_ipc_socket_permissions(true), Some(0o666));
    assert_eq!(set_ipc_socket_permissions(false), None);
}

#[test]
fn windows_descriptor_grants_everyone_generic_all() {
    assert_eq!(windows_security_descriptor(), "D:(A;;GA;;;WD)");
}
