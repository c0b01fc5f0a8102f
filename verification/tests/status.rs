use netbsd_proc::status::{parent_pid, wait_channel};

/// `cat` blocked reading a pipe.
const NETBSD_STATUS_PIPE_READ: &str = "cat 9290 15669 19993 19993 -1,-1 noflags 1785433833,220200 0,1004 0,1004 pipe_rd 1000 100,100,0";
/// A runnable process (`nochan` wait channel).
const NETBSD_STATUS_RUNNABLE: &str = "python3.14 22072 19993 19993 19993 -1,-1 noflags 1785433788,399468 0,48818 0,27896 nochan 1000 100,100,0";
/// `cat` blocked reading a tty.
const NETBSD_STATUS_TTY_READ: &str = "cat 27999 974 27999 27999 5,14 ctty,sldr 1785433994,550096 0,2151 0,3226 ttyraw 1000 100,100,0";

#[test]
fn netbsd_wait_channel_is_parsed_from_real_status_lines() {
    assert_eq!(wait_channel(NETBSD_STATUS_PIPE_READ), Some("pipe_rd"));
    assert_eq!(wait_channel(NETBSD_STATUS_TTY_READ), Some("ttyraw"));
}

#[test]
fn netbsd_runnable_process_reports_no_wait_channel() {
    assert_eq!(
        wait_channel(NETBSD_STATUS_RUNNABLE),
        None,
        "`nochan` means runnable, not blocked on a channel"
    );
}

#[test]
fn netbsd_parent_pid_is_parsed_from_real_status_lines() {
    assert_eq!(parent_pid(NETBSD_STATUS_PIPE_READ), Some(15669));
    assert_eq!(parent_pid(NETBSD_STATUS_RUNNABLE), Some(19993));
    assert_eq!(parent_pid(NETBSD_STATUS_TTY_READ), Some(974));
}

/// The reason both parsers count fields from the end: a process can carry a
/// command name containing spaces, which would shift every front-counted index.
#[test]
fn netbsd_parsers_tolerate_spaces_in_the_command_name() {
    let status = "my weird proc 9290 15669 19993 19993 -1,-1 noflags 1785433833,220200 0,1004 0,1004 pipe_rd 1000 100,100,0";
    assert_eq!(wait_channel(status), Some("pipe_rd"));
    assert_eq!(parent_pid(status), Some(15669));
}

#[test]
fn netbsd_parsers_reject_malformed_status_lines() {
    assert_eq!(wait_channel(""), None);
    assert_eq!(parent_pid(""), None);
    assert_eq!(parent_pid("cat 1 2"), None);
}

#[test]
fn command_name_prefix_changes_neither_field() {
    for name in ["", "x", "a b c", "tab\tseparated  name", "\u{3000}wide"] {
        let line = format!("{}\t{}", name, NETBSD_STATUS_TTY_READ);
        assert_eq!(wait_channel(&line), wait_channel(NETBSD_STATUS_TTY_READ));
        assert_eq!(parent_pid(&line), parent_pid(NETBSD_STATUS_TTY_READ));
    }
}

#[test]
fn wait_channel_needs_three_fields() {
    assert_eq!(wait_channel("a b"), None);
    assert_eq!(wait_channel("a b c"), Some("a"));
    assert_eq!(wait_channel("  pipe_rd 1000 100,100,0\n"), Some("pipe_rd"));
    assert_eq!(wait_channel("nochan 1000 100,100,0"), None);
    assert_eq!(wait_channel("nochanx 1000 100,100,0"), Some("nochanx"));
}

#[test]
fn wait_channel_splits_on_unicode_whitespace() {
    assert_eq!(wait_channel("x\u{a0}netio\u{2003}1\u{85}2"), Some("netio"));
    assert_eq!(wait_channel("x\u{200b}netio 1 2"), Some("x\u{200b}netio"));
}

#[test]
fn parent_pid_reads_decimal_u32_only() {
    let tail = " 4 5 6 7 8 9 10 11 12 13";
    assert_eq!(parent_pid(&format!("0{}", tail)), Some(0));
    assert_eq!(parent_pid(&format!("+42{}", tail)), Some(42));
    assert_eq!(parent_pid(&format!("007{}", tail)), Some(7));
    assert_eq!(parent_pid(&format!("4294967295{}", tail)), Some(u32::MAX));
    assert_eq!(parent_pid(&format!("4294967296{}", tail)), None);
    assert_eq!(parent_pid(&format!("-1{}", tail)), None);
    assert_eq!(parent_pid(&format!("+{}", tail)), None);
    assert_eq!(parent_pid(&format!("1x{}", tail)), None);
    assert_eq!(parent_pid(&format!("٣{}", tail)), None);
    assert_eq!(parent_pid(&format!("cat 15{}", tail)), Some(15));
}
