use netbsd_proc::stdin::{is_read_wait_channel, is_reading_stdin, stdin_is_pipe_or_tty, FileKind};

const PIPE_READER: &str = "cat 9290 15669 19993 19993 -1,-1 noflags 1785433833,220200 0,1004 0,1004 pipe_rd 1000 100,100,0";
const SLEEPER: &str = "sleep 9291 15669 19993 19993 -1,-1 noflags 1785433833,220200 0,1004 0,1004 nanoslp 1000 100,100,0";
const RUNNABLE: &str = "python3.14 22072 19993 19993 19993 -1,-1 noflags 1785433788,399468 0,48818 0,27896 nochan 1000 100,100,0";

#[test]
fn test_nonexistent_pid() {
    // No process has pid u32::MAX, so its status line cannot be read: the
    // library is handed no status, whatever fd 0 might have looked like.
    let status: Option<&str> = None;
    assert!(!is_reading_stdin(status, Some(FileKind::Fifo)));
    assert!(!is_reading_stdin(status, None));
}

#[test]
fn read_wait_channels_are_the_documented_five() {
    for c in ["ttyraw", "ttyin", "ttyout", "pipe_rd", "netio"] {
        assert!(is_read_wait_channel(c), "{c}");
    }
    for c in ["nochan", "nanoslp", "pipe_read", "ttyra", "", "pipe_rd "] {
        assert!(!is_read_wait_channel(c), "{c}");
    }
}

#[test]
fn stdin_kinds_that_can_block_a_read() {
    assert!(stdin_is_pipe_or_tty(Some(FileKind::Fifo)));
    assert!(stdin_is_pipe_or_tty(Some(FileKind::CharDevice)));
    assert!(stdin_is_pipe_or_tty(Some(FileKind::Socket)));
    assert!(!stdin_is_pipe_or_tty(Some(FileKind::Other)));
    assert!(!stdin_is_pipe_or_tty(None));
}

#[test]
fn reading_needs_a_read_channel_and_a_pipe_or_tty() {
    assert!(is_reading_stdin(Some(PIPE_READER), Some(FileKind::Fifo)));
    assert!(!is_reading_stdin(Some(PIPE_READER), Some(FileKind::Other)));
    assert!(!is_reading_stdin(Some(PIPE_READER), None));
    assert!(!is_reading_stdin(Some(SLEEPER), Some(FileKind::Fifo)));
    assert!(!is_reading_stdin(Some(RUNNABLE), Some(FileKind::CharDevice)));
    assert!(!is_reading_stdin(None, Some(FileKind::Fifo)));
    assert!(!is_reading_stdin(Some(""), Some(FileKind::Fifo)));
}
