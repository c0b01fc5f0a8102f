//! Whether a process is blocked reading its standard input.
//!
//! NetBSD has no `/proc/<pid>/syscall` or `wchan`; the wait channel is a field
//! of `/proc/<pid>/status`, and what fd 0 is comes from `stat` on
//! `/proc/<pid>/fd/0`, whose entries are nodes rather than symlinks.
use vstd::prelude::*;
use crate::status::{spec_wait_channel, wait_channel};
use crate::text::{chars_of, range_equals};

verus! {

/// The file type of a process's fd 0, as `stat` reports it.
#[derive(Clone, Copy, Debug, PartialEq, Eq)]
pub enum FileKind {
    Fifo,
    CharDevice,
    Socket,
    Other,
}

/// The wait channels of a process blocked reading a tty, a pipe or a socket.
pub open spec fn is_read_channel(c: Seq<char>) -> bool {
    ||| c == "ttyraw"@
    ||| c == "ttyin"@
    ||| c == "ttyout"@
    ||| c == "pipe_rd"@
    ||| c == "netio"@
}

/// Fd 0 is a pipe, a tty (a character device) or a socket; false when its
/// type could not be read.
pub open spec fn spec_stdin_is_pipe_or_tty(stdin: Option<FileKind>) -> bool {
    match stdin {
        Some(FileKind::Fifo) | Some(FileKind::CharDevice) | Some(FileKind::Socket) => true,
        _ => false,
    }
}

/// Blocked reading stdin: the status line could be read, names a wait channel
/// of a read, and fd 0 is a pipe, tty or socket.
pub open spec fn spec_is_reading_stdin(status: Option<Seq<char>>, stdin: Option<FileKind>) -> bool {
    match status {
        Some(s) => match spec_wait_channel(s) {
            Some(c) => is_read_channel(c) && spec_stdin_is_pipe_or_tty(stdin),
            None => false,
        },
        None => false,
    }
}

fn equals_literal(c: &Vec<char>, lit: &str) -> (b: bool)
    ensures
        b == (c@ == lit@),
{
    let l = chars_of(lit);
    assert(c@.subrange(0, c@.len() as int) =~= c@);
    range_equals(c, 0, c.len(), &l)
}

/// Whether `channel` is the wait channel of a process blocked in a read:
/// `ttyraw`, `ttyin`, `ttyout`, `pipe_rd` or `netio`.
pub fn is_read_wait_channel(channel: &str) -> (b: bool)
    ensures
        b == is_read_channel(channel@),
        b <==> (channel@ == "ttyraw"@ || channel@ == "ttyin"@ || channel@ == "ttyout"@ || channel@
            == "pipe_rd"@ || channel@ == "netio"@),
{
    let c = chars_of(channel);
    equals_literal(&c, "ttyraw") || equals_literal(&c, "ttyin") || equals_literal(&c, "ttyout")
        || equals_literal(&c, "pipe_rd") || equals_literal(&c, "netio")
}

/// Whether fd 0, of the type that `stat` gave (none where it failed), is a
/// pipe, a tty or a socket.
pub fn stdin_is_pipe_or_tty(stdin: Option<FileKind>) -> (b: bool)
    ensures
        b == spec_stdin_is_pipe_or_tty(stdin),
        b <==> (stdin == Some(FileKind::Fifo) || stdin == Some(FileKind::CharDevice) || stdin
            == Some(FileKind::Socket)),
{
    match stdin {
        Some(FileKind::Fifo) | Some(FileKind::CharDevice) | Some(FileKind::Socket) => true,
        _ => false,
    }
}

/// Whether a process is blocked reading stdin, from its status line (none
/// where it could not be read) and the type of its fd 0.
pub fn is_reading_stdin(status: Option<&str>, stdin: Option<FileKind>) -> (b: bool)
    ensures
        b == spec_is_reading_stdin(
            match status {
                Some(s) => Some(s@),
                None => None,
            },
            stdin,
        ),
        status is None ==> !b,
        status matches Some(s) ==> (b <==> (spec_wait_channel(s@) matches Some(c) && (c
            == "ttyraw"@ || c == "ttyin"@ || c == "ttyout"@ || c == "pipe_rd"@ || c == "netio"@)
            && (stdin == Some(FileKind::Fifo) || stdin == Some(FileKind::CharDevice) || stdin
            == Some(FileKind::Socket)))),
{
    match status {
        Some(s) => match wait_channel(s) {
            Some(c) => is_read_wait_channel(c) && stdin_is_pipe_or_tty(stdin),
            None => false,
        },
        None => false,
    }
}

/// A process blocked in a read is reported reading whether its fd 0 is a
/// pipe, a tty or a socket: the three give the same answer, and an fd 0 of any
/// other type, or one that could not be examined, gives no.
pub proof fn lemma_pipe_tty_and_socket_alike(status: Seq<char>, k: FileKind)
    ensures
        k == FileKind::Fifo || k == FileKind::CharDevice || k == FileKind::Socket
            ==> spec_is_reading_stdin(Some(status), Some(k)) == spec_is_reading_stdin(
            Some(status),
            Some(FileKind::Fifo),
        ),
        !spec_is_reading_stdin(Some(status), Some(FileKind::Other)),
        !spec_is_reading_stdin(Some(status), None),
        spec_is_reading_stdin(Some(status), Some(FileKind::CharDevice)) <==> (spec_wait_channel(
            status,
        ) matches Some(c) && (c == "ttyraw"@ || c == "ttyin"@ || c == "ttyout"@ || c
            == "pipe_rd"@ || c == "netio"@)),
{
}

/// A wait channel counts as a read only when it is one of the five read
/// channels, and each of the five does.
pub proof fn lemma_read_channels_are_the_five(c: Seq<char>)
    ensures
        is_read_channel(c) <==> (c == "ttyraw"@ || c == "ttyin"@ || c == "ttyout"@ || c
            == "pipe_rd"@ || c == "netio"@),
{
}

} // verus!
