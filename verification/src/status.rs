//! NetBSD's `/proc/<pid>/status`: one line of thirteen whitespace-separated
//! fields, of which only the first, the command name, may contain spaces.
//! Fields are therefore counted from the end of the line.
use vstd::prelude::*;
use crate::decimal::{decimal_digits, lemma_parse_decimal_digits, parse_unsigned, spec_parse_unsigned};
use crate::text::{
    chars_of, field_ranges, fields, is_field, join_fields, lemma_fields_of_joined, lemma_fields_split,
    lemma_fields_trailing_white_space,
    range_equals, spec_is_white_space,
};

verus! {

/// The wait channel of a process that is not waiting on anything.
pub open spec fn no_channel() -> Seq<char> {
    "nochan"@
}

/// The wait channel, field 11 of 13 and so the third from the end, unless the
/// line has fewer than three fields or the process is runnable (`nochan`).
pub open spec fn spec_wait_channel(status: Seq<char>) -> Option<Seq<char>> {
    let f = fields(status);
    if f.len() < 3 {
        None
    } else if f[f.len() - 3] == no_channel() {
        None
    } else {
        Some(f[f.len() - 3])
    }
}

/// The parent pid, field 3 of 13 and so the eleventh from the end, read as a
/// `u32`; none when the line has fewer than eleven fields or that field is not
/// a number that fits.
pub open spec fn spec_parent_pid(status: Seq<char>) -> Option<u32> {
    let f = fields(status);
    if f.len() < 11 {
        None
    } else {
        match spec_parse_unsigned(f[f.len() - 11], u32::MAX as u64) {
            Some(v) => Some(v as u32),
            None => None,
        }
    }
}

/// Wait channel (field 11): 3rd from the end.
pub fn wait_channel(status: &str) -> (r: Option<&str>)
    ensures
        r is None <==> spec_wait_channel(status@) is None,
        r matches Some(w) ==> spec_wait_channel(status@) == Some(w@),
{
    let s = chars_of(status);
    let ranges = field_ranges(&s);
    let n = ranges.len();
    if n < 3 {
        return None;
    }
    let (a, b) = ranges[n - 3];
    let nochan = chars_of("nochan");
    if range_equals(&s, a, b, &nochan) {
        return None;
    }
    Some(status.substring_char(a, b))
}

/// Parent pid (field 3): 11th from the end.
pub fn parent_pid(status: &str) -> (r: Option<u32>)
    ensures
        r == spec_parent_pid(status@),
{
    let s = chars_of(status);
    let ranges = field_ranges(&s);
    let n = ranges.len();
    if n < 11 {
        return None;
    }
    let (a, b) = ranges[n - 11];
    match parse_unsigned(&s, a, b, u32::MAX as u64) {
        Some(v) => Some(v as u32),
        None => None,
    }
}

/// Counting from the end makes the parsers blind to the command name: putting
/// any text (a name with spaces, say) and a whitespace character in front of a
/// line changes neither the wait channel nor the parent pid, as long as the
/// line already holds the fields that they are counted back to.
pub proof fn lemma_command_name_does_not_shift(name: Seq<char>, w: char, rest: Seq<char>)
    requires
        spec_is_white_space(w),
    ensures
        fields(rest).len() >= 3 ==> spec_wait_channel(name + seq![w] + rest) == spec_wait_channel(
            rest,
        ),
        fields(rest).len() >= 11 ==> spec_parent_pid(name + seq![w] + rest) == spec_parent_pid(
            rest,
        ),
{
    lemma_fields_split(name, w, rest);
    let fa = fields(name);
    let fr = fields(rest);
    let f = fa + fr;
    if fr.len() >= 3 {
        assert(f[f.len() - 3] == fr[fr.len() - 3]);
    }
    if fr.len() >= 11 {
        assert(f[f.len() - 11] == fr[fr.len() - 11]);
    }
}

/// On a status line written as its thirteen fields separated by spaces, the
/// wait channel is field 11 (none when it reads `nochan`) and the parent pid
/// is field 3 read as a number.
pub proof fn lemma_status_line_fields(f: Seq<Seq<char>>)
    requires
        f.len() == 13,
        forall|k: int| 0 <= k < f.len() ==> is_field(#[trigger] f[k]),
    ensures
        spec_wait_channel(join_fields(f)) == (if f[10] == "nochan"@ {
            None
        } else {
            Some(f[10])
        }),
        spec_parent_pid(join_fields(f)) == (match spec_parse_unsigned(f[2], u32::MAX as u64) {
            Some(v) => Some(v as u32),
            None => None::<u32>,
        }),
{
    lemma_fields_of_joined(f);
}

/// The newline that ends a status file as it is read, or any other trailing
/// whitespace, changes neither the wait channel nor the parent pid.
pub proof fn lemma_trailing_white_space_ignored(status: Seq<char>, w: char)
    requires
        spec_is_white_space(w),
    ensures
        spec_wait_channel(status.push(w)) == spec_wait_channel(status),
        spec_parent_pid(status.push(w)) == spec_parent_pid(status),
{
    lemma_fields_trailing_white_space(status, w);
}

/// A status line of thirteen fields whose third is the parent pid `ppid`
/// written in decimal yields `ppid`, with or without the whitespace (a
/// newline, say) that ends it; its wait channel is its eleventh field unless
/// that reads `nochan`.
pub proof fn lemma_status_line_parent_pid(f: Seq<Seq<char>>, ppid: u32, w: char)
    requires
        f.len() == 13,
        forall|k: int| 0 <= k < f.len() ==> is_field(#[trigger] f[k]),
        f[2] == decimal_digits(ppid as nat),
        spec_is_white_space(w),
    ensures
        spec_parent_pid(join_fields(f)) == Some(ppid),
        spec_parent_pid(join_fields(f).push(w)) == Some(ppid),
        spec_wait_channel(join_fields(f).push(w)) == (if f[10] == "nochan"@ {
            None
        } else {
            Some(f[10])
        }),
{
    lemma_fields_of_joined(f);
    lemma_fields_trailing_white_space(join_fields(f), w);
    lemma_parse_decimal_digits(ppid as nat, u32::MAX as u64);
}

/// A runnable process has no wait channel: `nochan` is never returned as one,
/// and any other third-from-last field is.
pub proof fn lemma_nochan_is_no_channel(status: Seq<char>)
    ensures
        spec_wait_channel(status) != Some("nochan"@),
        fields(status).len() >= 3 && fields(status)[fields(status).len() - 3] != "nochan"@
            ==> spec_wait_channel(status) == Some(fields(status)[fields(status).len() - 3]),
        fields(status).len() < 3 ==> spec_wait_channel(status) is None,
{
}

} // verus!
