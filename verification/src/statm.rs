//! `/proc/<pid>/statm`: whitespace-separated page counts, of which the first
//! is the total program size and the second the resident set size.
use vstd::prelude::*;
use crate::decimal::{decimal_digits, lemma_parse_decimal_digits, parse_unsigned, spec_parse_unsigned};
use crate::text::{
    chars_of, field_ranges, fields, is_field, join_fields, lemma_fields_of_joined,
    lemma_fields_trailing_white_space, spec_is_white_space,
};

verus! {

/// `a * b`, or `u64::MAX` where the product does not fit.
pub open spec fn saturating_product(a: u64, b: u64) -> u64 {
    if a * b > u64::MAX {
        u64::MAX
    } else {
        (a * b) as u64
    }
}

/// The bytes that field `k` of `statm` counts in pages of `page_size` bytes:
/// none when the line has no field `k` or that field is not a `u64`.
pub open spec fn spec_field_bytes(statm: Seq<char>, k: int, page_size: u64) -> Option<u64> {
    let f = fields(statm);
    if k < f.len() {
        match spec_parse_unsigned(f[k], u64::MAX) {
            Some(pages) => Some(saturating_product(pages, page_size)),
            None => None,
        }
    } else {
        None
    }
}

fn field_bytes(s: &Vec<char>, ranges: &Vec<(usize, usize)>, k: usize, page_size: u64) -> (r:
    Option<u64>)
    requires
        crate::text::locates_fields(s@, ranges@),
    ensures
        r == spec_field_bytes(s@, k as int, page_size),
{
    if k >= ranges.len() {
        return None;
    }
    let (a, b) = ranges[k];
    match parse_unsigned(s, a, b, u64::MAX) {
        Some(pages) => match pages.checked_mul(page_size) {
            Some(bytes) => Some(bytes),
            None => Some(u64::MAX),
        },
        None => None,
    }
}

/// `(virtual_bytes, rss_bytes)` from a `statm` line and the page size: fields
/// 0 and 1 read as page counts and multiplied by the page size, saturating.
/// The fields are read by position: a field that does not parse gives `None`
/// in its own slot and moves nothing into it from the next.
pub fn statm_bytes(statm: &str, page_size: u64) -> (r: (Option<u64>, Option<u64>))
    ensures
        r.0 == spec_field_bytes(statm@, 0, page_size),
        r.1 == spec_field_bytes(statm@, 1, page_size),
{
    let s = chars_of(statm);
    let ranges = field_ranges(&s);
    let virtual_bytes = field_bytes(&s, &ranges, 0, page_size);
    let rss_bytes = field_bytes(&s, &ranges, 1, page_size);
    (virtual_bytes, rss_bytes)
}

/// The fields of `statm` are read by position: whatever stands in field 0,
/// the resident set size is read from field 1 alone, and a field 0 that is not
/// a number gives no program size rather than the next field's value.
pub proof fn lemma_statm_fields_are_positional(f: Seq<Seq<char>>, x: Seq<char>, page_size: u64)
    requires
        f.len() >= 2,
        forall|k: int| 0 <= k < f.len() ==> is_field(#[trigger] f[k]),
        is_field(x),
    ensures
        spec_field_bytes(join_fields(f.update(0, x)), 1, page_size) == spec_field_bytes(
            join_fields(f),
            1,
            page_size,
        ),
        spec_parse_unsigned(x, u64::MAX) is None ==> spec_field_bytes(
            join_fields(f.update(0, x)),
            0,
            page_size,
        ) is None,
{
    let g = f.update(0, x);
    assert forall|k: int| 0 <= k < g.len() implies is_field(#[trigger] g[k]) by {
        if k != 0 {
            assert(g[k] == f[k]);
        }
    }
    lemma_fields_of_joined(f);
    lemma_fields_of_joined(g);
}

/// A field that holds a page count `pages` written in decimal gives
/// `pages * page_size` bytes exactly, whenever that product fits in a `u64`,
/// and `u64::MAX` only when it does not.
pub proof fn lemma_statm_page_count_bytes(f: Seq<Seq<char>>, k: int, pages: u64, page_size: u64)
    requires
        0 <= k < f.len(),
        forall|j: int| 0 <= j < f.len() ==> is_field(#[trigger] f[j]),
        f[k] == decimal_digits(pages as nat),
    ensures
        pages * page_size <= u64::MAX ==> spec_field_bytes(join_fields(f), k, page_size) == Some(
            (pages * page_size) as u64,
        ),
        pages * page_size > u64::MAX ==> spec_field_bytes(join_fields(f), k, page_size) == Some(
            u64::MAX,
        ),
{
    lemma_fields_of_joined(f);
    lemma_parse_decimal_digits(pages as nat, u64::MAX);
}

/// The newline that ends `statm` as it is read, or any other trailing
/// whitespace, changes neither figure.
pub proof fn lemma_statm_trailing_white_space_ignored(
    statm: Seq<char>,
    w: char,
    k: int,
    page_size: u64,
)
    requires
        spec_is_white_space(w),
    ensures
        spec_field_bytes(statm.push(w), k, page_size) == spec_field_bytes(statm, k, page_size),
{
    lemma_fields_trailing_white_space(statm, w);
}

} // verus!
