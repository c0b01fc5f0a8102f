//! Characters, whitespace and the whitespace-separated fields of a line.
use vstd::prelude::*;
use vstd::std_specs::iter::IteratorSpec;

verus! {

broadcast use vstd::string::group_string_axioms;

/// Unicode `White_Space`: the characters on which `str::split_whitespace`
/// splits.
pub open spec fn spec_is_white_space(c: char) -> bool {
    let n = c as u32;
    ||| 0x09 <= n <= 0x0d
    ||| n == 0x20
    ||| n == 0x85
    ||| n == 0xa0
    ||| n == 0x1680
    ||| 0x2000 <= n <= 0x200a
    ||| n == 0x2028
    ||| n == 0x2029
    ||| n == 0x202f
    ||| n == 0x205f
    ||| n == 0x3000
}

/// The whitespace characters are exactly the twenty-five of Unicode's
/// `White_Space` property: tab, line feed, vertical tab, form feed, carriage
/// return, space, next line, no-break space, ogham space mark, the spaces
/// U+2000 to U+200A, line and paragraph separator, narrow no-break space,
/// medium mathematical space and ideographic space.
pub proof fn lemma_white_space_is_unicode_white_space(c: char)
    ensures
        spec_is_white_space(c) <==> {
            ||| c == '\t'
            ||| c == '\n'
            ||| c == '\u{0B}'
            ||| c == '\u{0C}'
            ||| c == '\r'
            ||| c == ' '
            ||| c == '\u{85}'
            ||| c == '\u{A0}'
            ||| c == '\u{1680}'
            ||| '\u{2000}' <= c <= '\u{200A}'
            ||| c == '\u{2028}'
            ||| c == '\u{2029}'
            ||| c == '\u{202F}'
            ||| c == '\u{205F}'
            ||| c == '\u{3000}'
        },
{
}

/// Among ASCII characters only space and tab to carriage return are
/// whitespace: no letter, digit or punctuation mark separates fields.
pub proof fn lemma_ascii_white_space(c: char)
    requires
        (c as u32) < 0x80,
    ensures
        spec_is_white_space(c) <==> (c == ' ' || '\t' <= c <= '\r'),
        'a' <= c <= 'z' || 'A' <= c <= 'Z' || '0' <= c <= '9' ==> !spec_is_white_space(c),
        c == '_' || c == ',' || c == '.' || c == '-' || c == '+' ==> !spec_is_white_space(c),
{
}

/// Whether `c` is Unicode whitespace.
pub fn is_white_space(c: char) -> (b: bool)
    ensures
        b == spec_is_white_space(c),
{
    let n = c as u32;
    (0x09 <= n && n <= 0x0d) || n == 0x20 || n == 0x85 || n == 0xa0 || n == 0x1680 || (0x2000 <= n
        && n <= 0x200a) || n == 0x2028 || n == 0x2029 || n == 0x202f || n == 0x205f || n == 0x3000
}

/// The characters of `s`, in order.
pub fn chars_of(s: &str) -> (v: Vec<char>)
    ensures
        v@ == s@,
{
    let mut v: Vec<char> = Vec::new();
    let mut it = s.chars();
    loop
        invariant
            v@ + it.remaining() == s@,
            it.decrease() is Some,
        ensures
            v@ == s@,
        decreases it.decrease()->0,
    {
        match it.next() {
            Some(c) => {
                v.push(c);
            },
            None => {
                break;
            },
        }
    }
    v
}

/// The whitespace-separated fields of `s`, as `str::split_whitespace` yields
/// them: the maximal runs of characters that are not whitespace, in order.
///
/// Defined by reading `s` from left to right: a whitespace character ends the
/// current field, any other character either extends the field that the
/// previous character belongs to or starts a new one.
pub open spec fn fields(s: Seq<char>) -> Seq<Seq<char>>
    decreases s.len(),
{
    if s.len() == 0 {
        seq![]
    } else {
        let f = fields(s.drop_last());
        let c = s.last();
        if spec_is_white_space(c) {
            f
        } else if s.len() >= 2 && !spec_is_white_space(s[s.len() - 2]) {
            f.update(f.len() - 1, f.last().push(c))
        } else {
            f.push(seq![c])
        }
    }
}

/// Whether `s[from..to]` is exactly the characters `w`.
pub fn range_equals(s: &Vec<char>, from: usize, to: usize, w: &Vec<char>) -> (b: bool)
    requires
        from <= to <= s@.len(),
    ensures
        b == (s@.subrange(from as int, to as int) == w@),
{
    let ghost t = s@.subrange(from as int, to as int);
    if to - from != w.len() {
        return false;
    }
    let mut i: usize = 0;
    while i < w.len()
        invariant
            from <= to <= s@.len(),
            to - from == w@.len(),
            t == s@.subrange(from as int, to as int),
            i <= w@.len(),
            forall|j: int| 0 <= j < i ==> t[j] == w@[j],
        decreases w@.len() - i,
    {
        if s[from + i] != w[i] {
            assert(t[i as int] != w@[i as int]);
            return false;
        }
        i = i + 1;
    }
    assert(t =~= w@);
    true
}

/// A line that ends in a character other than whitespace has a field.
pub proof fn lemma_fields_nonempty(s: Seq<char>)
    requires
        s.len() > 0,
        !spec_is_white_space(s.last()),
    ensures
        fields(s).len() > 0,
    decreases s.len(),
{
    if s.len() >= 2 && !spec_is_white_space(s[s.len() - 2]) {
        lemma_fields_nonempty(s.drop_last());
    }
}

/// Whitespace at the end of a line (the newline that ends every file read
/// from `/proc`, say) adds no field and changes none.
pub proof fn lemma_fields_trailing_white_space(s: Seq<char>, w: char)
    requires
        spec_is_white_space(w),
    ensures
        fields(s.push(w)) == fields(s),
{
    assert(s.push(w).drop_last() =~= s);
}

/// Whitespace at the start of a line adds no field and changes none.
pub proof fn lemma_fields_leading_white_space(w: char, s: Seq<char>)
    requires
        spec_is_white_space(w),
    ensures
        fields(seq![w] + s) == fields(s),
{
    lemma_fields_split(Seq::<char>::empty(), w, s);
    assert(Seq::<char>::empty() + seq![w] + s =~= seq![w] + s);
    assert(fields(Seq::<char>::empty()) + fields(s) =~= fields(s));
}

/// A whitespace character separates: the fields of `a`, a whitespace
/// character and `b` are the fields of `a` followed by those of `b`.
pub proof fn lemma_fields_split(a: Seq<char>, w: char, b: Seq<char>)
    requires
        spec_is_white_space(w),
    ensures
        fields(a + seq![w] + b) == fields(a) + fields(b),
    decreases b.len(),
{
    let t = a + seq![w] + b;
    if b.len() == 0 {
        assert(t.drop_last() =~= a);
        assert(fields(a) + fields(b) =~= fields(a));
    } else {
        lemma_fields_split(a, w, b.drop_last());
        assert(t.drop_last() =~= a + seq![w] + b.drop_last());
        let fa = fields(a);
        let g = fields(b.drop_last());
        let c = b.last();
        assert(t.last() == c);
        if spec_is_white_space(c) {
        } else if b.len() >= 2 && !spec_is_white_space(b[b.len() - 2]) {
            assert(t[t.len() - 2] == b[b.len() - 2]);
            lemma_fields_nonempty(b.drop_last());
            assert((fa + g).update(fa.len() + g.len() - 1, (fa + g).last().push(c)) =~= fa
                + g.update(g.len() - 1, g.last().push(c)));
        } else {
            if b.len() >= 2 {
                assert(t[t.len() - 2] == b[b.len() - 2]);
            } else {
                assert(t[t.len() - 2] == w);
            }
            assert((fa + g).push(seq![c]) =~= fa + g.push(seq![c]));
        }
    }
}

/// A field: a nonempty run of characters none of which is whitespace.
pub open spec fn is_field(w: Seq<char>) -> bool {
    &&& w.len() > 0
    &&& forall|i: int| 0 <= i < w.len() ==> !spec_is_white_space(#[trigger] w[i])
}

/// The fields `f` written out with one space between neighbours.
pub open spec fn join_fields(f: Seq<Seq<char>>) -> Seq<char>
    decreases f.len(),
{
    if f.len() == 0 {
        seq![]
    } else if f.len() == 1 {
        f[0]
    } else {
        join_fields(f.drop_last()) + seq![' '] + f.last()
    }
}

/// A single field is its own only field.
pub proof fn lemma_fields_of_field(w: Seq<char>)
    requires
        is_field(w),
    ensures
        fields(w) == seq![w],
    decreases w.len(),
{
    if w.len() == 1 {
        assert(w.drop_last() =~= Seq::<char>::empty());
        assert(!spec_is_white_space(w[0]));
        assert(seq![w.last()] =~= w);
        assert(fields(w.drop_last()) =~= Seq::<Seq<char>>::empty());
        assert(Seq::<Seq<char>>::empty().push(seq![w.last()]) =~= seq![w]);
        assert(fields(w) == seq![w]);
    } else {
        assert(is_field(w.drop_last()));
        lemma_fields_of_field(w.drop_last());
        assert(!spec_is_white_space(w[w.len() - 1]));
        assert(!spec_is_white_space(w[w.len() - 2]));
        assert(w.drop_last().push(w.last()) =~= w);
        assert(seq![w.drop_last()].update(0, w.drop_last().push(w.last())) =~= seq![w]);
        assert(fields(w) == seq![w]);
    }
}

/// Splitting undoes joining: the fields of fields joined by spaces are those
/// fields again.
pub proof fn lemma_fields_of_joined(f: Seq<Seq<char>>)
    requires
        forall|k: int| 0 <= k < f.len() ==> is_field(#[trigger] f[k]),
    ensures
        fields(join_fields(f)) == f,
    decreases f.len(),
{
    if f.len() == 0 {
        assert(fields(join_fields(f)) =~= f);
    } else if f.len() == 1 {
        assert(is_field(f[0]));
        lemma_fields_of_field(f[0]);
        assert(seq![f[0]] =~= f);
    } else {
        let g = f.drop_last();
        assert forall|k: int| 0 <= k < g.len() implies is_field(#[trigger] g[k]) by {
            assert(g[k] == f[k]);
        }
        lemma_fields_of_joined(g);
        assert(is_field(f[f.len() - 1]));
        lemma_fields_of_field(f.last());
        lemma_fields_split(join_fields(g), ' ', f.last());
        assert(g + seq![f.last()] =~= f);
    }
}

/// `(start, end)` char positions, one pair per field, locate the fields of `s`.
pub open spec fn locates_fields(s: Seq<char>, r: Seq<(usize, usize)>) -> bool {
    &&& r.len() == fields(s).len()
    &&& forall|k: int|
        0 <= k < r.len() ==> {
            &&& (#[trigger] r[k]).0 < r[k].1 <= s.len()
            &&& s.subrange(r[k].0 as int, r[k].1 as int) == fields(s)[k]
        }
}

/// The position of each whitespace-separated field of `s`.
pub fn field_ranges(s: &Vec<char>) -> (r: Vec<(usize, usize)>)
    ensures
        locates_fields(s@, r@),
{
    let n = s.len();
    let mut r: Vec<(usize, usize)> = Vec::new();
    let mut i: usize = 0;
    while i < n
        invariant
            n == s@.len(),
            i <= n,
            r@.len() == fields(s@.take(i as int)).len(),
            forall|k: int|
                0 <= k < r@.len() ==> {
                    &&& (#[trigger] r@[k]).0 < r@[k].1 <= i
                    &&& s@.subrange(r@[k].0 as int, r@[k].1 as int) == fields(
                        s@.take(i as int),
                    )[k]
                },
            i > 0 && !spec_is_white_space(s@[i - 1]) ==> r@.len() > 0 && r@.last().1 == i,
        decreases n - i,
    {
        let ghost prev = s@.take(i as int);
        let ghost next = s@.take(i + 1);
        assert(next.drop_last() =~= prev);
        let c = s[i];
        if is_white_space(c) {
        } else if i >= 1 && !is_white_space(s[i - 1]) {
            let last = r.len() - 1;
            let (a, b) = r[last];
            proof {
                assert(next[next.len() - 2] == s@[i - 1]);
                assert(s@.subrange(a as int, i + 1) =~= s@.subrange(a as int, b as int).push(c));
            }
            r.set(last, (a, i + 1));
        } else {
            proof {
                if i >= 1 {
                    assert(next[next.len() - 2] == s@[i - 1]);
                }
                assert(s@.subrange(i as int, i + 1) =~= seq![c]);
            }
            r.push((i, i + 1));
        }
        i = i + 1;
    }
    assert(s@.take(n as int) =~= s@);
    r
}

} // verus!
