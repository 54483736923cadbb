//! Character-level string helpers shared by the signing and payload builders:
//! decimal and hexadecimal rendering, ASCII lexicographic comparison,
//! insertion into a sorted sequence of key/value pairs, and trailing-slash
//! trimming for instance URLs.

use vstd::prelude::*;
use vstd::string::*;

verus! {

broadcast use vstd::string::group_string_axioms;

/// Relies on String::push from std: appends exactly one character.
#[verifier::external_body]
pub(crate) fn push_char(s: &mut String, c: char)
    ensures
        final(s)@ == old(s)@.push(c),
{
    s.push(c);
}

/// The character for one decimal digit.
pub open spec fn dec_digit(d: int) -> char
    recommends
        0 <= d < 10,
{
    ((d + 0x30) as u8) as char
}

/// Decimal rendering of a non-negative integer, most significant digit first.
pub open spec fn dec_chars(n: int) -> Seq<char>
    recommends
        n >= 0,
    decreases n,
{
    if n < 10 {
        seq![dec_digit(n)]
    } else {
        dec_chars(n / 10).push(dec_digit(n % 10))
    }
}

fn push_dec(s: &mut String, n: u64)
    ensures
        final(s)@ == old(s)@ + dec_chars(n as int),
    decreases n,
{
    if n >= 10 {
        push_dec(s, n / 10);
    }
    let d: u8 = (n % 10) as u8;
    push_char(s, (0x30 + d) as char);
    proof {
        if n < 10 {
            assert(final(s)@ =~= old(s)@ + dec_chars(n as int));
        } else {
            assert(final(s)@ =~= old(s)@ + dec_chars(n as int));
        }
    }
}

/// Decimal rendering of a `u64`, as `u64::to_string` would give it.
pub fn u64_to_dec(n: u64) -> (r: String)
    ensures
        r@ == dec_chars(n as int),
{
    let mut s = String::new();
    push_dec(&mut s, n);
    proof {
        assert(s@ =~= dec_chars(n as int));
    }
    s
}

/// The character for one hexadecimal digit, upper case.
pub open spec fn hex_digit_upper(d: int) -> char
    recommends
        0 <= d < 16,
{
    if d < 10 {
        ((d + 0x30) as u8) as char
    } else {
        ((d - 10 + 0x41) as u8) as char
    }
}

/// The character for one hexadecimal digit, lower case.
pub open spec fn hex_digit_lower(d: int) -> char
    recommends
        0 <= d < 16,
{
    if d < 10 {
        ((d + 0x30) as u8) as char
    } else {
        ((d - 10 + 0x61) as u8) as char
    }
}

/// Two lower-case hexadecimal digits for each byte, most significant first.
pub open spec fn hex_lower_chars(s: Seq<u8>) -> Seq<char>
    decreases s.len(),
{
    if s.len() == 0 {
        Seq::empty()
    } else {
        hex_lower_chars(s.drop_last()) + seq![
            hex_digit_lower(s.last() as int / 16),
            hex_digit_lower(s.last() as int % 16),
        ]
    }
}

pub(crate) fn hex_digit_lower_exec(d: u8) -> (r: char)
    requires
        d < 16,
    ensures
        r == hex_digit_lower(d as int),
{
    if d < 10 {
        (0x30 + d) as char
    } else {
        (0x57 + d) as char
    }
}

pub(crate) fn hex_digit_upper_exec(d: u8) -> (r: char)
    requires
        d < 16,
    ensures
        r == hex_digit_upper(d as int),
{
    if d < 10 {
        (0x30 + d) as char
    } else {
        (0x37 + d) as char
    }
}

/// Lower-case hexadecimal rendering of a byte string, as `{:x}` formatting
/// gives it.
pub fn hex_lower(bytes: &[u8]) -> (r: String)
    ensures
        r@ == hex_lower_chars(bytes@),
{
    let mut s = String::new();
    let mut i: usize = 0;
    proof {
        assert(s@ =~= hex_lower_chars(bytes@.take(0)));
    }
    while i < bytes.len()
        invariant
            i <= bytes@.len(),
            s@ == hex_lower_chars(bytes@.take(i as int)),
        decreases bytes@.len() - i,
    {
        let b = bytes[i];
        push_char(&mut s, hex_digit_lower_exec(b / 16));
        push_char(&mut s, hex_digit_lower_exec(b % 16));
        proof {
            assert(bytes@.take(i + 1).drop_last() =~= bytes@.take(i as int));
            assert(bytes@.take(i + 1).last() == bytes@[i as int]);
            assert(s@ =~= hex_lower_chars(bytes@.take(i + 1)));
        }
        i = i + 1;
    }
    proof {
        assert(bytes@.take(bytes@.len() as int) =~= bytes@);
    }
    s
}

/// Lexicographic order on character sequences by scalar value; byte order on
/// ASCII text.
pub open spec fn lex_le(a: Seq<char>, b: Seq<char>) -> bool
    decreases a.len(),
{
    if a.len() == 0 {
        true
    } else if b.len() == 0 {
        false
    } else if a[0] != b[0] {
        (a[0] as u32) < (b[0] as u32)
    } else {
        lex_le(a.drop_first(), b.drop_first())
    }
}

proof fn lemma_lex_le_step(a: Seq<char>, b: Seq<char>, i: int)
    requires
        0 <= i < a.len(),
        0 <= i < b.len(),
        a[i] == b[i],
    ensures
        lex_le(a.skip(i), b.skip(i)) == lex_le(a.skip(i + 1), b.skip(i + 1)),
{
    assert(a.skip(i).drop_first() =~= a.skip(i + 1));
    assert(b.skip(i).drop_first() =~= b.skip(i + 1));
}

/// Decides `lex_le` on ASCII strings.
pub fn str_lex_le(a: &str, b: &str) -> (r: bool)
    requires
        a.is_ascii(),
        b.is_ascii(),
    ensures
        r == lex_le(a@, b@),
{
    broadcast use vstd::string::is_ascii_spec_bytes;

    let alen = a.unicode_len();
    let blen = b.unicode_len();
    let mut i: usize = 0;
    proof {
        assert(a@.skip(0) =~= a@);
        assert(b@.skip(0) =~= b@);
    }
    while i < alen && i < blen
        invariant
            a.is_ascii(),
            b.is_ascii(),
            alen == a@.len(),
            blen == b@.len(),
            i <= alen,
            i <= blen,
            lex_le(a@, b@) == lex_le(a@.skip(i as int), b@.skip(i as int)),
        decreases alen - i,
    {
        let ca = a.get_ascii(i);
        let cb = b.get_ascii(i);
        if ca != cb {
            proof {
                assert(a@.skip(i as int)[0] == a@[i as int]);
                assert(b@.skip(i as int)[0] == b@[i as int]);
                assert((a@[i as int] as u32) < 128 && (b@[i as int] as u32) < 128) by {
                    assert(vstd::utf8::is_ascii_chars(a@));
                    assert(vstd::utf8::is_ascii_chars(b@));
                }
            }
            return ca < cb;
        }
        proof {
            assert(a@[i as int] as u8 == ca && b@[i as int] as u8 == cb);
            assert(a@[i as int] == b@[i as int]) by {
                assert(vstd::utf8::is_ascii_chars(a@));
                assert(vstd::utf8::is_ascii_chars(b@));
            }
            lemma_lex_le_step(a@, b@, i as int);
        }
        i = i + 1;
    }
    proof {
        if i >= alen {
            assert(a@.skip(i as int).len() == 0);
        } else {
            assert(b@.skip(i as int).len() == 0);
            assert(a@.skip(i as int).len() > 0);
        }
    }
    i >= alen
}

/// A clone of a string vector, equal at the view level.
pub fn clone_string_vec(v: &Vec<String>) -> (r: Vec<String>)
    ensures
        r@ == v@,
{
    let r = v.clone();
    proof {
        assert forall|i: int| 0 <= i < v@.len() implies r@[i] == v@[i] by {
            assert(vstd::pervasive::cloned(v@[i], r@[i]));
        }
        assert(r@ =~= v@);
    }
    r
}

/// The text with every trailing `/` removed.
pub open spec fn trim_trailing_slashes(s: Seq<char>) -> Seq<char>
    decreases s.len(),
{
    if s.len() > 0 && s.last() == '/' {
        trim_trailing_slashes(s.drop_last())
    } else {
        s
    }
}

/// The text with trailing slashes removed, as an owned string.
pub fn trim_slashes(s: &str) -> (r: String)
    ensures
        r@ == trim_trailing_slashes(s@),
{
    let cs = crate::jsonx::chars_of(s);
    let mut end = cs.len();
    proof {
        assert(s@.take(end as int) =~= s@);
    }
    while end > 0 && cs[end - 1] == '/'
        invariant
            end <= cs@.len(),
            cs@ == s@,
            trim_trailing_slashes(s@) == trim_trailing_slashes(s@.take(end as int)),
        decreases end,
    {
        proof {
            assert(s@.take(end as int).last() == s@[end - 1]);
            assert(s@.take(end as int).drop_last() =~= s@.take(end - 1));
        }
        end = end - 1;
    }
    let mut out = String::new();
    let mut i: usize = 0;
    proof {
        assert(out@ =~= s@.take(0));
    }
    while i < end
        invariant
            i <= end <= cs@.len(),
            cs@ == s@,
            out@ == s@.take(i as int),
        decreases end - i,
    {
        push_char(&mut out, cs[i]);
        proof {
            assert(out@ =~= s@.take(i + 1));
        }
        i = i + 1;
    }
    proof {
        if end < s@.len() {
            assert(s@.take(end as int).last() != '/' || s@.take(end as int).len() == 0);
        } else {
            assert(s@.take(end as int) =~= s@);
        }
    }
    out
}

/// View of a string list as character sequences.
pub open spec fn strs_view(v: Seq<String>) -> Seq<Seq<char>> {
    v.map_values(|s: String| s@)
}

/// View of a key/value pair list as character sequences.
pub open spec fn pairs_view(v: Seq<(String, String)>) -> Seq<(Seq<char>, Seq<char>)> {
    v.map_values(|p: (String, String)| (p.0@, p.1@))
}

/// Every key and value in the list is ASCII.
pub open spec fn ascii_pairs(v: Seq<(String, String)>) -> bool {
    forall|i: int|
        0 <= i < v.len() ==> vstd::utf8::is_ascii_chars(#[trigger] v[i].0@)
            && vstd::utf8::is_ascii_chars(v[i].1@)
}

/// Order on key/value pairs: by key, ties broken by value.
pub open spec fn pair_le(a: (Seq<char>, Seq<char>), b: (Seq<char>, Seq<char>)) -> bool {
    if a.0 == b.0 {
        lex_le(a.1, b.1)
    } else {
        lex_le(a.0, b.0)
    }
}

/// The pair `x` placed before the first element of `s` that is not below it.
pub open spec fn insert_pair(s: Seq<(Seq<char>, Seq<char>)>, x: (Seq<char>, Seq<char>)) -> Seq<
    (Seq<char>, Seq<char>),
>
    decreases s.len(),
{
    if s.len() == 0 {
        seq![x]
    } else if pair_le(x, s[0]) {
        seq![x] + s
    } else {
        seq![s[0]] + insert_pair(s.drop_first(), x)
    }
}

/// Insertion sort of key/value pairs, left to right.
pub open spec fn sort_pairs(s: Seq<(Seq<char>, Seq<char>)>) -> Seq<(Seq<char>, Seq<char>)>
    decreases s.len(),
{
    if s.len() == 0 {
        Seq::empty()
    } else {
        insert_pair(sort_pairs(s.drop_last()), s.last())
    }
}

fn pair_le_exec(a: &(String, String), b: &(String, String)) -> (r: bool)
    requires
        vstd::utf8::is_ascii_chars(a.0@),
        vstd::utf8::is_ascii_chars(a.1@),
        vstd::utf8::is_ascii_chars(b.0@),
        vstd::utf8::is_ascii_chars(b.1@),
    ensures
        r == pair_le((a.0@, a.1@), (b.0@, b.1@)),
{
    if a.0 == b.0 {
        str_lex_le(a.1.as_str(), b.1.as_str())
    } else {
        str_lex_le(a.0.as_str(), b.0.as_str())
    }
}

proof fn lemma_insert_pair_at(s: Seq<(Seq<char>, Seq<char>)>, x: (Seq<char>, Seq<char>), i: int)
    requires
        0 <= i <= s.len(),
        forall|j: int| 0 <= j < i ==> !pair_le(x, #[trigger] s[j]),
        i < s.len() ==> pair_le(x, s[i]),
    ensures
        insert_pair(s, x) =~= s.take(i) + seq![x] + s.skip(i),
    decreases i,
{
    if i == 0 {
        if s.len() == 0 {
            assert(insert_pair(s, x) =~= s.take(0) + seq![x] + s.skip(0));
        } else {
            assert(insert_pair(s, x) =~= s.take(0) + seq![x] + s.skip(0));
        }
    } else {
        assert(!pair_le(x, s[0]));
        lemma_insert_pair_at(s.drop_first(), x, i - 1);
        assert(s.drop_first().take(i - 1) =~= s.take(i).drop_first());
        assert(s.drop_first().skip(i - 1) =~= s.skip(i));
        assert(insert_pair(s, x) =~= seq![s[0]] + insert_pair(s.drop_first(), x));
        assert(seq![s[0]] + (s.drop_first().take(i - 1) + seq![x] + s.drop_first().skip(i - 1))
            =~= s.take(i) + seq![x] + s.skip(i));
    }
}

fn insert_sorted(v: &mut Vec<(String, String)>, x: (String, String))
    requires
        ascii_pairs(old(v)@),
        vstd::utf8::is_ascii_chars(x.0@),
        vstd::utf8::is_ascii_chars(x.1@),
    ensures
        pairs_view(final(v)@) == insert_pair(pairs_view(old(v)@), (x.0@, x.1@)),
        ascii_pairs(final(v)@),
{
    let ghost xs = pairs_view(v@);
    let ghost xp = (x.0@, x.1@);
    let mut i: usize = 0;
    while i < v.len() && !pair_le_exec(&x, &v[i])
        invariant
            i <= v@.len(),
            ascii_pairs(v@),
            vstd::utf8::is_ascii_chars(x.0@),
            vstd::utf8::is_ascii_chars(x.1@),
            xs == pairs_view(v@),
            xp == (x.0@, x.1@),
            forall|j: int| 0 <= j < i ==> !pair_le(xp, #[trigger] xs[j]),
        decreases v@.len() - i,
    {
        i = i + 1;
    }
    proof {
        lemma_insert_pair_at(xs, xp, i as int);
    }
    v.insert(i, x);
    proof {
        assert(pairs_view(v@) =~= xs.take(i as int) + seq![xp] + xs.skip(i as int));
        assert(ascii_pairs(v@));
    }
}

/// Sorts key/value pairs by key, ties broken by value, as `sort_pairs` lays
/// them out.
pub fn sort_params(v: Vec<(String, String)>) -> (r: Vec<(String, String)>)
    requires
        ascii_pairs(v@),
    ensures
        pairs_view(r@) == sort_pairs(pairs_view(v@)),
        ascii_pairs(r@),
{
    let mut r: Vec<(String, String)> = Vec::new();
    let mut i: usize = 0;
    proof {
        assert(pairs_view(r@) =~= sort_pairs(pairs_view(v@.take(0))));
    }
    let n = v.len();
    let mut src = v;
    while i < n
        invariant
            i <= n,
            n == src@.len(),
            ascii_pairs(src@),
            ascii_pairs(r@),
            pairs_view(r@) == sort_pairs(pairs_view(src@).take(i as int)),
            i < n ==> src@.len() == n,
        decreases n - i,
    {
        let x = (src[i].0.clone(), src[i].1.clone());
        proof {
            assert(x.0@ == src@[i as int].0@ && x.1@ == src@[i as int].1@);
        }
        insert_sorted(&mut r, x);
        proof {
            assert(pairs_view(src@).take(i + 1).drop_last() =~= pairs_view(src@).take(i as int));
            assert(pairs_view(src@).take(i + 1).last() == (src@[i as int].0@, src@[i as int].1@));
            assert(pairs_view(r@) =~= sort_pairs(pairs_view(src@).take(i + 1)));
        }
        i = i + 1;
    }
    proof {
        assert(pairs_view(src@).take(n as int) =~= pairs_view(src@));
    }
    r
}

} // verus!
