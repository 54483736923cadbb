//! JSON string-literal handling: escaping text into a quoted JSON string, and
//! decoding a JSON string literal back into text. The platform payloads are
//! assembled from these pieces, and the remote signer's double-encoded results
//! are unwrapped with the decoder.

use vstd::prelude::*;
use vstd::string::*;
use vstd::std_specs::iter::IteratorSpec;
use crate::strutil::{hex_digit_lower, push_char};

verus! {

broadcast use vstd::string::group_string_axioms;

/// The escape sequence for one character inside a JSON string literal, as
/// common JSON serializers emit it: the two-character escapes for quote,
/// backslash and the named control characters, `\u00..` for the other control
/// characters, and the character itself otherwise.
pub open spec fn json_escape_char(c: char) -> Seq<char> {
    if c == '"' {
        seq!['\\', '"']
    } else if c == '\\' {
        seq!['\\', '\\']
    } else if c == '\u{8}' {
        seq!['\\', 'b']
    } else if c == '\u{c}' {
        seq!['\\', 'f']
    } else if c == '\n' {
        seq!['\\', 'n']
    } else if c == '\r' {
        seq!['\\', 'r']
    } else if c == '\t' {
        seq!['\\', 't']
    } else if (c as u32) < 0x20 {
        seq!['\\', 'u', '0', '0', hex_digit_lower((c as u32) as int / 16), hex_digit_lower(
            (c as u32) as int % 16,
        )]
    } else {
        seq![c]
    }
}

/// The body of the JSON string literal for a text.
pub open spec fn json_escaped(s: Seq<char>) -> Seq<char>
    decreases s.len(),
{
    if s.len() == 0 {
        Seq::empty()
    } else {
        json_escaped(s.drop_last()) + json_escape_char(s.last())
    }
}

/// The whole JSON string literal for a text, quotes included.
pub open spec fn json_quoted(s: Seq<char>) -> Seq<char> {
    seq!['"'] + json_escaped(s) + seq!['"']
}

/// The characters of a string slice, in order.
pub fn chars_of(s: &str) -> (r: Vec<char>)
    ensures
        r@ == s@,
{
    broadcast use vstd::string::next_postcondition, vstd::string::axiom_spec_iter;

    let mut it = s.chars();
    let mut r: Vec<char> = Vec::new();
    loop
        invariant
            it.obeys_prophetic_iter_laws(),
            r@.len() <= s@.len(),
            r@ + it.remaining() =~= s@,
        ensures
            r@.len() == s@.len(),
            r@ + it.remaining() =~= s@,
        decreases s@.len() - r@.len(),
    {
        match it.next() {
            Some(c) => {
                r.push(c);
            },
            None => {
                proof {
                    assert(it.remaining().len() == 0);
                }
                break ;
            },
        }
    }
    proof {
        assert(r@ =~= s@);
    }
    r
}

fn push_escaped_char(out: &mut String, c: char)
    ensures
        final(out)@ == old(out)@ + json_escape_char(c),
{
    if c == '"' {
        push_char(out, '\\');
        push_char(out, '"');
    } else if c == '\\' {
        push_char(out, '\\');
        push_char(out, '\\');
    } else if c == '\u{8}' {
        push_char(out, '\\');
        push_char(out, 'b');
    } else if c == '\u{c}' {
        push_char(out, '\\');
        push_char(out, 'f');
    } else if c == '\n' {
        push_char(out, '\\');
        push_char(out, 'n');
    } else if c == '\r' {
        push_char(out, '\\');
        push_char(out, 'r');
    } else if c == '\t' {
        push_char(out, '\\');
        push_char(out, 't');
    } else {
        let u: u32 = c as u32;
        if u < 0x20 {
            push_char(out, '\\');
            push_char(out, 'u');
            push_char(out, '0');
            push_char(out, '0');
            let hi: u32 = u / 16;
            let lo: u32 = u % 16;
            push_char(out, crate::strutil::hex_digit_lower_exec((hi as u8)));
            push_char(out, crate::strutil::hex_digit_lower_exec((lo as u8)));
        } else {
            push_char(out, c);
        }
    }
    proof {
        assert(final(out)@ =~= old(out)@ + json_escape_char(c));
    }
}

/// Appends the JSON string literal for `s`, quotes included.
pub fn push_json_string(out: &mut String, s: &str)
    ensures
        final(out)@ == old(out)@ + json_quoted(s@),
{
    let cs = chars_of(s);
    push_char(out, '"');
    let mut i: usize = 0;
    proof {
        assert(out@ =~= old(out)@ + seq!['"'] + json_escaped(s@.take(0)));
    }
    while i < cs.len()
        invariant
            i <= cs@.len(),
            cs@ == s@,
            out@ == old(out)@ + seq!['"'] + json_escaped(s@.take(i as int)),
        decreases cs@.len() - i,
    {
        push_escaped_char(out, cs[i]);
        proof {
            assert(s@.take(i + 1).drop_last() =~= s@.take(i as int));
            assert(s@.take(i + 1).last() == s@[i as int]);
            assert(out@ =~= old(out)@ + seq!['"'] + json_escaped(s@.take(i + 1)));
        }
        i = i + 1;
    }
    push_char(out, '"');
    proof {
        assert(s@.take(s@.len() as int) =~= s@);
        assert(final(out)@ =~= old(out)@ + json_quoted(s@));
    }
}

/// The JSON string literal for `s` on its own.
pub fn json_string(s: &str) -> (r: String)
    ensures
        r@ == json_quoted(s@),
{
    let mut out = String::new();
    push_json_string(&mut out, s);
    proof {
        assert(out@ =~= json_quoted(s@));
    }
    out
}

/// The identifiers joined as a JSON array body, `"a","b"`.
pub open spec fn quoted_list(items: Seq<Seq<char>>) -> Seq<char>
    decreases items.len(),
{
    if items.len() == 0 {
        Seq::empty()
    } else if items.len() == 1 {
        json_quoted(items[0])
    } else {
        quoted_list(items.drop_last()) + seq![','] + json_quoted(items.last())
    }
}

/// The value of one hexadecimal digit, if the character is one.
pub open spec fn hex_val(c: char) -> Option<int> {
    let u = c as u32;
    if 0x30 <= u && u <= 0x39 {
        Some((u - 0x30) as int)
    } else if 0x41 <= u && u <= 0x46 {
        Some((u - 0x41 + 10) as int)
    } else if 0x61 <= u && u <= 0x66 {
        Some((u - 0x61 + 10) as int)
    } else {
        None
    }
}

fn hex_val_exec(c: char) -> (r: Option<u32>)
    ensures
        r is Some <==> hex_val(c) is Some,
        r is Some ==> r->0 as int == hex_val(c)->0 && r->0 < 16,
{
    let u: u32 = c as u32;
    if 0x30 <= u && u <= 0x39 {
        Some(u - 0x30)
    } else if 0x41 <= u && u <= 0x46 {
        Some(u - 0x41 + 10)
    } else if 0x61 <= u && u <= 0x66 {
        Some(u - 0x61 + 10)
    } else {
        None
    }
}

/// The value of four hexadecimal digits at the front of `s`.
pub open spec fn hex4_val(s: Seq<char>) -> Option<int>
    recommends
        s.len() >= 4,
{
    if hex_val(s[0]) is Some && hex_val(s[1]) is Some && hex_val(s[2]) is Some && hex_val(s[3])
        is Some {
        Some(
            hex_val(s[0])->0 * 0x1000 + hex_val(s[1])->0 * 0x100 + hex_val(s[2])->0 * 0x10
                + hex_val(s[3])->0,
        )
    } else {
        None
    }
}

/// Decoding of the body of a JSON string literal: `None` where the body is not
/// valid JSON (a raw quote, a raw control character, a bad escape, or a lone
/// surrogate), otherwise the decoded text.
pub open spec fn unescape(s: Seq<char>) -> Option<Seq<char>>
    decreases s.len(),
{
    if s.len() == 0 {
        Some(Seq::empty())
    } else if s[0] == '\\' {
        if s.len() < 2 {
            None
        } else {
            let e = s[1];
            if e == '"' || e == '\\' || e == '/' {
                cons_unescaped(e, unescape(s.skip(2)))
            } else if e == 'b' {
                cons_unescaped('\u{8}', unescape(s.skip(2)))
            } else if e == 'f' {
                cons_unescaped('\u{c}', unescape(s.skip(2)))
            } else if e == 'n' {
                cons_unescaped('\n', unescape(s.skip(2)))
            } else if e == 'r' {
                cons_unescaped('\r', unescape(s.skip(2)))
            } else if e == 't' {
                cons_unescaped('\t', unescape(s.skip(2)))
            } else if e == 'u' {
                if s.len() < 6 || hex4_val(s.skip(2)) is None {
                    None
                } else {
                    let code = hex4_val(s.skip(2))->0;
                    if 0xD800 <= code && code < 0xDC00 {
                        if s.len() < 12 || s[6] != '\\' || s[7] != 'u' || hex4_val(s.skip(8))
                            is None {
                            None
                        } else {
                            let lo = hex4_val(s.skip(8))->0;
                            if 0xDC00 <= lo && lo < 0xE000 {
                                cons_unescaped(
                                    ((0x10000 + (code - 0xD800) * 0x400 + (lo - 0xDC00)) as u32)
                                        as char,
                                    unescape(s.skip(12)),
                                )
                            } else {
                                None
                            }
                        }
                    } else if 0xDC00 <= code && code < 0xE000 {
                        None
                    } else {
                        cons_unescaped((code as u32) as char, unescape(s.skip(6)))
                    }
                }
            } else {
                None
            }
        }
    } else if s[0] == '"' || (s[0] as u32) < 0x20 {
        None
    } else {
        cons_unescaped(s[0], unescape(s.skip(1)))
    }
}

/// One decoded character in front of the decoding of the rest.
pub open spec fn cons_unescaped(c: char, rest: Option<Seq<char>>) -> Option<Seq<char>> {
    match rest {
        Some(t) => Some(seq![c] + t),
        None => None,
    }
}

/// Decoding of a whole JSON string literal, quotes included: the text it
/// denotes, or `None` where it is not one.
pub open spec fn json_unquoted(s: Seq<char>) -> Option<Seq<char>> {
    if s.len() >= 2 && s[0] == '"' && s.last() == '"' {
        unescape(s.subrange(1, s.len() - 1))
    } else {
        None
    }
}

/// `o` with the text `p` put in front, where `o` decoded at all.
pub open spec fn opt_prepend(p: Seq<char>, o: Option<Seq<char>>) -> Option<Seq<char>> {
    match o {
        Some(t) => Some(p + t),
        None => None,
    }
}

proof fn lemma_control_char_code(c: char)
    requires
        (c as u32) < 0x20,
    ensures
        (c as u32) as int == c as int,
        ((((c as u32) as int / 16) * 16 + ((c as u32) as int % 16)) as u32) as char == c,
        0 <= (c as u32) as int / 16 < 16,
        0 <= (c as u32) as int % 16 < 16,
{
    assert((c as u32) as int == c as int);
    let v = (c as u32) as int;
    assert(v / 16 * 16 + v % 16 == v);
    assert(((c as int) as u32) as char == c);
}

proof fn lemma_hex_val_digit(d: int)
    requires
        0 <= d < 16,
    ensures
        hex_val(hex_digit_lower(d)) == Some(d),
{
}

proof fn lemma_escaped_front(s: Seq<char>)
    requires
        s.len() > 0,
    ensures
        json_escaped(s) == json_escape_char(s[0]) + json_escaped(s.drop_first()),
    decreases s.len(),
{
    if s.len() == 1 {
        assert(s.drop_last() =~= Seq::<char>::empty());
        assert(s.drop_first() =~= Seq::<char>::empty());
        assert(json_escaped(s) =~= json_escape_char(s[0]) + json_escaped(s.drop_first()));
    } else {
        lemma_escaped_front(s.drop_last());
        assert(s.drop_last()[0] == s[0]);
        assert(s.drop_last().drop_first() =~= s.drop_first().drop_last());
        assert(s.drop_first().last() == s.last());
        assert(json_escaped(s) =~= json_escape_char(s[0]) + json_escaped(s.drop_first()));
    }
}

proof fn lemma_unescape_escaped(s: Seq<char>)
    ensures
        unescape(json_escaped(s)) == Some(s),
    decreases s.len(),
{
    if s.len() == 0 {
        assert(json_escaped(s).len() == 0);
        assert(s =~= Seq::<char>::empty());
    } else {
        lemma_escaped_front(s);
        lemma_unescape_escaped(s.drop_first());
        let c = s[0];
        let e = json_escape_char(c);
        let rest = json_escaped(s.drop_first());
        let t = e + rest;
        assert(unescape(t) == Some(s)) by {
            if e.len() == 1 {
                // A plain character: neither a quote, a backslash, nor a
                // control character.
                assert(t[0] == c);
                assert(t.skip(1) =~= rest);
                assert(seq![c] + s.drop_first() =~= s);
            } else if e.len() == 2 {
                assert(t[0] == '\\');
                assert(t[1] == e[1]);
                assert(t.len() >= 2);
                assert(t.skip(2) =~= rest);
                assert(seq![c] + s.drop_first() =~= s);
            } else {
                // The six-character `\u00..` escape of a control character
                // without a shorter form.
                assert(e.len() == 6);
                assert((c as u32) < 0x20);
                let hi = (c as u32) as int / 16;
                let lo = (c as u32) as int % 16;
                lemma_control_char_code(c);
                assert(t[0] == '\\' && t[1] == 'u' && t[2] == '0' && t[3] == '0');
                assert(t[4] == hex_digit_lower(hi) && t[5] == hex_digit_lower(lo));
                assert(t.len() >= 6);
                assert(t.skip(2)[0] == '0' && t.skip(2)[1] == '0' && t.skip(2)[2] == t[4] && t.skip(
                    2,
                )[3] == t[5]);
                lemma_hex_val_digit(hi);
                lemma_hex_val_digit(lo);
                assert(hex_val('0') == Some(0int));
                assert(hex4_val(t.skip(2)) == Some(hi * 16 + lo));
                assert(hi * 16 + lo < 0xD800);
                assert(t.skip(6) =~= rest);
                assert(((hi * 16 + lo) as u32) as char == c);
                assert(seq![c] + s.drop_first() =~= s);
            }
        }
    }
}

/// Decoding a built JSON string literal gives the original text back: the
/// escaping and the decoder agree on every text.
pub proof fn lemma_json_string_round_trip(s: Seq<char>)
    ensures
        json_unquoted(json_quoted(s)) == Some(s),
{
    let q = json_quoted(s);
    assert(q.len() >= 2);
    assert(q[0] == '"');
    assert(q.last() == '"');
    assert(q.subrange(1, q.len() - 1) =~= json_escaped(s));
    lemma_unescape_escaped(s);
}

/// Relies on char::from_u32 from std: `Some` exactly on the scalar values,
/// that is below the surrogate range or between it and the last code point.
#[verifier::external_body]
fn char_from_u32(u: u32) -> (r: Option<char>)
    ensures
        r is Some <==> (u < 0xD800 || (0xE000 <= u && u <= 0x10FFFF)),
        r is Some ==> r->0 == u as char,
{
    char::from_u32(u)
}

fn hex4_at(v: &Vec<char>, i: usize) -> (r: Option<u32>)
    requires
        i + 4 <= v@.len(),
    ensures
        r is Some <==> hex4_val(v@.skip(i as int)) is Some,
        r is Some ==> r->0 as int == hex4_val(v@.skip(i as int))->0 && r->0 < 0x10000,
{
    let l = v.len();
    proof {
        assert(l == v@.len());
        assert(v@.skip(i as int)[0] == v@[i as int]);
        assert(v@.skip(i as int)[1] == v@[i + 1]);
        assert(v@.skip(i as int)[2] == v@[i + 2]);
        assert(v@.skip(i as int)[3] == v@[i + 3]);
    }
    let h0 = hex_val_exec(v[i]);
    let h1 = hex_val_exec(v[i + 1]);
    let h2 = hex_val_exec(v[i + 2]);
    let h3 = hex_val_exec(v[i + 3]);
    match (h0, h1, h2, h3) {
        (Some(a), Some(b), Some(c), Some(d)) => Some(a * 0x1000 + b * 0x100 + c * 0x10 + d),
        _ => None,
    }
}

/// Decodes a JSON string literal, quotes included: the text it denotes, or
/// `None` where it is not one, as `json_unquoted` lays it down.
#[verifier::rlimit(30)]
pub fn json_unquote(s: &str) -> (r: Option<String>)
    ensures
        r is Some ==> json_unquoted(s@) == Some(r->0@),
        r is None ==> json_unquoted(s@) is None,
{
    let v = chars_of(s);
    let n = v.len();
    if n < 2 {
        return None;
    }
    if v[0] != '"' || v[n - 1] != '"' {
        return None;
    }
    let ghost inner = s@.subrange(1, s@.len() - 1);
    let mut out = String::new();
    let mut i: usize = 1;
    proof {
        assert(inner.skip(0) =~= inner);
        if unescape(inner) is Some {
            assert(Seq::<char>::empty() + unescape(inner)->0 =~= unescape(inner)->0);
        }
        assert(unescape(inner) == opt_prepend(out@, unescape(inner.skip(i - 1))));
    }
    while i < n - 1
        invariant
            2 <= n,
            n == v@.len(),
            v@ == s@,
            1 <= i <= n - 1,
            inner == s@.subrange(1, s@.len() - 1),
            unescape(inner) == opt_prepend(out@, unescape(inner.skip(i - 1))),
        decreases n - i,
    {
        let ghost j = i - 1;
        let ghost rem = inner.skip(j);
        proof {
            assert(rem.len() == n - 1 - i);
            assert forall|k: int| 0 <= k < rem.len() implies rem[k] == v@[i + k] by {
                assert(rem[k] == inner[j + k]);
                assert(inner[j + k] == s@[1 + j + k]);
            }
        }
        let c = v[i];
        let decoded: char;
        let consumed: usize;
        if c == '\\' {
            if n - 1 - i < 2 {
                proof {
                    assert(rem.len() < 2);
                    assert(unescape(rem) is None);
                }
                return None;
            }
            let e = v[i + 1];
            if e == '"' || e == '\\' || e == '/' {
                decoded = e;
                consumed = 2;
            } else if e == 'b' {
                decoded = '\u{8}';
                consumed = 2;
            } else if e == 'f' {
                decoded = '\u{c}';
                consumed = 2;
            } else if e == 'n' {
                decoded = '\n';
                consumed = 2;
            } else if e == 'r' {
                decoded = '\r';
                consumed = 2;
            } else if e == 't' {
                decoded = '\t';
                consumed = 2;
            } else if e == 'u' {
                if n - 1 - i < 6 {
                    proof {
                        assert(rem.len() < 6);
                        assert(unescape(rem) is None);
                    }
                    return None;
                }
                proof {
                    assert(rem.skip(2) =~= v@.skip(i + 2).take(rem.len() - 2));
                    assert forall|k: int| 0 <= k < 4 implies v@.skip(i + 2)[k] == rem.skip(2)[k] by {
                        assert(v@.skip(i + 2)[k] == v@[i + 2 + k]);
                    }
                    if hex4_val(v@.skip(i + 2)) is Some || hex4_val(rem.skip(2)) is Some {
                        assert(hex4_val(v@.skip(i + 2)) == hex4_val(rem.skip(2)));
                    }
                }
                let code = match hex4_at(&v, i + 2) {
                    Some(u) => u,
                    None => {
                        proof {
                            assert(unescape(rem) is None);
                        }
                        return None;
                    },
                };
                if 0xD800 <= code && code < 0xDC00 {
                    if n - 1 - i < 12 || v[i + 6] != '\\' || v[i + 7] != 'u' {
                        proof {
                            assert(rem.len() < 12 || rem[6] != '\\' || rem[7] != 'u');
                            assert(unescape(rem) is None);
                        }
                        return None;
                    }
                    proof {
                        assert forall|k: int| 0 <= k < 4 implies v@.skip(i + 8)[k] == rem.skip(
                            8,
                        )[k] by {
                            assert(v@.skip(i + 8)[k] == v@[i + 8 + k]);
                            assert(rem.skip(8)[k] == rem[8 + k]);
                        }
                        if hex4_val(v@.skip(i + 8)) is Some || hex4_val(rem.skip(8)) is Some {
                            assert(hex4_val(v@.skip(i + 8)) == hex4_val(rem.skip(8)));
                        }
                    }
                    let lo = match hex4_at(&v, i + 8) {
                        Some(u) => u,
                        None => {
                            proof {
                                assert(unescape(rem) is None);
                            }
                            return None;
                        },
                    };
                    if !(0xDC00 <= lo && lo < 0xE000) {
                        proof {
                            assert(unescape(rem) is None);
                        }
                        return None;
                    }
                    let combined: u32 = 0x10000 + (code - 0xD800) * 0x400 + (lo - 0xDC00);
                    decoded = match char_from_u32(combined) {
                        Some(ch) => ch,
                        None => {
                            proof {
                                assert(false);
                            }
                            return None;
                        },
                    };
                    consumed = 12;
                } else if 0xDC00 <= code && code < 0xE000 {
                    proof {
                        assert(unescape(rem) is None);
                    }
                    return None;
                } else {
                    decoded = match char_from_u32(code) {
                        Some(ch) => ch,
                        None => {
                            proof {
                                assert(false);
                            }
                            return None;
                        },
                    };
                    consumed = 6;
                }
            } else {
                proof {
                    assert(unescape(rem) is None);
                }
                return None;
            }
        } else if c == '"' {
            proof {
                assert(unescape(rem) is None);
            }
            return None;
        } else {
            let u: u32 = c as u32;
            if u < 0x20 {
                proof {
                    assert(unescape(rem) is None);
                }
                return None;
            }
            decoded = c;
            consumed = 1;
        }
        proof {
            assert(rem.skip(consumed as int) =~= inner.skip(j + consumed));
            assert(unescape(rem) == cons_unescaped(decoded, unescape(inner.skip(j + consumed))));
        }
        let ghost out_pre = out@;
        push_char(&mut out, decoded);
        proof {
            if unescape(inner.skip(j + consumed)) is Some {
                let t = unescape(inner.skip(j + consumed))->0;
                assert(out_pre + (seq![decoded] + t) =~= out@ + t);
            }
            assert(unescape(inner) == opt_prepend(out@, unescape(inner.skip(i + consumed - 1))));
        }
        i = i + consumed;
    }
    proof {
        assert(inner.skip(i - 1).len() == 0);
        assert(unescape(inner.skip(i - 1)) == Some(Seq::<char>::empty()));
        assert(out@ + Seq::<char>::empty() =~= out@);
        assert(json_unquoted(s@) == Some(out@));
    }
    Some(out)
}

} // verus!
