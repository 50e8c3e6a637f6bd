//! The config-file codec: a compact JSON encoding of the settings record,
//! written and read by verified code. The encoder emits a canonical form
//! (fixed key order, no extra whitespace, strings fully escaped); the decoder
//! accepts exactly that form — not general JSON: reordered keys, added
//! whitespace or unknown members are rejected, and the one tolerated absence
//! is the catalog member, which falls back to an empty catalog — and is
//! proved to invert the encoder on every settings record.
use vstd::prelude::*;

use crate::runners::{Proton, Runner, RunnerView, Wine};
use crate::settings::{ComponentView, GameView, InstalledGame, RuntimeComponent};

verus! {

/// The code point of a character.
pub open spec fn ch_code(c: char) -> int {
    (c as u32) as int
}

/// The lower-case hex digit for a value below 16.
pub open spec fn spec_hex_digit(n: int) -> char {
    if n == 0 {
        '0'
    } else if n == 1 {
        '1'
    } else if n == 2 {
        '2'
    } else if n == 3 {
        '3'
    } else if n == 4 {
        '4'
    } else if n == 5 {
        '5'
    } else if n == 6 {
        '6'
    } else if n == 7 {
        '7'
    } else if n == 8 {
        '8'
    } else if n == 9 {
        '9'
    } else if n == 10 {
        'a'
    } else if n == 11 {
        'b'
    } else if n == 12 {
        'c'
    } else if n == 13 {
        'd'
    } else if n == 14 {
        'e'
    } else {
        'f'
    }
}

/// The value of a hex digit, either case.
pub open spec fn spec_hex_val(c: char) -> Option<int> {
    if c == '0' {
        Some(0int)
    } else if c == '1' {
        Some(1int)
    } else if c == '2' {
        Some(2int)
    } else if c == '3' {
        Some(3int)
    } else if c == '4' {
        Some(4int)
    } else if c == '5' {
        Some(5int)
    } else if c == '6' {
        Some(6int)
    } else if c == '7' {
        Some(7int)
    } else if c == '8' {
        Some(8int)
    } else if c == '9' {
        Some(9int)
    } else if c == 'a' || c == 'A' {
        Some(10int)
    } else if c == 'b' || c == 'B' {
        Some(11int)
    } else if c == 'c' || c == 'C' {
        Some(12int)
    } else if c == 'd' || c == 'D' {
        Some(13int)
    } else if c == 'e' || c == 'E' {
        Some(14int)
    } else if c == 'f' || c == 'F' {
        Some(15int)
    } else {
        None
    }
}

/// The character a short escape `\x` stands for, if `x` is one.
pub open spec fn spec_short_escape(e: char) -> Option<char> {
    if e == '"' {
        Some('"')
    } else if e == '\\' {
        Some('\\')
    } else if e == '/' {
        Some('/')
    } else if e == 'n' {
        Some('\n')
    } else if e == 't' {
        Some('\t')
    } else if e == 'r' {
        Some('\r')
    } else if e == 'b' {
        Some('\u{8}')
    } else if e == 'f' {
        Some('\u{c}')
    } else {
        None
    }
}

/// The character with a given code point below 256.
pub open spec fn spec_char_of_code(n: int) -> char {
    ((n as u32) as char)
}

/// The escape sequence for one character inside a JSON string: quote and
/// backslash escaped, control characters as `\u00XX`, all else verbatim.
pub open spec fn spec_esc_char(c: char) -> Seq<char> {
    if c == '"' {
        seq!['\\', '"']
    } else if c == '\\' {
        seq!['\\', '\\']
    } else if ch_code(c) < 32 {
        seq![
            '\\',
            'u',
            '0',
            '0',
            spec_hex_digit(ch_code(c) / 16),
            spec_hex_digit(ch_code(c) % 16),
        ]
    } else {
        seq![c]
    }
}

/// The escaped form of a whole string.
pub open spec fn spec_esc(s: Seq<char>) -> Seq<char>
    decreases s.len(),
{
    if s.len() == 0 {
        Seq::empty()
    } else {
        spec_esc_char(s[0]) + spec_esc(s.skip(1))
    }
}

/// A JSON string token: the escaped content between double quotes.
pub open spec fn spec_emit_string(s: Seq<char>) -> Seq<char> {
    seq!['"'] + spec_esc(s) + seq!['"']
}

/// Escaping distributes over concatenation.
pub proof fn lemma_esc_concat(a: Seq<char>, b: Seq<char>)
    ensures
        spec_esc(a + b) == spec_esc(a) + spec_esc(b),
    decreases a.len(),
{
    if a.len() == 0 {
        assert(a + b =~= b);
        assert(spec_esc(a) + spec_esc(b) =~= spec_esc(b));
    } else {
        assert((a + b).skip(1) =~= a.skip(1) + b);
        assert((a + b)[0] == a[0]);
        lemma_esc_concat(a.skip(1), b);
        assert(spec_esc(a + b) =~= spec_esc(a) + spec_esc(b));
    }
}

/// The escaped form of a single character is its escape sequence.
pub proof fn lemma_esc_singleton(c: char)
    ensures
        spec_esc(seq![c]) == spec_esc_char(c),
{
    assert(seq![c].skip(1) =~= Seq::<char>::empty());
    assert(spec_esc(Seq::<char>::empty()) =~= Seq::<char>::empty());
    assert(spec_esc(seq![c]) =~= spec_esc_char(c));
}

/// Reading a JSON string body (after the opening quote): the decoded content
/// and the input remaining after the closing quote.
pub open spec fn spec_parse_string_body(t: Seq<char>) -> Option<(Seq<char>, Seq<char>)>
    decreases t.len(),
{
    if t.len() == 0 {
        None
    } else if t[0] == '"' {
        Some((Seq::empty(), t.skip(1)))
    } else if t[0] == '\\' {
        if t.len() < 2 {
            None
        } else {
            match spec_short_escape(t[1]) {
                Some(c) => match spec_parse_string_body(t.skip(2)) {
                    Some(p) => Some((seq![c] + p.0, p.1)),
                    None => None,
                },
                None => {
                    if t[1] == 'u' {
                        if t.len() < 6 || t[2] != '0' || t[3] != '0' {
                            None
                        } else {
                            match (spec_hex_val(t[4]), spec_hex_val(t[5])) {
                                (Some(h), Some(l)) => {
                                    match spec_parse_string_body(t.skip(6)) {
                                        Some(p) => Some(
                                            (seq![spec_char_of_code(16 * h + l)] + p.0, p.1),
                                        ),
                                        None => None,
                                    }
                                },
                                _ => None,
                            }
                        }
                    } else {
                        None
                    }
                },
            }
        }
    } else if ch_code(t[0]) < 32 {
        None
    } else {
        match spec_parse_string_body(t.skip(1)) {
            Some(p) => Some((seq![t[0]] + p.0, p.1)),
            None => None,
        }
    }
}

/// Reading a JSON string token, opening quote included.
pub open spec fn spec_parse_string(t: Seq<char>) -> Option<(Seq<char>, Seq<char>)> {
    if t.len() > 0 && t[0] == '"' {
        spec_parse_string_body(t.skip(1))
    } else {
        None
    }
}

proof fn lemma_hex_round_trip(n: int)
    requires
        0 <= n < 16,
    ensures
        spec_hex_val(spec_hex_digit(n)) == Some(n),
{
}

/// Decoding a string body inverts escaping, whatever follows the token.
proof fn lemma_parse_string_body_inverts(s: Seq<char>, rest: Seq<char>)
    ensures
        spec_parse_string_body(spec_esc(s) + seq!['"'] + rest) == Some((s, rest)),
    decreases s.len(),
{
    let t = spec_esc(s) + seq!['"'] + rest;
    if s.len() == 0 {
        assert(t =~= seq!['"'] + rest);
        assert(t[0] == '"');
        assert(t.skip(1) =~= rest);
        assert(s =~= Seq::<char>::empty());
    } else {
        let c = s[0];
        let s1 = s.skip(1);
        let tail = spec_esc(s1) + seq!['"'] + rest;
        lemma_parse_string_body_inverts(s1, rest);
        assert(spec_esc(s) == spec_esc_char(c) + spec_esc(s1));
        if c == '"' {
            assert(t =~= seq!['\\', '"'] + tail);
            assert(t[0] == '\\' && t[1] == '"');
            assert(t.skip(2) =~= tail);
            assert(spec_short_escape(t[1]) == Some('"'));
            assert(seq![c] + s1 =~= s);
        } else if c == '\\' {
            assert(t =~= seq!['\\', '\\'] + tail);
            assert(t[0] == '\\' && t[1] == '\\');
            assert(t.skip(2) =~= tail);
            assert(spec_short_escape(t[1]) == Some('\\'));
            assert(seq![c] + s1 =~= s);
        } else if ch_code(c) < 32 {
            let d = ch_code(c);
            let h = d / 16;
            let l = d % 16;
            assert(t =~= seq!['\\', 'u', '0', '0', spec_hex_digit(h), spec_hex_digit(l)] + tail);
            assert(t[0] == '\\' && t[1] == 'u' && t[2] == '0' && t[3] == '0');
            assert(t.len() >= 6);
            assert(spec_short_escape('u') is None);
            lemma_hex_round_trip(h);
            lemma_hex_round_trip(l);
            assert(t[4] == spec_hex_digit(h) && t[5] == spec_hex_digit(l));
            assert(16 * h + l == d);
            vstd::utf8::char_u32_cast(c, c as u32);
            assert(spec_char_of_code(d) == c);
            assert(t.skip(6) =~= tail);
            assert(seq![c] + s1 =~= s);
        } else {
            assert(t[0] == c);
            assert(t.skip(1) =~= tail);
            assert(seq![c] + s1 =~= s);
        }
    }
}

/// Decoding a string token inverts encoding, whatever follows the token.
pub proof fn lemma_parse_string_inverts(s: Seq<char>, rest: Seq<char>)
    ensures
        spec_parse_string(spec_emit_string(s) + rest) == Some((s, rest)),
{
    let t = spec_emit_string(s) + rest;
    assert(t[0] == '"');
    assert(t.skip(1) =~= spec_esc(s) + seq!['"'] + rest);
    lemma_parse_string_body_inverts(s, rest);
}

/// The characters of a string slice.
pub fn to_chars(s: &str) -> (r: Vec<char>)
    ensures
        r@ == s@,
{
    let n = s.unicode_len();
    let mut r: Vec<char> = Vec::new();
    for i in 0..n
        invariant
            n == s@.len(),
            r@ == s@.take(i as int),
    {
        r.push(s.get_char(i));
        proof {
            assert(r@ =~= s@.take(i + 1 as int));
        }
    }
    proof {
        assert(s@.take(n as int) =~= s@);
    }
    r
}

/// Relies on `core::iter::Iterator::collect` building a `String` out of
/// exactly the characters of the vector, in order.
#[verifier::external_body]
pub fn chars_to_string(v: &Vec<char>) -> (r: String)
    ensures
        r@ == v@,
{
    v.iter().collect()
}

fn hex_digit(n: u32) -> (c: char)
    requires
        n < 16,
    ensures
        c == spec_hex_digit(n as int),
{
    if n == 0 {
        '0'
    } else if n == 1 {
        '1'
    } else if n == 2 {
        '2'
    } else if n == 3 {
        '3'
    } else if n == 4 {
        '4'
    } else if n == 5 {
        '5'
    } else if n == 6 {
        '6'
    } else if n == 7 {
        '7'
    } else if n == 8 {
        '8'
    } else if n == 9 {
        '9'
    } else if n == 10 {
        'a'
    } else if n == 11 {
        'b'
    } else if n == 12 {
        'c'
    } else if n == 13 {
        'd'
    } else if n == 14 {
        'e'
    } else {
        'f'
    }
}

fn hex_val(c: char) -> (r: Option<u32>)
    ensures
        match spec_hex_val(c) {
            Some(n) => r == Some(n as u32),
            None => r is None,
        },
{
    if c == '0' {
        Some(0u32)
    } else if c == '1' {
        Some(1u32)
    } else if c == '2' {
        Some(2u32)
    } else if c == '3' {
        Some(3u32)
    } else if c == '4' {
        Some(4u32)
    } else if c == '5' {
        Some(5u32)
    } else if c == '6' {
        Some(6u32)
    } else if c == '7' {
        Some(7u32)
    } else if c == '8' {
        Some(8u32)
    } else if c == '9' {
        Some(9u32)
    } else if c == 'a' || c == 'A' {
        Some(10u32)
    } else if c == 'b' || c == 'B' {
        Some(11u32)
    } else if c == 'c' || c == 'C' {
        Some(12u32)
    } else if c == 'd' || c == 'D' {
        Some(13u32)
    } else if c == 'e' || c == 'E' {
        Some(14u32)
    } else if c == 'f' || c == 'F' {
        Some(15u32)
    } else {
        None
    }
}

fn short_escape(e: char) -> (r: Option<char>)
    ensures
        r == spec_short_escape(e),
{
    if e == '"' {
        Some('"')
    } else if e == '\\' {
        Some('\\')
    } else if e == '/' {
        Some('/')
    } else if e == 'n' {
        Some('\n')
    } else if e == 't' {
        Some('\t')
    } else if e == 'r' {
        Some('\r')
    } else if e == 'b' {
        Some('\u{8}')
    } else if e == 'f' {
        Some('\u{c}')
    } else {
        None
    }
}

/// Append the JSON string token for `s` to the output.
pub fn emit_string_into(out: &mut Vec<char>, s: &str)
    ensures
        final(out)@ == old(out)@ + spec_emit_string(s@),
{
    out.push('"');
    let n = s.unicode_len();
    for i in 0..n
        invariant
            n == s@.len(),
            out@ == old(out)@ + seq!['"'] + spec_esc(s@.take(i as int)),
    {
        let c = s.get_char(i);
        let code = c as u32;
        if c == '"' {
            out.push('\\');
            out.push('"');
        } else if c == '\\' {
            out.push('\\');
            out.push('\\');
        } else if code < 32 {
            out.push('\\');
            out.push('u');
            out.push('0');
            out.push('0');
            out.push(hex_digit(code / 16));
            out.push(hex_digit(code % 16));
        } else {
            out.push(c);
        }
        proof {
            assert(s@.take(i + 1 as int) =~= s@.take(i as int) + seq![s@[i as int]]);
            lemma_esc_concat(s@.take(i as int), seq![s@[i as int]]);
            lemma_esc_singleton(s@[i as int]);
            assert(out@ =~= old(out)@ + seq!['"'] + spec_esc(s@.take(i + 1 as int)));
        }
    }
    out.push('"');
    proof {
        assert(s@.take(n as int) =~= s@);
        assert(out@ =~= old(out)@ + spec_emit_string(s@));
    }
}

/// Read a JSON string token at position `i`; on success return the decoded
/// content and the position just after the closing quote.
pub fn parse_string_at(t: &Vec<char>, i: usize) -> (r: Option<(String, usize)>)
    requires
        i <= t@.len(),
    ensures
        match spec_parse_string(t@.skip(i as int)) {
            Some(p) => match r {
                Some(q) => q.0@ == p.0 && i <= q.1 <= t@.len() && t@.skip(q.1 as int) == p.1,
                None => false,
            },
            None => r is None,
        },
{
    if i >= t.len() || t[i] != '"' {
        return None;
    }
    proof {
        assert(t@.skip(i as int)[0] == t@[i as int]);
        assert(t@.skip(i as int).skip(1) =~= t@.skip(i + 1 as int));
    }
    parse_string_body_at(t, i + 1)
}

fn parse_string_body_at(t: &Vec<char>, i: usize) -> (r: Option<(String, usize)>)
    requires
        i <= t@.len(),
    ensures
        match spec_parse_string_body(t@.skip(i as int)) {
            Some(p) => match r {
                Some(q) => q.0@ == p.0 && i <= q.1 <= t@.len() && t@.skip(q.1 as int) == p.1,
                None => false,
            },
            None => r is None,
        },
{
    let mut acc: Vec<char> = Vec::new();
    let mut j: usize = i;
    loop
        invariant
            i <= j <= t@.len(),
            spec_parse_string_body(t@.skip(i as int)) == (match spec_parse_string_body(
                t@.skip(j as int),
            ) {
                Some(p) => Some((acc@ + p.0, p.1)),
                None => None::<(Seq<char>, Seq<char>)>,
            }),
        decreases t@.len() - j,
    {
        let ghost u = t@.skip(j as int);
        proof {
            assert(u.len() == t@.len() - j);
        }
        if j >= t.len() {
            return None;
        }
        let c = t[j];
        proof {
            assert(u[0] == t@[j as int]);
        }
        if c == '"' {
            proof {
                assert(u.skip(1) =~= t@.skip(j + 1 as int));
                assert(acc@ + Seq::<char>::empty() =~= acc@);
            }
            let s = chars_to_string(&acc);
            return Some((s, j + 1));
        } else if c == '\\' {
            if j + 1 >= t.len() {
                return None;
            }
            let e = t[j + 1];
            proof {
                assert(u[1] == t@[j + 1 as int]);
            }
            match short_escape(e) {
                Some(d) => {
                    proof {
                        assert(u.skip(2) =~= t@.skip(j + 2 as int));
                        lemma_cons_assoc(acc@, d, spec_parse_string_body(t@.skip(j + 2 as int)));
                    }
                    acc.push(d);
                    j = j + 2;
                },
                None => {
                    if e != 'u' {
                        return None;
                    }
                    if t.len() - j < 6 {
                        return None;
                    }
                    let z0 = t[j + 2];
                    let z1 = t[j + 3];
                    proof {
                        assert(u[2] == t@[j + 2 as int]);
                        assert(u[3] == t@[j + 3 as int]);
                        assert(u[4] == t@[j + 4 as int]);
                        assert(u[5] == t@[j + 5 as int]);
                    }
                    if z0 != '0' || z1 != '0' {
                        return None;
                    }
                    let h = hex_val(t[j + 4]);
                    let l = hex_val(t[j + 5]);
                    match (h, l) {
                        (Some(hv), Some(lv)) => {
                            let code = 16 * hv + lv;
                            let d = (code as u8) as char;
                            proof {
                                assert(hv < 16 && lv < 16);
                                assert(d as u32 == code);
                                vstd::utf8::char_u32_cast(d, code);
                                assert(spec_char_of_code(code as int) == d);
                                assert(u.skip(6) =~= t@.skip(j + 6 as int));
                                lemma_cons_assoc(
                                    acc@,
                                    d,
                                    spec_parse_string_body(t@.skip(j + 6 as int)),
                                );
                            }
                            acc.push(d);
                            j = j + 6;
                        },
                        _ => {
                            return None;
                        },
                    }
                },
            }
        } else if (c as u32) < 32 {
            return None;
        } else {
            proof {
                assert(u.skip(1) =~= t@.skip(j + 1 as int));
                lemma_cons_assoc(acc@, c, spec_parse_string_body(t@.skip(j + 1 as int)));
            }
            acc.push(c);
            j = j + 1;
        }
    }
}

/// Prepending one decoded character associates with the accumulated prefix.
proof fn lemma_cons_assoc(acc: Seq<char>, c: char, m: Option<(Seq<char>, Seq<char>)>)
    ensures
        match m {
            Some(p) => (acc + seq![c]) + p.0 =~= acc + (seq![c] + p.0),
            None => true,
        },
{
}

/// Concatenation of character sequences is associative.
pub proof fn seq_assoc(a: Seq<char>, b: Seq<char>, c: Seq<char>)
    ensures
        (a + b) + c == a + (b + c),
{
    assert((a + b) + c =~= a + (b + c));
}

/// Reading one fixed character.
pub open spec fn spec_parse_ch(t: Seq<char>, c: char) -> Option<Seq<char>> {
    if t.len() > 0 && t[0] == c {
        Some(t.skip(1))
    } else {
        None
    }
}

pub proof fn lemma_parse_ch_inverts(c: char, rest: Seq<char>)
    ensures
        spec_parse_ch(seq![c] + rest, c) == Some(rest),
{
    assert((seq![c] + rest).skip(1) =~= rest);
}

pub fn parse_ch_at(t: &Vec<char>, i: usize, c: char) -> (r: Option<usize>)
    requires
        i <= t@.len(),
    ensures
        match spec_parse_ch(t@.skip(i as int), c) {
            Some(rest) => match r {
                Some(j) => i <= j <= t@.len() && t@.skip(j as int) == rest,
                None => false,
            },
            None => r is None,
        },
{
    proof {
        if i < t@.len() {
            assert(t@.skip(i as int)[0] == t@[i as int]);
            assert(t@.skip(i as int).skip(1) =~= t@.skip(i + 1 as int));
        }
    }
    if i < t.len() && t[i] == c {
        Some(i + 1)
    } else {
        None
    }
}

/// Reading a fixed literal.
pub open spec fn spec_parse_lit(t: Seq<char>, l: Seq<char>) -> Option<Seq<char>> {
    if l.len() <= t.len() && t.take(l.len() as int) == l {
        Some(t.skip(l.len() as int))
    } else {
        None
    }
}

pub proof fn lemma_parse_lit_inverts(l: Seq<char>, rest: Seq<char>)
    ensures
        spec_parse_lit(l + rest, l) == Some(rest),
{
    assert((l + rest).take(l.len() as int) =~= l);
    assert((l + rest).skip(l.len() as int) =~= rest);
}

pub fn parse_lit_at(t: &Vec<char>, i: usize, l: &str) -> (r: Option<usize>)
    requires
        i <= t@.len(),
    ensures
        match spec_parse_lit(t@.skip(i as int), l@) {
            Some(rest) => match r {
                Some(j) => i <= j <= t@.len() && t@.skip(j as int) == rest,
                None => false,
            },
            None => r is None,
        },
{
    let n = l.unicode_len();
    let tn = t.len();
    if tn - i < n {
        return None;
    }
    for k in 0..n
        invariant
            n == l@.len(),
            tn == t@.len(),
            i + n <= tn,
            forall|m: int| 0 <= m < k ==> t@[i + m] == l@[m],
    {
        if t[i + k] != l.get_char(k) {
            proof {
                let u = t@.skip(i as int);
                assert(u.take(n as int)[k as int] == t@[i + k]);
                assert(u.take(n as int) != l@);
            }
            return None;
        }
    }
    proof {
        let u = t@.skip(i as int);
        assert(u.take(n as int) =~= l@);
        assert(u.skip(n as int) =~= t@.skip(i + n));
    }
    Some(i + n)
}

/// Append a fixed literal to the output.
pub fn push_lit(out: &mut Vec<char>, l: &str)
    ensures
        final(out)@ == old(out)@ + l@,
{
    let n = l.unicode_len();
    for k in 0..n
        invariant
            n == l@.len(),
            out@ == old(out)@ + l@.take(k as int),
    {
        out.push(l.get_char(k));
        proof {
            assert(old(out)@ + l@.take(k + 1 as int) =~= (old(out)@ + l@.take(k as int)).push(
                l@[k as int],
            ));
        }
    }
    proof {
        assert(l@.take(n as int) =~= l@);
    }
}

/// The view of an optional string.
pub open spec fn spec_opt_view(o: Option<String>) -> Option<Seq<char>> {
    match o {
        Some(s) => Some(s@),
        None => None,
    }
}

/// An optional string: `null`, or a string token.
pub open spec fn spec_emit_opt_string(o: Option<Seq<char>>) -> Seq<char> {
    match o {
        Some(s) => spec_emit_string(s),
        None => "null"@,
    }
}

pub open spec fn spec_parse_opt_string(t: Seq<char>) -> Option<(Option<Seq<char>>, Seq<char>)> {
    if t.len() > 0 && t[0] == '"' {
        match spec_parse_string(t) {
            Some(p) => Some((Some(p.0), p.1)),
            None => None,
        }
    } else {
        match spec_parse_lit(t, "null"@) {
            Some(rest) => Some((None, rest)),
            None => None,
        }
    }
}

pub proof fn lemma_parse_opt_string_inverts(o: Option<Seq<char>>, rest: Seq<char>)
    ensures
        spec_parse_opt_string(spec_emit_opt_string(o) + rest) == Some((o, rest)),
{
    reveal_strlit("null");
    match o {
        Some(s) => {
            let t = spec_emit_string(s) + rest;
            assert(t[0] == '"');
            lemma_parse_string_inverts(s, rest);
        },
        None => {
            let t = "null"@ + rest;
            assert(t[0] == 'n');
            lemma_parse_lit_inverts("null"@, rest);
        },
    }
}

pub fn emit_opt_string_into(out: &mut Vec<char>, o: &Option<String>)
    ensures
        final(out)@ == old(out)@ + spec_emit_opt_string(spec_opt_view(*o)),
{
    match o {
        Some(s) => emit_string_into(out, s.as_str()),
        None => push_lit(out, "null"),
    }
}

pub fn parse_opt_string_at(t: &Vec<char>, i: usize) -> (r: Option<(Option<String>, usize)>)
    requires
        i <= t@.len(),
    ensures
        match spec_parse_opt_string(t@.skip(i as int)) {
            Some(p) => match r {
                Some(q) => spec_opt_view(q.0) == p.0 && i <= q.1 <= t@.len() && t@.skip(
                    q.1 as int,
                ) == p.1,
                None => false,
            },
            None => r is None,
        },
{
    proof {
        if i < t@.len() {
            assert(t@.skip(i as int)[0] == t@[i as int]);
        }
    }
    if i < t.len() && t[i] == '"' {
        match parse_string_at(t, i) {
            Some(q) => Some((Some(q.0), q.1)),
            None => None,
        }
    } else {
        match parse_lit_at(t, i, "null") {
            Some(j) => Some((None, j)),
            None => None,
        }
    }
}

/// The view of a vector of string pairs.
pub open spec fn spec_pairs_view(v: Seq<(String, String)>) -> Seq<(Seq<char>, Seq<char>)> {
    v.map_values(|e: (String, String)| (e.0@, e.1@))
}

/// One `"key":"value"` object member.
pub open spec fn spec_emit_pair(p: (Seq<char>, Seq<char>)) -> Seq<char> {
    spec_emit_string(p.0) + (seq![':'] + spec_emit_string(p.1))
}

/// The members after the first, each preceded by a comma.
pub open spec fn spec_emit_pairs_rest(m: Seq<(Seq<char>, Seq<char>)>) -> Seq<char>
    decreases m.len(),
{
    if m.len() == 0 {
        Seq::empty()
    } else {
        seq![','] + (spec_emit_pair(m[0]) + spec_emit_pairs_rest(m.skip(1)))
    }
}

/// A string-to-string JSON object.
pub open spec fn spec_emit_strmap(m: Seq<(Seq<char>, Seq<char>)>) -> Seq<char> {
    if m.len() == 0 {
        seq!['{', '}']
    } else {
        seq!['{'] + (spec_emit_pair(m[0]) + (spec_emit_pairs_rest(m.skip(1)) + seq!['}']))
    }
}

pub open spec fn spec_parse_pair(t: Seq<char>) -> Option<((Seq<char>, Seq<char>), Seq<char>)> {
    match spec_parse_string(t) {
        Some(p) => match spec_parse_ch(p.1, ':') {
            Some(r2) => match spec_parse_string(r2) {
                Some(q) => Some(((p.0, q.0), q.1)),
                None => None,
            },
            None => None,
        },
        None => None,
    }
}

/// After the first member: a closing brace, or comma-separated further
/// members up to the closing brace.
pub open spec fn spec_parse_pairs_rest(t: Seq<char>) -> Option<
    (Seq<(Seq<char>, Seq<char>)>, Seq<char>),
>
    decreases t.len(),
{
    if t.len() == 0 {
        None
    } else if t[0] == '}' {
        Some((Seq::empty(), t.skip(1)))
    } else if t[0] == ',' {
        match spec_parse_pair(t.skip(1)) {
            Some(p) => if p.1.len() < t.len() {
                match spec_parse_pairs_rest(p.1) {
                    Some(q) => Some((seq![p.0] + q.0, q.1)),
                    None => None,
                }
            } else {
                None
            },
            None => None,
        }
    } else {
        None
    }
}

pub open spec fn spec_parse_strmap(t: Seq<char>) -> Option<
    (Seq<(Seq<char>, Seq<char>)>, Seq<char>),
> {
    match spec_parse_ch(t, '{') {
        Some(u) => if u.len() > 0 && u[0] == '}' {
            Some((Seq::empty(), u.skip(1)))
        } else {
            match spec_parse_pair(u) {
                Some(p) => match spec_parse_pairs_rest(p.1) {
                    Some(q) => Some((seq![p.0] + q.0, q.1)),
                    None => None,
                },
                None => None,
            }
        },
        None => None,
    }
}

pub proof fn lemma_parse_pair_inverts(p: (Seq<char>, Seq<char>), rest: Seq<char>)
    ensures
        spec_parse_pair(spec_emit_pair(p) + rest) == Some((p, rest)),
{
    let after_key = seq![':'] + spec_emit_string(p.1);
    seq_assoc(spec_emit_string(p.0), after_key, rest);
    seq_assoc(seq![':'], spec_emit_string(p.1), rest);
    lemma_parse_string_inverts(p.0, after_key + rest);
    lemma_parse_ch_inverts(':', spec_emit_string(p.1) + rest);
    lemma_parse_string_inverts(p.1, rest);
}

pub proof fn lemma_parse_pairs_rest_inverts(m: Seq<(Seq<char>, Seq<char>)>, rest: Seq<char>)
    ensures
        spec_parse_pairs_rest(spec_emit_pairs_rest(m) + (seq!['}'] + rest)) == Some((m, rest)),
    decreases m.len(),
{
    let t = spec_emit_pairs_rest(m) + (seq!['}'] + rest);
    if m.len() == 0 {
        assert(t =~= seq!['}'] + rest);
        assert(t[0] == '}');
        assert(t.skip(1) =~= rest);
        assert(m =~= Seq::<(Seq<char>, Seq<char>)>::empty());
    } else {
        let m1 = m.skip(1);
        let tail = spec_emit_pairs_rest(m1) + (seq!['}'] + rest);
        seq_assoc(spec_emit_pair(m[0]), spec_emit_pairs_rest(m1), seq!['}'] + rest);
        seq_assoc(seq![','], spec_emit_pair(m[0]) + spec_emit_pairs_rest(m1), seq!['}'] + rest);
        assert(t =~= seq![','] + (spec_emit_pair(m[0]) + tail));
        assert(t[0] == ',');
        assert(t.skip(1) =~= spec_emit_pair(m[0]) + tail);
        lemma_parse_pair_inverts(m[0], tail);
        lemma_parse_pairs_rest_inverts(m1, rest);
        assert(tail.len() < t.len());
        assert(seq![m[0]] + m1 =~= m);
    }
}

pub proof fn lemma_parse_strmap_inverts(m: Seq<(Seq<char>, Seq<char>)>, rest: Seq<char>)
    ensures
        spec_parse_strmap(spec_emit_strmap(m) + rest) == Some((m, rest)),
{
    let t = spec_emit_strmap(m) + rest;
    if m.len() == 0 {
        assert(t =~= seq!['{'] + (seq!['}'] + rest));
        assert(t[0] == '{');
        assert(t.skip(1) =~= seq!['}'] + rest);
        assert((seq!['}'] + rest)[0] == '}');
        assert((seq!['}'] + rest).skip(1) =~= rest);
        assert(m =~= Seq::<(Seq<char>, Seq<char>)>::empty());
    } else {
        let m1 = m.skip(1);
        let tail = spec_emit_pairs_rest(m1) + (seq!['}'] + rest);
        let u = spec_emit_pair(m[0]) + tail;
        seq_assoc(spec_emit_pairs_rest(m1), seq!['}'], rest);
        seq_assoc(spec_emit_pair(m[0]), spec_emit_pairs_rest(m1) + seq!['}'], rest);
        seq_assoc(seq!['{'], spec_emit_pair(m[0]) + (spec_emit_pairs_rest(m1) + seq!['}']), rest);
        assert(t =~= seq!['{'] + u);
        assert(t[0] == '{');
        assert(t.skip(1) =~= u);
        assert(u[0] == '"');
        lemma_parse_pair_inverts(m[0], tail);
        lemma_parse_pairs_rest_inverts(m1, rest);
        assert(seq![m[0]] + m1 =~= m);
    }
}

/// Append the members of a string map after the first, entries `i..`.
fn emit_pairs_rest_into(out: &mut Vec<char>, m: &Vec<(String, String)>, i: usize)
    requires
        i <= m@.len(),
    ensures
        final(out)@ == old(out)@ + spec_emit_pairs_rest(spec_pairs_view(m@).skip(i as int)),
    decreases m@.len() - i,
{
    let ghost mv = spec_pairs_view(m@);
    if i < m.len() {
        out.push(',');
        emit_string_into(out, m[i].0.as_str());
        out.push(':');
        emit_string_into(out, m[i].1.as_str());
        emit_pairs_rest_into(out, m, i + 1);
        proof {
            assert(mv.skip(i as int)[0] == mv[i as int]);
            assert(mv.skip(i as int).skip(1) =~= mv.skip(i + 1 as int));
            assert(final(out)@ =~= old(out)@ + spec_emit_pairs_rest(mv.skip(i as int)));
        }
    } else {
        proof {
            assert(mv.skip(i as int) =~= Seq::<(Seq<char>, Seq<char>)>::empty());
        }
    }
}

/// Append a string-to-string JSON object to the output.
pub fn emit_strmap_into(out: &mut Vec<char>, m: &Vec<(String, String)>)
    ensures
        final(out)@ == old(out)@ + spec_emit_strmap(spec_pairs_view(m@)),
{
    let ghost mv = spec_pairs_view(m@);
    out.push('{');
    if m.len() > 0 {
        emit_string_into(out, m[0].0.as_str());
        out.push(':');
        emit_string_into(out, m[0].1.as_str());
        emit_pairs_rest_into(out, m, 1);
    }
    out.push('}');
    proof {
        if mv.len() == 0 {
            assert(final(out)@ =~= old(out)@ + spec_emit_strmap(mv));
        } else {
            assert(mv[0] == (m@[0].0@, m@[0].1@));
            assert(final(out)@ =~= old(out)@ + spec_emit_strmap(mv));
        }
    }
}

pub fn parse_pair_at(t: &Vec<char>, i: usize) -> (r: Option<((String, String), usize)>)
    requires
        i <= t@.len(),
    ensures
        match spec_parse_pair(t@.skip(i as int)) {
            Some(p) => match r {
                Some(q) => (q.0.0@, q.0.1@) == p.0 && i <= q.1 <= t@.len() && t@.skip(q.1 as int)
                    == p.1,
                None => false,
            },
            None => r is None,
        },
{
    match parse_string_at(t, i) {
        Some(k) => match parse_ch_at(t, k.1, ':') {
            Some(j2) => match parse_string_at(t, j2) {
                Some(v) => Some(((k.0, v.0), v.1)),
                None => None,
            },
            None => None,
        },
        None => None,
    }
}

pub fn parse_pairs_rest_at(t: &Vec<char>, i: usize) -> (r: Option<(Vec<(String, String)>, usize)>)
    requires
        i <= t@.len(),
    ensures
        match spec_parse_pairs_rest(t@.skip(i as int)) {
            Some(p) => match r {
                Some(q) => spec_pairs_view(q.0@) == p.0 && i <= q.1 <= t@.len() && t@.skip(
                    q.1 as int,
                ) == p.1,
                None => false,
            },
            None => r is None,
        },
{
    let mut acc: Vec<(String, String)> = Vec::new();
    let mut j: usize = i;
    loop
        invariant
            i <= j <= t@.len(),
            spec_parse_pairs_rest(t@.skip(i as int)) == (match spec_parse_pairs_rest(
                t@.skip(j as int),
            ) {
                Some(p) => Some((spec_pairs_view(acc@) + p.0, p.1)),
                None => None::<(Seq<(Seq<char>, Seq<char>)>, Seq<char>)>,
            }),
        decreases t@.len() - j,
    {
        let ghost u = t@.skip(j as int);
        proof {
            assert(u.len() == t@.len() - j);
        }
        if j >= t.len() {
            return None;
        }
        let c = t[j];
        proof {
            assert(u[0] == t@[j as int]);
        }
        if c == '}' {
            proof {
                assert(u.skip(1) =~= t@.skip(j + 1 as int));
                assert(spec_pairs_view(acc@) + Seq::<(Seq<char>, Seq<char>)>::empty()
                    =~= spec_pairs_view(acc@));
            }
            return Some((acc, j + 1));
        } else if c == ',' {
            proof {
                assert(u.skip(1) =~= t@.skip(j + 1 as int));
            }
            match parse_pair_at(t, j + 1) {
                Some(q) => {
                    proof {
                        let p = spec_parse_pair(t@.skip(j + 1 as int));
                        assert(t@.skip(q.1 as int).len() < u.len());
                        match spec_parse_pairs_rest(t@.skip(q.1 as int)) {
                            Some(pp) => {
                                assert(spec_pairs_view(acc@.push(q.0)) =~= spec_pairs_view(acc@)
                                    + seq![(q.0.0@, q.0.1@)]);
                                assert((spec_pairs_view(acc@) + seq![(q.0.0@, q.0.1@)]) + pp.0
                                    =~= spec_pairs_view(acc@) + (seq![(q.0.0@, q.0.1@)] + pp.0));
                            },
                            None => {},
                        }
                    }
                    acc.push(q.0);
                    j = q.1;
                },
                None => {
                    return None;
                },
            }
        } else {
            return None;
        }
    }
}

pub fn parse_strmap_at(t: &Vec<char>, i: usize) -> (r: Option<(Vec<(String, String)>, usize)>)
    requires
        i <= t@.len(),
    ensures
        match spec_parse_strmap(t@.skip(i as int)) {
            Some(p) => match r {
                Some(q) => spec_pairs_view(q.0@) == p.0 && i <= q.1 <= t@.len() && t@.skip(
                    q.1 as int,
                ) == p.1,
                None => false,
            },
            None => r is None,
        },
{
    let j = match parse_ch_at(t, i, '{') {
        Some(j) => j,
        None => {
            return None;
        },
    };
    proof {
        if j < t@.len() {
            assert(t@.skip(j as int)[0] == t@[j as int]);
        }
    }
    if j < t.len() && t[j] == '}' {
        proof {
            assert(t@.skip(j as int).skip(1) =~= t@.skip(j + 1 as int));
            assert(spec_pairs_view(Seq::<(String, String)>::empty()) =~= Seq::<
                (Seq<char>, Seq<char>),
            >::empty());
        }
        return Some((Vec::new(), j + 1));
    }
    match parse_pair_at(t, j) {
        Some(q) => match parse_pairs_rest_at(t, q.1) {
            Some(rr) => {
                let mut v = rr.0;
                v.insert(0, q.0);
                proof {
                    assert(spec_pairs_view(v@) =~= seq![(q.0.0@, q.0.1@)] + spec_pairs_view(
                        rr.0@,
                    ));
                }
                Some((v, rr.1))
            },
            None => None,
        },
        None => None,
    }
}

/// A runner, encoded as its tag alone for `Native` and as a one-member
/// object with a versioned body for `Wine` and `Proton`.
pub open spec fn spec_emit_runner(r: RunnerView) -> Seq<char> {
    match r {
        RunnerView::Native => "\"Native\""@,
        RunnerView::Wine(v) => "{\"Wine\":{\"version\":"@ + (spec_emit_string(v) + "}}"@),
        RunnerView::Proton(v) => "{\"Proton\":{\"version\":"@ + (spec_emit_string(v) + "}}"@),
    }
}

pub open spec fn spec_parse_runner(t: Seq<char>) -> Option<(RunnerView, Seq<char>)> {
    match spec_parse_lit(t, "\"Native\""@) {
        Some(rest) => Some((RunnerView::Native, rest)),
        None => match spec_parse_lit(t, "{\"Wine\":{\"version\":"@) {
            Some(u) => match spec_parse_string(u) {
                Some(p) => match spec_parse_lit(p.1, "}}"@) {
                    Some(rest) => Some((RunnerView::Wine(p.0), rest)),
                    None => None,
                },
                None => None,
            },
            None => match spec_parse_lit(t, "{\"Proton\":{\"version\":"@) {
                Some(u) => match spec_parse_string(u) {
                    Some(p) => match spec_parse_lit(p.1, "}}"@) {
                        Some(rest) => Some((RunnerView::Proton(p.0), rest)),
                        None => None,
                    },
                    None => None,
                },
                None => None,
            },
        },
    }
}

pub proof fn lemma_parse_runner_inverts(r: RunnerView, rest: Seq<char>)
    ensures
        spec_parse_runner(spec_emit_runner(r) + rest) == Some((r, rest)),
{
    reveal_strlit("\"Native\"");
    reveal_strlit("{\"Wine\":{\"version\":");
    reveal_strlit("{\"Proton\":{\"version\":");
    reveal_strlit("}}");
    let t = spec_emit_runner(r) + rest;
    match r {
        RunnerView::Native => {
            lemma_parse_lit_inverts("\"Native\""@, rest);
        },
        RunnerView::Wine(v) => {
            if spec_parse_lit(t, "\"Native\""@) is Some {
                assert(t.take(8)[0] == t[0]);
                assert(false);
            }
            seq_assoc("{\"Wine\":{\"version\":"@, spec_emit_string(v) + "}}"@, rest);
            seq_assoc(spec_emit_string(v), "}}"@, rest);
            lemma_parse_lit_inverts("{\"Wine\":{\"version\":"@, spec_emit_string(v) + ("}}"@
                + rest));
            lemma_parse_string_inverts(v, "}}"@ + rest);
            lemma_parse_lit_inverts("}}"@, rest);
        },
        RunnerView::Proton(v) => {
            if spec_parse_lit(t, "\"Native\""@) is Some {
                assert(t.take(8)[0] == t[0]);
                assert(false);
            }
            if spec_parse_lit(t, "{\"Wine\":{\"version\":"@) is Some {
                assert(t.take(19)[2] == t[2]);
                assert(false);
            }
            seq_assoc("{\"Proton\":{\"version\":"@, spec_emit_string(v) + "}}"@, rest);
            seq_assoc(spec_emit_string(v), "}}"@, rest);
            lemma_parse_lit_inverts("{\"Proton\":{\"version\":"@, spec_emit_string(v) + ("}}"@
                + rest));
            lemma_parse_string_inverts(v, "}}"@ + rest);
            lemma_parse_lit_inverts("}}"@, rest);
        },
    }
}

pub fn emit_runner_into(out: &mut Vec<char>, r: &Runner)
    ensures
        final(out)@ == old(out)@ + spec_emit_runner(r@),
{
    match r {
        Runner::Native => push_lit(out, "\"Native\""),
        Runner::Wine(w) => {
            push_lit(out, "{\"Wine\":{\"version\":");
            emit_string_into(out, w.version.as_str());
            push_lit(out, "}}");
        },
        Runner::Proton(p) => {
            push_lit(out, "{\"Proton\":{\"version\":");
            emit_string_into(out, p.version.as_str());
            push_lit(out, "}}");
        },
    }
}

pub fn parse_runner_at(t: &Vec<char>, i: usize) -> (r: Option<(Runner, usize)>)
    requires
        i <= t@.len(),
    ensures
        match spec_parse_runner(t@.skip(i as int)) {
            Some(p) => match r {
                Some(q) => q.0@ == p.0 && i <= q.1 <= t@.len() && t@.skip(q.1 as int) == p.1,
                None => false,
            },
            None => r is None,
        },
{
    match parse_lit_at(t, i, "\"Native\"") {
        Some(j) => {
            return Some((Runner::Native, j));
        },
        None => (),
    }
    match parse_lit_at(t, i, "{\"Wine\":{\"version\":") {
        Some(j) => {
            return match parse_string_at(t, j) {
                Some(p) => match parse_lit_at(t, p.1, "}}") {
                    Some(j2) => Some((Runner::Wine(Wine { version: p.0 }), j2)),
                    None => None,
                },
                None => None,
            };
        },
        None => (),
    }
    match parse_lit_at(t, i, "{\"Proton\":{\"version\":") {
        Some(j) => match parse_string_at(t, j) {
            Some(p) => match parse_lit_at(t, p.1, "}}") {
                Some(j2) => Some((Runner::Proton(Proton { version: p.0 }), j2)),
                None => None,
            },
            None => None,
        },
        None => None,
    }
}

/// A runtime component, encoded as a one-member object tagged by its kind.
pub open spec fn spec_emit_component(c: ComponentView) -> Seq<char> {
    match c {
        ComponentView::Dxvk(v) => "{\"Dxvk\":"@ + (spec_emit_string(v) + seq!['}']),
        ComponentView::Vkd3dProton(v) => "{\"Vkd3dProton\":"@ + (spec_emit_string(v) + seq!['}']),
        ComponentView::DxvkNvApi(v) => "{\"DxvkNvApi\":"@ + (spec_emit_string(v) + seq!['}']),
    }
}

pub open spec fn spec_parse_component(t: Seq<char>) -> Option<(ComponentView, Seq<char>)> {
    match spec_parse_lit(t, "{\"Dxvk\":"@) {
        Some(u) => match spec_parse_string(u) {
            Some(p) => match spec_parse_ch(p.1, '}') {
                Some(rest) => Some((ComponentView::Dxvk(p.0), rest)),
                None => None,
            },
            None => None,
        },
        None => match spec_parse_lit(t, "{\"Vkd3dProton\":"@) {
            Some(u) => match spec_parse_string(u) {
                Some(p) => match spec_parse_ch(p.1, '}') {
                    Some(rest) => Some((ComponentView::Vkd3dProton(p.0), rest)),
                    None => None,
                },
                None => None,
            },
            None => match spec_parse_lit(t, "{\"DxvkNvApi\":"@) {
                Some(u) => match spec_parse_string(u) {
                    Some(p) => match spec_parse_ch(p.1, '}') {
                        Some(rest) => Some((ComponentView::DxvkNvApi(p.0), rest)),
                        None => None,
                    },
                    None => None,
                },
                None => None,
            },
        },
    }
}

pub proof fn lemma_parse_component_inverts(c: ComponentView, rest: Seq<char>)
    ensures
        spec_parse_component(spec_emit_component(c) + rest) == Some((c, rest)),
{
    reveal_strlit("{\"Dxvk\":");
    reveal_strlit("{\"Vkd3dProton\":");
    reveal_strlit("{\"DxvkNvApi\":");
    let t = spec_emit_component(c) + rest;
    match c {
        ComponentView::Dxvk(v) => {
            seq_assoc("{\"Dxvk\":"@, spec_emit_string(v) + seq!['}'], rest);
            seq_assoc(spec_emit_string(v), seq!['}'], rest);
            lemma_parse_lit_inverts("{\"Dxvk\":"@, spec_emit_string(v) + (seq!['}'] + rest));
            lemma_parse_string_inverts(v, seq!['}'] + rest);
            lemma_parse_ch_inverts('}', rest);
        },
        ComponentView::Vkd3dProton(v) => {
            if spec_parse_lit(t, "{\"Dxvk\":"@) is Some {
                assert(t.take(8)[2] == t[2]);
                assert(false);
            }
            seq_assoc("{\"Vkd3dProton\":"@, spec_emit_string(v) + seq!['}'], rest);
            seq_assoc(spec_emit_string(v), seq!['}'], rest);
            lemma_parse_lit_inverts("{\"Vkd3dProton\":"@, spec_emit_string(v) + (seq!['}']
                + rest));
            lemma_parse_string_inverts(v, seq!['}'] + rest);
            lemma_parse_ch_inverts('}', rest);
        },
        ComponentView::DxvkNvApi(v) => {
            if spec_parse_lit(t, "{\"Dxvk\":"@) is Some {
                assert(t.take(8)[6] == t[6]);
                assert(false);
            }
            if spec_parse_lit(t, "{\"Vkd3dProton\":"@) is Some {
                assert(t.take(15)[2] == t[2]);
                assert(false);
            }
            seq_assoc("{\"DxvkNvApi\":"@, spec_emit_string(v) + seq!['}'], rest);
            seq_assoc(spec_emit_string(v), seq!['}'], rest);
            lemma_parse_lit_inverts("{\"DxvkNvApi\":"@, spec_emit_string(v) + (seq!['}'] + rest));
            lemma_parse_string_inverts(v, seq!['}'] + rest);
            lemma_parse_ch_inverts('}', rest);
        },
    }
}

/// The view of a vector of runtime components.
pub open spec fn spec_comps_view(v: Seq<RuntimeComponent>) -> Seq<ComponentView> {
    v.map_values(|c: RuntimeComponent| c@)
}

/// The elements of a component array after the first, comma-separated.
pub open spec fn spec_emit_comps_rest(cs: Seq<ComponentView>) -> Seq<char>
    decreases cs.len(),
{
    if cs.len() == 0 {
        Seq::empty()
    } else {
        seq![','] + (spec_emit_component(cs[0]) + spec_emit_comps_rest(cs.skip(1)))
    }
}

/// A JSON array of runtime components.
pub open spec fn spec_emit_comps(cs: Seq<ComponentView>) -> Seq<char> {
    if cs.len() == 0 {
        seq!['[', ']']
    } else {
        seq!['['] + (spec_emit_component(cs[0]) + (spec_emit_comps_rest(cs.skip(1)) + seq![']']))
    }
}

pub open spec fn spec_parse_comps_rest(t: Seq<char>) -> Option<(Seq<ComponentView>, Seq<char>)>
    decreases t.len(),
{
    if t.len() == 0 {
        None
    } else if t[0] == ']' {
        Some((Seq::empty(), t.skip(1)))
    } else if t[0] == ',' {
        match spec_parse_component(t.skip(1)) {
            Some(p) => if p.1.len() < t.len() {
                match spec_parse_comps_rest(p.1) {
                    Some(q) => Some((seq![p.0] + q.0, q.1)),
                    None => None,
                }
            } else {
                None
            },
            None => None,
        }
    } else {
        None
    }
}

pub open spec fn spec_parse_comps(t: Seq<char>) -> Option<(Seq<ComponentView>, Seq<char>)> {
    match spec_parse_ch(t, '[') {
        Some(u) => if u.len() > 0 && u[0] == ']' {
            Some((Seq::empty(), u.skip(1)))
        } else {
            match spec_parse_component(u) {
                Some(p) => match spec_parse_comps_rest(p.1) {
                    Some(q) => Some((seq![p.0] + q.0, q.1)),
                    None => None,
                },
                None => None,
            }
        },
        None => None,
    }
}

#[verifier::rlimit(50)]
pub proof fn lemma_parse_comps_rest_inverts(cs: Seq<ComponentView>, rest: Seq<char>)
    ensures
        spec_parse_comps_rest(spec_emit_comps_rest(cs) + (seq![']'] + rest)) == Some((cs, rest)),
    decreases cs.len(),
{
    let t = spec_emit_comps_rest(cs) + (seq![']'] + rest);
    if cs.len() == 0 {
        assert(t =~= seq![']'] + rest);
        assert(t.skip(1) =~= rest);
        assert(cs =~= Seq::<ComponentView>::empty());
    } else {
        let c1 = cs.skip(1);
        let tail = spec_emit_comps_rest(c1) + (seq![']'] + rest);
        seq_assoc(spec_emit_component(cs[0]), spec_emit_comps_rest(c1), seq![']'] + rest);
        seq_assoc(seq![','], spec_emit_component(cs[0]) + spec_emit_comps_rest(c1), seq![']']
            + rest);
        assert(t =~= seq![','] + (spec_emit_component(cs[0]) + tail));
        assert(t[0] == ',');
        assert(t.skip(1) =~= spec_emit_component(cs[0]) + tail);
        lemma_parse_component_inverts(cs[0], tail);
        lemma_parse_comps_rest_inverts(c1, rest);
        assert(tail.len() < t.len()) by {
            lemma_emit_component_nonempty(cs[0]);
        }
        assert(seq![cs[0]] + c1 =~= cs);
    }
}

proof fn lemma_emit_component_nonempty(c: ComponentView)
    ensures
        spec_emit_component(c).len() >= 1,
        spec_emit_component(c)[0] == '{',
{
    reveal_strlit("{\"Dxvk\":");
    reveal_strlit("{\"Vkd3dProton\":");
    reveal_strlit("{\"DxvkNvApi\":");
}

#[verifier::rlimit(50)]
pub proof fn lemma_parse_comps_inverts(cs: Seq<ComponentView>, rest: Seq<char>)
    ensures
        spec_parse_comps(spec_emit_comps(cs) + rest) == Some((cs, rest)),
{
    let t = spec_emit_comps(cs) + rest;
    if cs.len() == 0 {
        assert(t =~= seq!['['] + (seq![']'] + rest));
        assert(t[0] == '[');
        assert(t.skip(1) =~= seq![']'] + rest);
        assert((seq![']'] + rest)[0] == ']');
        assert((seq![']'] + rest).skip(1) =~= rest);
        assert(cs =~= Seq::<ComponentView>::empty());
    } else {
        let c1 = cs.skip(1);
        let tail = spec_emit_comps_rest(c1) + (seq![']'] + rest);
        let u = spec_emit_component(cs[0]) + tail;
        seq_assoc(spec_emit_comps_rest(c1), seq![']'], rest);
        seq_assoc(spec_emit_component(cs[0]), spec_emit_comps_rest(c1) + seq![']'], rest);
        seq_assoc(seq!['['], spec_emit_component(cs[0]) + (spec_emit_comps_rest(c1) + seq![']']),
            rest);
        assert(t =~= seq!['['] + u);
        assert(t[0] == '[');
        assert(t.skip(1) =~= u);
        lemma_emit_component_nonempty(cs[0]);
        assert(u[0] == '{');
        lemma_parse_component_inverts(cs[0], tail);
        lemma_parse_comps_rest_inverts(c1, rest);
        assert(seq![cs[0]] + c1 =~= cs);
    }
}

/// Append the elements of a component array after the first, entries `i..`.
fn emit_comps_rest_into(out: &mut Vec<char>, cs: &Vec<RuntimeComponent>, i: usize)
    requires
        i <= cs@.len(),
    ensures
        final(out)@ == old(out)@ + spec_emit_comps_rest(spec_comps_view(cs@).skip(i as int)),
    decreases cs@.len() - i,
{
    let ghost cv = spec_comps_view(cs@);
    if i < cs.len() {
        out.push(',');
        emit_component_into(out, &cs[i]);
        emit_comps_rest_into(out, cs, i + 1);
        proof {
            assert(cv.skip(i as int)[0] == cv[i as int]);
            assert(cv.skip(i as int).skip(1) =~= cv.skip(i + 1 as int));
            assert(final(out)@ =~= old(out)@ + spec_emit_comps_rest(cv.skip(i as int)));
        }
    } else {
        proof {
            assert(cv.skip(i as int) =~= Seq::<ComponentView>::empty());
        }
    }
}

fn emit_component_into(out: &mut Vec<char>, c: &RuntimeComponent)
    ensures
        final(out)@ == old(out)@ + spec_emit_component(c@),
{
    match c {
        RuntimeComponent::Dxvk(v) => {
            push_lit(out, "{\"Dxvk\":");
            emit_string_into(out, v.as_str());
            out.push('}');
        },
        RuntimeComponent::Vkd3dProton(v) => {
            push_lit(out, "{\"Vkd3dProton\":");
            emit_string_into(out, v.as_str());
            out.push('}');
        },
        RuntimeComponent::DxvkNvApi(v) => {
            push_lit(out, "{\"DxvkNvApi\":");
            emit_string_into(out, v.as_str());
            out.push('}');
        },
    }
}

/// Append a JSON array of runtime components to the output.
pub fn emit_comps_into(out: &mut Vec<char>, cs: &Vec<RuntimeComponent>)
    ensures
        final(out)@ == old(out)@ + spec_emit_comps(spec_comps_view(cs@)),
{
    let ghost cv = spec_comps_view(cs@);
    out.push('[');
    if cs.len() > 0 {
        emit_component_into(out, &cs[0]);
        emit_comps_rest_into(out, cs, 1);
    }
    out.push(']');
    proof {
        if cv.len() == 0 {
            assert(final(out)@ =~= old(out)@ + spec_emit_comps(cv));
        } else {
            assert(cv[0] == cs@[0]@);
            assert(final(out)@ =~= old(out)@ + spec_emit_comps(cv));
        }
    }
}

fn parse_component_at(t: &Vec<char>, i: usize) -> (r: Option<(RuntimeComponent, usize)>)
    requires
        i <= t@.len(),
    ensures
        match spec_parse_component(t@.skip(i as int)) {
            Some(p) => match r {
                Some(q) => q.0@ == p.0 && i <= q.1 <= t@.len() && t@.skip(q.1 as int) == p.1,
                None => false,
            },
            None => r is None,
        },
{
    match parse_lit_at(t, i, "{\"Dxvk\":") {
        Some(j) => {
            return match parse_string_at(t, j) {
                Some(p) => match parse_ch_at(t, p.1, '}') {
                    Some(j2) => Some((RuntimeComponent::Dxvk(p.0), j2)),
                    None => None,
                },
                None => None,
            };
        },
        None => (),
    }
    match parse_lit_at(t, i, "{\"Vkd3dProton\":") {
        Some(j) => {
            return match parse_string_at(t, j) {
                Some(p) => match parse_ch_at(t, p.1, '}') {
                    Some(j2) => Some((RuntimeComponent::Vkd3dProton(p.0), j2)),
                    None => None,
                },
                None => None,
            };
        },
        None => (),
    }
    match parse_lit_at(t, i, "{\"DxvkNvApi\":") {
        Some(j) => match parse_string_at(t, j) {
            Some(p) => match parse_ch_at(t, p.1, '}') {
                Some(j2) => Some((RuntimeComponent::DxvkNvApi(p.0), j2)),
                None => None,
            },
            None => None,
        },
        None => None,
    }
}

fn parse_comps_rest_at(t: &Vec<char>, i: usize) -> (r: Option<(Vec<RuntimeComponent>, usize)>)
    requires
        i <= t@.len(),
    ensures
        match spec_parse_comps_rest(t@.skip(i as int)) {
            Some(p) => match r {
                Some(q) => spec_comps_view(q.0@) == p.0 && i <= q.1 <= t@.len() && t@.skip(
                    q.1 as int,
                ) == p.1,
                None => false,
            },
            None => r is None,
        },
{
    let mut acc: Vec<RuntimeComponent> = Vec::new();
    let mut j: usize = i;
    loop
        invariant
            i <= j <= t@.len(),
            spec_parse_comps_rest(t@.skip(i as int)) == (match spec_parse_comps_rest(
                t@.skip(j as int),
            ) {
                Some(p) => Some((spec_comps_view(acc@) + p.0, p.1)),
                None => None::<(Seq<ComponentView>, Seq<char>)>,
            }),
        decreases t@.len() - j,
    {
        let ghost u = t@.skip(j as int);
        proof {
            assert(u.len() == t@.len() - j);
        }
        if j >= t.len() {
            return None;
        }
        let c = t[j];
        proof {
            assert(u[0] == t@[j as int]);
        }
        if c == ']' {
            proof {
                assert(u.skip(1) =~= t@.skip(j + 1 as int));
                assert(spec_comps_view(acc@) + Seq::<ComponentView>::empty() =~= spec_comps_view(
                    acc@,
                ));
            }
            return Some((acc, j + 1));
        } else if c == ',' {
            proof {
                assert(u.skip(1) =~= t@.skip(j + 1 as int));
            }
            match parse_component_at(t, j + 1) {
                Some(q) => {
                    proof {
                        assert(t@.skip(q.1 as int).len() < u.len());
                        match spec_parse_comps_rest(t@.skip(q.1 as int)) {
                            Some(pp) => {
                                assert(spec_comps_view(acc@.push(q.0)) =~= spec_comps_view(acc@)
                                    + seq![q.0@]);
                                assert((spec_comps_view(acc@) + seq![q.0@]) + pp.0
                                    =~= spec_comps_view(acc@) + (seq![q.0@] + pp.0));
                            },
                            None => {},
                        }
                    }
                    acc.push(q.0);
                    j = q.1;
                },
                None => {
                    return None;
                },
            }
        } else {
            return None;
        }
    }
}

pub fn parse_comps_at(t: &Vec<char>, i: usize) -> (r: Option<(Vec<RuntimeComponent>, usize)>)
    requires
        i <= t@.len(),
    ensures
        match spec_parse_comps(t@.skip(i as int)) {
            Some(p) => match r {
                Some(q) => spec_comps_view(q.0@) == p.0 && i <= q.1 <= t@.len() && t@.skip(
                    q.1 as int,
                ) == p.1,
                None => false,
            },
            None => r is None,
        },
{
    let j = match parse_ch_at(t, i, '[') {
        Some(j) => j,
        None => {
            return None;
        },
    };
    proof {
        if j < t@.len() {
            assert(t@.skip(j as int)[0] == t@[j as int]);
        }
    }
    if j < t.len() && t[j] == ']' {
        proof {
            assert(t@.skip(j as int).skip(1) =~= t@.skip(j + 1 as int));
            assert(spec_comps_view(Seq::<RuntimeComponent>::empty()) =~= Seq::<
                ComponentView,
            >::empty());
        }
        return Some((Vec::new(), j + 1));
    }
    match parse_component_at(t, j) {
        Some(q) => match parse_comps_rest_at(t, q.1) {
            Some(rr) => {
                let mut v = rr.0;
                v.insert(0, q.0);
                proof {
                    assert(spec_comps_view(v@) =~= seq![q.0@] + spec_comps_view(rr.0@));
                }
                Some((v, rr.1))
            },
            None => None,
        },
        None => None,
    }
}

/// A keyed string field: the fixed `,"key":` fragment, then a string token.
pub open spec fn spec_parse_key_string(t: Seq<char>, key: Seq<char>) -> Option<
    (Seq<char>, Seq<char>),
> {
    match spec_parse_lit(t, key) {
        Some(u) => spec_parse_string(u),
        None => None,
    }
}

/// A keyed optional-string field.
pub open spec fn spec_parse_key_opt(t: Seq<char>, key: Seq<char>) -> Option<
    (Option<Seq<char>>, Seq<char>),
> {
    match spec_parse_lit(t, key) {
        Some(u) => spec_parse_opt_string(u),
        None => None,
    }
}

pub proof fn lemma_parse_key_string_inverts(key: Seq<char>, s: Seq<char>, rest: Seq<char>)
    ensures
        spec_parse_key_string(key + (spec_emit_string(s) + rest), key) == Some((s, rest)),
{
    lemma_parse_lit_inverts(key, spec_emit_string(s) + rest);
    lemma_parse_string_inverts(s, rest);
}

pub proof fn lemma_parse_key_opt_inverts(key: Seq<char>, o: Option<Seq<char>>, rest: Seq<char>)
    ensures
        spec_parse_key_opt(key + (spec_emit_opt_string(o) + rest), key) == Some((o, rest)),
{
    lemma_parse_lit_inverts(key, spec_emit_opt_string(o) + rest);
    lemma_parse_opt_string_inverts(o, rest);
}

/// One installed-game record as a JSON object with a fixed key order.
#[verifier::opaque]
pub open spec fn spec_emit_game(g: GameView) -> Seq<char> {
    "{\"id\":"@ + (spec_emit_string(g.id) + (",\"biz_name\":"@ + (spec_emit_string(g.biz_name) + (
    ",\"install_path\":"@ + (spec_emit_string(g.install_path) + (",\"executable_path\":"@ + (
    spec_emit_string(g.executable_path) + (",\"command_wrapper\":"@ + (spec_emit_opt_string(
        g.command_wrapper,
    ) + (",\"command_arguments\":"@ + (spec_emit_opt_string(g.command_arguments) + (
    ",\"environment\":"@ + (spec_emit_strmap(g.environment) + (",\"runner\":"@ + (spec_emit_runner(
        g.runner,
    ) + (",\"runtime_components\":"@ + (spec_emit_comps(g.runtime_components)
        + seq!['}'])))))))))))))))))
}

#[verifier::opaque]
pub open spec fn spec_parse_game(t: Seq<char>) -> Option<(GameView, Seq<char>)> {
    match spec_parse_key_string(t, "{\"id\":"@) {
        Some(p1) => match spec_parse_key_string(p1.1, ",\"biz_name\":"@) {
            Some(p2) => match spec_parse_key_string(p2.1, ",\"install_path\":"@) {
                Some(p3) => match spec_parse_key_string(p3.1, ",\"executable_path\":"@) {
                    Some(p4) => match spec_parse_key_opt(p4.1, ",\"command_wrapper\":"@) {
                        Some(p5) => match spec_parse_key_opt(p5.1, ",\"command_arguments\":"@) {
                            Some(p6) => match spec_parse_lit(p6.1, ",\"environment\":"@) {
                                Some(u7) => match spec_parse_strmap(u7) {
                                    Some(p7) => match spec_parse_lit(p7.1, ",\"runner\":"@) {
                                        Some(u8) => match spec_parse_runner(u8) {
                                            Some(p8) => match spec_parse_lit(
                                                p8.1,
                                                ",\"runtime_components\":"@,
                                            ) {
                                                Some(u9) => match spec_parse_comps(u9) {
                                                    Some(p9) => match spec_parse_ch(p9.1, '}') {
                                                        Some(rest) => Some(
                                                            (
                                                                GameView {
                                                                    id: p1.0,
                                                                    biz_name: p2.0,
                                                                    install_path: p3.0,
                                                                    executable_path: p4.0,
                                                                    command_wrapper: p5.0,
                                                                    command_arguments: p6.0,
                                                                    environment: p7.0,
                                                                    runner: p8.0,
                                                                    runtime_components: p9.0,
                                                                },
                                                                rest,
                                                            ),
                                                        ),
                                                        None => None,
                                                    },
                                                    None => None,
                                                },
                                                None => None,
                                            },
                                            None => None,
                                        },
                                        None => None,
                                    },
                                    None => None,
                                },
                                None => None,
                            },
                            None => None,
                        },
                        None => None,
                    },
                    None => None,
                },
                None => None,
            },
            None => None,
        },
        None => None,
    }
}

pub proof fn lemma_parse_game_inverts(g: GameView, rest: Seq<char>)
    ensures
        spec_parse_game(spec_emit_game(g) + rest) == Some((g, rest)),
{
    reveal(spec_emit_game);
    reveal(spec_parse_game);
    let e1 = spec_emit_string(g.id);
    let e2 = spec_emit_string(g.biz_name);
    let e3 = spec_emit_string(g.install_path);
    let e4 = spec_emit_string(g.executable_path);
    let o5 = spec_emit_opt_string(g.command_wrapper);
    let o6 = spec_emit_opt_string(g.command_arguments);
    let m7 = spec_emit_strmap(g.environment);
    let r8 = spec_emit_runner(g.runner);
    let c9 = spec_emit_comps(g.runtime_components);
    let z9 = seq!['}'];
    let t9 = ",\"runtime_components\":"@ + (c9 + z9);
    let t8 = ",\"runner\":"@ + (r8 + t9);
    let t7 = ",\"environment\":"@ + (m7 + t8);
    let t6 = ",\"command_arguments\":"@ + (o6 + t7);
    let t5 = ",\"command_wrapper\":"@ + (o5 + t6);
    let t4 = ",\"executable_path\":"@ + (e4 + t5);
    let t3 = ",\"install_path\":"@ + (e3 + t4);
    let t2 = ",\"biz_name\":"@ + (e2 + t3);
    let t1 = "{\"id\":"@ + (e1 + t2);
    assert(spec_emit_game(g) == t1);
    seq_assoc("{\"id\":"@, e1 + t2, rest);
    seq_assoc(e1, t2, rest);
    lemma_parse_key_string_inverts("{\"id\":"@, g.id, t2 + rest);
    seq_assoc(",\"biz_name\":"@, e2 + t3, rest);
    seq_assoc(e2, t3, rest);
    lemma_parse_key_string_inverts(",\"biz_name\":"@, g.biz_name, t3 + rest);
    seq_assoc(",\"install_path\":"@, e3 + t4, rest);
    seq_assoc(e3, t4, rest);
    lemma_parse_key_string_inverts(",\"install_path\":"@, g.install_path, t4 + rest);
    seq_assoc(",\"executable_path\":"@, e4 + t5, rest);
    seq_assoc(e4, t5, rest);
    lemma_parse_key_string_inverts(",\"executable_path\":"@, g.executable_path, t5 + rest);
    seq_assoc(",\"command_wrapper\":"@, o5 + t6, rest);
    seq_assoc(o5, t6, rest);
    lemma_parse_key_opt_inverts(",\"command_wrapper\":"@, g.command_wrapper, t6 + rest);
    seq_assoc(",\"command_arguments\":"@, o6 + t7, rest);
    seq_assoc(o6, t7, rest);
    lemma_parse_key_opt_inverts(",\"command_arguments\":"@, g.command_arguments, t7 + rest);
    seq_assoc(",\"environment\":"@, m7 + t8, rest);
    seq_assoc(m7, t8, rest);
    lemma_parse_lit_inverts(",\"environment\":"@, m7 + (t8 + rest));
    lemma_parse_strmap_inverts(g.environment, t8 + rest);
    seq_assoc(",\"runner\":"@, r8 + t9, rest);
    seq_assoc(r8, t9, rest);
    lemma_parse_lit_inverts(",\"runner\":"@, r8 + (t9 + rest));
    lemma_parse_runner_inverts(g.runner, t9 + rest);
    seq_assoc(",\"runtime_components\":"@, c9 + z9, rest);
    seq_assoc(c9, z9, rest);
    lemma_parse_lit_inverts(",\"runtime_components\":"@, c9 + (z9 + rest));
    lemma_parse_comps_inverts(g.runtime_components, z9 + rest);
    lemma_parse_ch_inverts('}', rest);
}

/// A game record emission, flattened onto an existing prefix.
proof fn lemma_emit_game_flat(o: Seq<char>, g: GameView)
    ensures
        o + spec_emit_game(g) == o + "{\"id\":"@ + spec_emit_string(g.id) + ",\"biz_name\":"@
            + spec_emit_string(g.biz_name) + ",\"install_path\":"@ + spec_emit_string(
            g.install_path,
        ) + ",\"executable_path\":"@ + spec_emit_string(g.executable_path)
            + ",\"command_wrapper\":"@ + spec_emit_opt_string(g.command_wrapper)
            + ",\"command_arguments\":"@ + spec_emit_opt_string(g.command_arguments)
            + ",\"environment\":"@ + spec_emit_strmap(g.environment) + ",\"runner\":"@
            + spec_emit_runner(g.runner) + ",\"runtime_components\":"@ + spec_emit_comps(
            g.runtime_components,
        ) + seq!['}'],
{
    reveal(spec_emit_game);
    let e1 = spec_emit_string(g.id);
    let e2 = spec_emit_string(g.biz_name);
    let e3 = spec_emit_string(g.install_path);
    let e4 = spec_emit_string(g.executable_path);
    let o5 = spec_emit_opt_string(g.command_wrapper);
    let o6 = spec_emit_opt_string(g.command_arguments);
    let m7 = spec_emit_strmap(g.environment);
    let r8 = spec_emit_runner(g.runner);
    let c9 = spec_emit_comps(g.runtime_components);
    let z9 = seq!['}'];
    let t9 = ",\"runtime_components\":"@ + (c9 + z9);
    let t8 = ",\"runner\":"@ + (r8 + t9);
    let t7 = ",\"environment\":"@ + (m7 + t8);
    let t6 = ",\"command_arguments\":"@ + (o6 + t7);
    let t5 = ",\"command_wrapper\":"@ + (o5 + t6);
    let t4 = ",\"executable_path\":"@ + (e4 + t5);
    let t3 = ",\"install_path\":"@ + (e3 + t4);
    let t2 = ",\"biz_name\":"@ + (e2 + t3);
    let t1 = "{\"id\":"@ + (e1 + t2);
    assert(spec_emit_game(g) == t1);
    let a1 = o + "{\"id\":"@;
    let a2 = a1 + e1;
    let a3 = a2 + ",\"biz_name\":"@;
    let a4 = a3 + e2;
    let a5 = a4 + ",\"install_path\":"@;
    let a6 = a5 + e3;
    let a7 = a6 + ",\"executable_path\":"@;
    let a8 = a7 + e4;
    let a9 = a8 + ",\"command_wrapper\":"@;
    let a10 = a9 + o5;
    let a11 = a10 + ",\"command_arguments\":"@;
    let a12 = a11 + o6;
    let a13 = a12 + ",\"environment\":"@;
    let a14 = a13 + m7;
    let a15 = a14 + ",\"runner\":"@;
    let a16 = a15 + r8;
    let a17 = a16 + ",\"runtime_components\":"@;
    let a18 = a17 + c9;
    seq_assoc(o, "{\"id\":"@, e1 + t2);
    seq_assoc(a1, e1, t2);
    assert(o + t1 == a2 + t2);
    seq_assoc(a2, ",\"biz_name\":"@, e2 + t3);
    seq_assoc(a3, e2, t3);
    assert(a2 + t2 == a4 + t3);
    seq_assoc(a4, ",\"install_path\":"@, e3 + t4);
    seq_assoc(a5, e3, t4);
    assert(a4 + t3 == a6 + t4);
    seq_assoc(a6, ",\"executable_path\":"@, e4 + t5);
    seq_assoc(a7, e4, t5);
    assert(a6 + t4 == a8 + t5);
    seq_assoc(a8, ",\"command_wrapper\":"@, o5 + t6);
    seq_assoc(a9, o5, t6);
    assert(a8 + t5 == a10 + t6);
    seq_assoc(a10, ",\"command_arguments\":"@, o6 + t7);
    seq_assoc(a11, o6, t7);
    assert(a10 + t6 == a12 + t7);
    seq_assoc(a12, ",\"environment\":"@, m7 + t8);
    seq_assoc(a13, m7, t8);
    assert(a12 + t7 == a14 + t8);
    seq_assoc(a14, ",\"runner\":"@, r8 + t9);
    seq_assoc(a15, r8, t9);
    assert(a14 + t8 == a16 + t9);
    seq_assoc(a16, ",\"runtime_components\":"@, c9 + z9);
    seq_assoc(a17, c9, z9);
    assert(a16 + t9 == a18 + z9);
}

/// Append one installed-game record to the output.
#[verifier::rlimit(50)]
pub fn emit_game_into(out: &mut Vec<char>, game: &InstalledGame)
    ensures
        final(out)@ == old(out)@ + spec_emit_game(game@),
{
    push_lit(out, "{\"id\":");
    emit_string_into(out, game.id.as_str());
    push_lit(out, ",\"biz_name\":");
    emit_string_into(out, game.biz_name.as_str());
    push_lit(out, ",\"install_path\":");
    emit_string_into(out, game.install_path.as_str());
    push_lit(out, ",\"executable_path\":");
    emit_string_into(out, game.executable_path.as_str());
    push_lit(out, ",\"command_wrapper\":");
    emit_opt_string_into(out, &game.command_wrapper);
    push_lit(out, ",\"command_arguments\":");
    emit_opt_string_into(out, &game.command_arguments);
    push_lit(out, ",\"environment\":");
    emit_strmap_into(out, &game.environment);
    push_lit(out, ",\"runner\":");
    emit_runner_into(out, &game.runner);
    push_lit(out, ",\"runtime_components\":");
    emit_comps_into(out, &game.runtime_components);
    let ghost pre = out@;
    out.push('}');
    proof {
        assert(out@ =~= pre + seq!['}']);
        assert(game@.environment =~= spec_pairs_view(game.environment@));
        assert(game@.runtime_components =~= spec_comps_view(game.runtime_components@));
        assert(spec_opt_view(game.command_wrapper) == game@.command_wrapper);
        assert(spec_opt_view(game.command_arguments) == game@.command_arguments);
        lemma_emit_game_flat(old(out)@, game@);
        assert(final(out)@ == old(out)@ + spec_emit_game(game@));
    }
}

/// Read one installed-game record at position `i`.
pub fn parse_game_at(t: &Vec<char>, i: usize) -> (r: Option<(InstalledGame, usize)>)
    requires
        i <= t@.len(),
    ensures
        match spec_parse_game(t@.skip(i as int)) {
            Some(p) => match r {
                Some(q) => q.0@ == p.0 && i <= q.1 <= t@.len() && t@.skip(q.1 as int) == p.1,
                None => false,
            },
            None => r is None,
        },
{
    proof {
        reveal(spec_parse_game);
    }
    let j1 = match parse_lit_at(t, i, "{\"id\":") {
        Some(j) => j,
        None => {
            return None;
        },
    };
    let p1 = match parse_string_at(t, j1) {
        Some(p) => p,
        None => {
            return None;
        },
    };
    let j2 = match parse_lit_at(t, p1.1, ",\"biz_name\":") {
        Some(j) => j,
        None => {
            return None;
        },
    };
    let p2 = match parse_string_at(t, j2) {
        Some(p) => p,
        None => {
            return None;
        },
    };
    let j3 = match parse_lit_at(t, p2.1, ",\"install_path\":") {
        Some(j) => j,
        None => {
            return None;
        },
    };
    let p3 = match parse_string_at(t, j3) {
        Some(p) => p,
        None => {
            return None;
        },
    };
    let j4 = match parse_lit_at(t, p3.1, ",\"executable_path\":") {
        Some(j) => j,
        None => {
            return None;
        },
    };
    let p4 = match parse_string_at(t, j4) {
        Some(p) => p,
        None => {
            return None;
        },
    };
    let j5 = match parse_lit_at(t, p4.1, ",\"command_wrapper\":") {
        Some(j) => j,
        None => {
            return None;
        },
    };
    let p5 = match parse_opt_string_at(t, j5) {
        Some(p) => p,
        None => {
            return None;
        },
    };
    let j6 = match parse_lit_at(t, p5.1, ",\"command_arguments\":") {
        Some(j) => j,
        None => {
            return None;
        },
    };
    let p6 = match parse_opt_string_at(t, j6) {
        Some(p) => p,
        None => {
            return None;
        },
    };
    let j7 = match parse_lit_at(t, p6.1, ",\"environment\":") {
        Some(j) => j,
        None => {
            return None;
        },
    };
    let p7 = match parse_strmap_at(t, j7) {
        Some(p) => p,
        None => {
            return None;
        },
    };
    let j8 = match parse_lit_at(t, p7.1, ",\"runner\":") {
        Some(j) => j,
        None => {
            return None;
        },
    };
    let p8 = match parse_runner_at(t, j8) {
        Some(p) => p,
        None => {
            return None;
        },
    };
    let j9 = match parse_lit_at(t, p8.1, ",\"runtime_components\":") {
        Some(j) => j,
        None => {
            return None;
        },
    };
    let p9 = match parse_comps_at(t, j9) {
        Some(p) => p,
        None => {
            return None;
        },
    };
    let jz = match parse_ch_at(t, p9.1, '}') {
        Some(j) => j,
        None => {
            return None;
        },
    };
    let game = InstalledGame {
        id: p1.0,
        biz_name: p2.0,
        install_path: p3.0,
        executable_path: p4.0,
        command_wrapper: p5.0,
        command_arguments: p6.0,
        environment: p7.0,
        runner: p8.0,
        runtime_components: p9.0,
    };
    proof {
        match spec_parse_game(t@.skip(i as int)) {
            Some(p) => {
                assert(game@.environment =~= p.0.environment);
                assert(game@.runtime_components =~= p.0.runtime_components);
                assert(game@ == p.0);
            },
            None => {},
        }
    }
    Some((game, jz))
}

/// The view of a vector of catalog entries.
pub open spec fn spec_catalog_view(v: Seq<(String, InstalledGame)>) -> Seq<
    (Seq<char>, GameView),
> {
    v.map_values(|e: (String, InstalledGame)| (e.0@, e.1@))
}

/// One catalog member: the game id as the key, the record as the value.
pub open spec fn spec_emit_centry(e: (Seq<char>, GameView)) -> Seq<char> {
    spec_emit_string(e.0) + (seq![':'] + spec_emit_game(e.1))
}

/// Catalog members after the first, comma-separated.
pub open spec fn spec_emit_centries_rest(m: Seq<(Seq<char>, GameView)>) -> Seq<char>
    decreases m.len(),
{
    if m.len() == 0 {
        Seq::empty()
    } else {
        seq![','] + (spec_emit_centry(m[0]) + spec_emit_centries_rest(m.skip(1)))
    }
}

/// The installed-game catalog as a JSON object keyed by game id.
pub open spec fn spec_emit_catalog(m: Seq<(Seq<char>, GameView)>) -> Seq<char> {
    if m.len() == 0 {
        seq!['{', '}']
    } else {
        seq!['{'] + (spec_emit_centry(m[0]) + (spec_emit_centries_rest(m.skip(1)) + seq!['}']))
    }
}

pub open spec fn spec_parse_centry(t: Seq<char>) -> Option<((Seq<char>, GameView), Seq<char>)> {
    match spec_parse_string(t) {
        Some(k) => match spec_parse_ch(k.1, ':') {
            Some(u) => match spec_parse_game(u) {
                Some(g) => Some(((k.0, g.0), g.1)),
                None => None,
            },
            None => None,
        },
        None => None,
    }
}

pub open spec fn spec_parse_centries_rest(t: Seq<char>) -> Option<
    (Seq<(Seq<char>, GameView)>, Seq<char>),
>
    decreases t.len(),
{
    if t.len() == 0 {
        None
    } else if t[0] == '}' {
        Some((Seq::empty(), t.skip(1)))
    } else if t[0] == ',' {
        match spec_parse_centry(t.skip(1)) {
            Some(p) => if p.1.len() < t.len() {
                match spec_parse_centries_rest(p.1) {
                    Some(q) => Some((seq![p.0] + q.0, q.1)),
                    None => None,
                }
            } else {
                None
            },
            None => None,
        }
    } else {
        None
    }
}

pub open spec fn spec_parse_catalog(t: Seq<char>) -> Option<
    (Seq<(Seq<char>, GameView)>, Seq<char>),
> {
    match spec_parse_ch(t, '{') {
        Some(u) => if u.len() > 0 && u[0] == '}' {
            Some((Seq::empty(), u.skip(1)))
        } else {
            match spec_parse_centry(u) {
                Some(p) => match spec_parse_centries_rest(p.1) {
                    Some(q) => Some((seq![p.0] + q.0, q.1)),
                    None => None,
                },
                None => None,
            }
        },
        None => None,
    }
}

pub proof fn lemma_parse_centry_inverts(e: (Seq<char>, GameView), rest: Seq<char>)
    ensures
        spec_parse_centry(spec_emit_centry(e) + rest) == Some((e, rest)),
{
    let after_key = seq![':'] + spec_emit_game(e.1);
    seq_assoc(spec_emit_string(e.0), after_key, rest);
    seq_assoc(seq![':'], spec_emit_game(e.1), rest);
    lemma_parse_string_inverts(e.0, after_key + rest);
    lemma_parse_ch_inverts(':', spec_emit_game(e.1) + rest);
    lemma_parse_game_inverts(e.1, rest);
}

#[verifier::rlimit(100)]
pub proof fn lemma_parse_centries_rest_inverts(m: Seq<(Seq<char>, GameView)>, rest: Seq<char>)
    ensures
        spec_parse_centries_rest(spec_emit_centries_rest(m) + (seq!['}'] + rest)) == Some(
            (m, rest),
        ),
    decreases m.len(),
{
    let t = spec_emit_centries_rest(m) + (seq!['}'] + rest);
    if m.len() == 0 {
        assert(t =~= seq!['}'] + rest);
        assert(t[0] == '}');
        assert(t.skip(1) =~= rest);
        assert(m =~= Seq::<(Seq<char>, GameView)>::empty());
    } else {
        let m1 = m.skip(1);
        let tail = spec_emit_centries_rest(m1) + (seq!['}'] + rest);
        seq_assoc(spec_emit_centry(m[0]), spec_emit_centries_rest(m1), seq!['}'] + rest);
        seq_assoc(seq![','], spec_emit_centry(m[0]) + spec_emit_centries_rest(m1), seq!['}']
            + rest);
        assert(t =~= seq![','] + (spec_emit_centry(m[0]) + tail));
        assert(t[0] == ',');
        assert(t.skip(1) =~= spec_emit_centry(m[0]) + tail);
        lemma_parse_centry_inverts(m[0], tail);
        lemma_parse_centries_rest_inverts(m1, rest);
        assert(tail.len() < t.len());
        assert(seq![m[0]] + m1 =~= m);
    }
}

#[verifier::rlimit(100)]
pub proof fn lemma_parse_catalog_inverts(m: Seq<(Seq<char>, GameView)>, rest: Seq<char>)
    ensures
        spec_parse_catalog(spec_emit_catalog(m) + rest) == Some((m, rest)),
{
    let t = spec_emit_catalog(m) + rest;
    if m.len() == 0 {
        assert(t =~= seq!['{'] + (seq!['}'] + rest));
        assert(t[0] == '{');
        assert(t.skip(1) =~= seq!['}'] + rest);
        assert((seq!['}'] + rest)[0] == '}');
        assert((seq!['}'] + rest).skip(1) =~= rest);
        assert(m =~= Seq::<(Seq<char>, GameView)>::empty());
    } else {
        let m1 = m.skip(1);
        let tail = spec_emit_centries_rest(m1) + (seq!['}'] + rest);
        let u = spec_emit_centry(m[0]) + tail;
        seq_assoc(spec_emit_centries_rest(m1), seq!['}'], rest);
        seq_assoc(spec_emit_centry(m[0]), spec_emit_centries_rest(m1) + seq!['}'], rest);
        seq_assoc(seq!['{'], spec_emit_centry(m[0]) + (spec_emit_centries_rest(m1) + seq!['}']),
            rest);
        assert(t =~= seq!['{'] + u);
        assert(t[0] == '{');
        assert(t.skip(1) =~= u);
        assert(u[0] == '"');
        lemma_parse_centry_inverts(m[0], tail);
        lemma_parse_centries_rest_inverts(m1, rest);
        assert(seq![m[0]] + m1 =~= m);
    }
}

fn emit_centry_into(out: &mut Vec<char>, key: &String, game: &InstalledGame)
    ensures
        final(out)@ == old(out)@ + spec_emit_centry((key@, game@)),
{
    emit_string_into(out, key.as_str());
    out.push(':');
    emit_game_into(out, game);
    proof {
        assert(final(out)@ =~= old(out)@ + spec_emit_centry((key@, game@)));
    }
}

/// Append the catalog members after the first, entries `i..`.
fn emit_centries_rest_into(out: &mut Vec<char>, m: &Vec<(String, InstalledGame)>, i: usize)
    requires
        i <= m@.len(),
    ensures
        final(out)@ == old(out)@ + spec_emit_centries_rest(spec_catalog_view(m@).skip(i as int)),
    decreases m@.len() - i,
{
    let ghost mv = spec_catalog_view(m@);
    if i < m.len() {
        out.push(',');
        emit_centry_into(out, &m[i].0, &m[i].1);
        emit_centries_rest_into(out, m, i + 1);
        proof {
            assert(mv.skip(i as int)[0] == mv[i as int]);
            assert(mv.skip(i as int).skip(1) =~= mv.skip(i + 1 as int));
            assert(final(out)@ =~= old(out)@ + spec_emit_centries_rest(mv.skip(i as int)));
        }
    } else {
        proof {
            assert(mv.skip(i as int) =~= Seq::<(Seq<char>, GameView)>::empty());
        }
    }
}

/// Append the installed-game catalog to the output.
pub fn emit_catalog_into(out: &mut Vec<char>, m: &Vec<(String, InstalledGame)>)
    ensures
        final(out)@ == old(out)@ + spec_emit_catalog(spec_catalog_view(m@)),
{
    let ghost mv = spec_catalog_view(m@);
    out.push('{');
    if m.len() > 0 {
        emit_centry_into(out, &m[0].0, &m[0].1);
        emit_centries_rest_into(out, m, 1);
    }
    out.push('}');
    proof {
        if mv.len() == 0 {
            assert(final(out)@ =~= old(out)@ + spec_emit_catalog(mv));
        } else {
            assert(mv[0] == (m@[0].0@, m@[0].1@));
            assert(final(out)@ =~= old(out)@ + spec_emit_catalog(mv));
        }
    }
}

fn parse_centry_at(t: &Vec<char>, i: usize) -> (r: Option<((String, InstalledGame), usize)>)
    requires
        i <= t@.len(),
    ensures
        match spec_parse_centry(t@.skip(i as int)) {
            Some(p) => match r {
                Some(q) => (q.0.0@, q.0.1@) == p.0 && i <= q.1 <= t@.len() && t@.skip(q.1 as int)
                    == p.1,
                None => false,
            },
            None => r is None,
        },
{
    match parse_string_at(t, i) {
        Some(k) => match parse_ch_at(t, k.1, ':') {
            Some(j2) => match parse_game_at(t, j2) {
                Some(g) => Some(((k.0, g.0), g.1)),
                None => None,
            },
            None => None,
        },
        None => None,
    }
}

#[verifier::rlimit(100)]
fn parse_centries_rest_at(t: &Vec<char>, i: usize) -> (r: Option<
    (Vec<(String, InstalledGame)>, usize),
>)
    requires
        i <= t@.len(),
    ensures
        match spec_parse_centries_rest(t@.skip(i as int)) {
            Some(p) => match r {
                Some(q) => spec_catalog_view(q.0@) == p.0 && i <= q.1 <= t@.len() && t@.skip(
                    q.1 as int,
                ) == p.1,
                None => false,
            },
            None => r is None,
        },
{
    let mut acc: Vec<(String, InstalledGame)> = Vec::new();
    let mut j: usize = i;
    loop
        invariant
            i <= j <= t@.len(),
            spec_parse_centries_rest(t@.skip(i as int)) == (match spec_parse_centries_rest(
                t@.skip(j as int),
            ) {
                Some(p) => Some((spec_catalog_view(acc@) + p.0, p.1)),
                None => None::<(Seq<(Seq<char>, GameView)>, Seq<char>)>,
            }),
        decreases t@.len() - j,
    {
        let ghost u = t@.skip(j as int);
        proof {
            assert(u.len() == t@.len() - j);
        }
        if j >= t.len() {
            return None;
        }
        let c = t[j];
        proof {
            assert(u[0] == t@[j as int]);
        }
        if c == '}' {
            proof {
                assert(u.skip(1) =~= t@.skip(j + 1 as int));
                assert(spec_catalog_view(acc@) + Seq::<(Seq<char>, GameView)>::empty()
                    =~= spec_catalog_view(acc@));
            }
            return Some((acc, j + 1));
        } else if c == ',' {
            proof {
                assert(u.skip(1) =~= t@.skip(j + 1 as int));
            }
            match parse_centry_at(t, j + 1) {
                Some(q) => {
                    proof {
                        assert(t@.skip(q.1 as int).len() < u.len());
                        match spec_parse_centries_rest(t@.skip(q.1 as int)) {
                            Some(pp) => {
                                assert(spec_catalog_view(acc@.push(q.0)) =~= spec_catalog_view(
                                    acc@,
                                ) + seq![(q.0.0@, q.0.1@)]);
                                assert((spec_catalog_view(acc@) + seq![(q.0.0@, q.0.1@)]) + pp.0
                                    =~= spec_catalog_view(acc@) + (seq![(q.0.0@, q.0.1@)]
                                    + pp.0));
                            },
                            None => {},
                        }
                    }
                    acc.push(q.0);
                    j = q.1;
                },
                None => {
                    return None;
                },
            }
        } else {
            return None;
        }
    }
}

/// Read the installed-game catalog at position `i`.
pub fn parse_catalog_at(t: &Vec<char>, i: usize) -> (r: Option<
    (Vec<(String, InstalledGame)>, usize),
>)
    requires
        i <= t@.len(),
    ensures
        match spec_parse_catalog(t@.skip(i as int)) {
            Some(p) => match r {
                Some(q) => spec_catalog_view(q.0@) == p.0 && i <= q.1 <= t@.len() && t@.skip(
                    q.1 as int,
                ) == p.1,
                None => false,
            },
            None => r is None,
        },
{
    let j = match parse_ch_at(t, i, '{') {
        Some(j) => j,
        None => {
            return None;
        },
    };
    proof {
        if j < t@.len() {
            assert(t@.skip(j as int)[0] == t@[j as int]);
        }
    }
    if j < t.len() && t[j] == '}' {
        proof {
            assert(t@.skip(j as int).skip(1) =~= t@.skip(j + 1 as int));
            assert(spec_catalog_view(Seq::<(String, InstalledGame)>::empty()) =~= Seq::<
                (Seq<char>, GameView),
            >::empty());
        }
        return Some((Vec::new(), j + 1));
    }
    match parse_centry_at(t, j) {
        Some(q) => match parse_centries_rest_at(t, q.1) {
            Some(rr) => {
                let mut v = rr.0;
                v.insert(0, q.0);
                proof {
                    assert(spec_catalog_view(v@) =~= seq![(q.0.0@, q.0.1@)] + spec_catalog_view(
                        rr.0@,
                    ));
                }
                Some((v, rr.1))
            },
            None => None,
        },
        None => None,
    }
}

/// The persisted part of a settings record: what the config file holds.
pub struct StoredSettings {
    pub wineprefixes_directory: String,
    pub components_directory: String,
    pub temp_directory: String,
    pub cache_directory: String,
    pub installed_games: Vec<(String, InstalledGame)>,
}

pub struct StoredView {
    pub wineprefixes_directory: Seq<char>,
    pub components_directory: Seq<char>,
    pub temp_directory: Seq<char>,
    pub cache_directory: Seq<char>,
    pub installed_games: Seq<(Seq<char>, GameView)>,
}

impl View for StoredSettings {
    type V = StoredView;

    open spec fn view(&self) -> StoredView {
        StoredView {
            wineprefixes_directory: self.wineprefixes_directory@,
            components_directory: self.components_directory@,
            temp_directory: self.temp_directory@,
            cache_directory: self.cache_directory@,
            installed_games: spec_catalog_view(self.installed_games@),
        }
    }
}

/// The whole config document: the four directories, then the catalog.
#[verifier::opaque]
pub open spec fn spec_emit_doc(v: StoredView) -> Seq<char> {
    "{\"wineprefixes_directory\":"@ + (spec_emit_string(v.wineprefixes_directory) + (
    ",\"components_directory\":"@ + (spec_emit_string(v.components_directory) + (
    ",\"temp_directory\":"@ + (spec_emit_string(v.temp_directory) + (",\"cache_directory\":"@ + (
    spec_emit_string(v.cache_directory) + (",\"installed_games\":"@ + (spec_emit_catalog(
        v.installed_games,
    ) + seq!['}'])))))))))
}

/// A document whose catalog member is absent falls back to an empty
/// catalog; the four directories themselves must be present.
#[verifier::opaque]
pub open spec fn spec_parse_doc(t: Seq<char>) -> Option<(StoredView, Seq<char>)> {
    match spec_parse_key_string(t, "{\"wineprefixes_directory\":"@) {
        Some(p1) => match spec_parse_key_string(p1.1, ",\"components_directory\":"@) {
            Some(p2) => match spec_parse_key_string(p2.1, ",\"temp_directory\":"@) {
                Some(p3) => match spec_parse_key_string(p3.1, ",\"cache_directory\":"@) {
                    Some(p4) => match spec_parse_ch(p4.1, '}') {
                        Some(rest) => Some(
                            (
                                StoredView {
                                    wineprefixes_directory: p1.0,
                                    components_directory: p2.0,
                                    temp_directory: p3.0,
                                    cache_directory: p4.0,
                                    installed_games: Seq::empty(),
                                },
                                rest,
                            ),
                        ),
                        None => match spec_parse_lit(p4.1, ",\"installed_games\":"@) {
                            Some(u5) => match spec_parse_catalog(u5) {
                                Some(p5) => match spec_parse_ch(p5.1, '}') {
                                    Some(rest) => Some(
                                        (
                                            StoredView {
                                                wineprefixes_directory: p1.0,
                                                components_directory: p2.0,
                                                temp_directory: p3.0,
                                                cache_directory: p4.0,
                                                installed_games: p5.0,
                                            },
                                            rest,
                                        ),
                                    ),
                                    None => None,
                                },
                                None => None,
                            },
                            None => None,
                        },
                    },
                    None => None,
                },
                None => None,
            },
            None => None,
        },
        None => None,
    }
}

/// Decoding a config document inverts encoding, whatever follows it.
pub proof fn lemma_parse_doc_inverts(v: StoredView, rest: Seq<char>)
    ensures
        spec_parse_doc(spec_emit_doc(v) + rest) == Some((v, rest)),
{
    reveal(spec_emit_doc);
    reveal(spec_parse_doc);
    let e1 = spec_emit_string(v.wineprefixes_directory);
    let e2 = spec_emit_string(v.components_directory);
    let e3 = spec_emit_string(v.temp_directory);
    let e4 = spec_emit_string(v.cache_directory);
    let c5 = spec_emit_catalog(v.installed_games);
    let z5 = seq!['}'];
    let t5 = ",\"installed_games\":"@ + (c5 + z5);
    let t4 = ",\"cache_directory\":"@ + (e4 + t5);
    let t3 = ",\"temp_directory\":"@ + (e3 + t4);
    let t2 = ",\"components_directory\":"@ + (e2 + t3);
    let t1 = "{\"wineprefixes_directory\":"@ + (e1 + t2);
    assert(spec_emit_doc(v) == t1);
    seq_assoc("{\"wineprefixes_directory\":"@, e1 + t2, rest);
    seq_assoc(e1, t2, rest);
    lemma_parse_key_string_inverts(
        "{\"wineprefixes_directory\":"@,
        v.wineprefixes_directory,
        t2 + rest,
    );
    seq_assoc(",\"components_directory\":"@, e2 + t3, rest);
    seq_assoc(e2, t3, rest);
    lemma_parse_key_string_inverts(
        ",\"components_directory\":"@,
        v.components_directory,
        t3 + rest,
    );
    seq_assoc(",\"temp_directory\":"@, e3 + t4, rest);
    seq_assoc(e3, t4, rest);
    lemma_parse_key_string_inverts(",\"temp_directory\":"@, v.temp_directory, t4 + rest);
    seq_assoc(",\"cache_directory\":"@, e4 + t5, rest);
    seq_assoc(e4, t5, rest);
    lemma_parse_key_string_inverts(",\"cache_directory\":"@, v.cache_directory, t5 + rest);
    reveal_strlit(",\"installed_games\":");
    assert((t5 + rest)[0] == ',');
    seq_assoc(",\"installed_games\":"@, c5 + z5, rest);
    seq_assoc(c5, z5, rest);
    lemma_parse_lit_inverts(",\"installed_games\":"@, c5 + (z5 + rest));
    lemma_parse_catalog_inverts(v.installed_games, z5 + rest);
    lemma_parse_ch_inverts('}', rest);
}

/// A document emission, flattened onto an existing prefix.
proof fn lemma_emit_doc_flat(o: Seq<char>, v: StoredView)
    ensures
        o + spec_emit_doc(v) == o + "{\"wineprefixes_directory\":"@ + spec_emit_string(
            v.wineprefixes_directory,
        ) + ",\"components_directory\":"@ + spec_emit_string(v.components_directory)
            + ",\"temp_directory\":"@ + spec_emit_string(v.temp_directory)
            + ",\"cache_directory\":"@ + spec_emit_string(v.cache_directory)
            + ",\"installed_games\":"@ + spec_emit_catalog(v.installed_games) + seq!['}'],
{
    reveal(spec_emit_doc);
    let e1 = spec_emit_string(v.wineprefixes_directory);
    let e2 = spec_emit_string(v.components_directory);
    let e3 = spec_emit_string(v.temp_directory);
    let e4 = spec_emit_string(v.cache_directory);
    let c5 = spec_emit_catalog(v.installed_games);
    let z5 = seq!['}'];
    let t5 = ",\"installed_games\":"@ + (c5 + z5);
    let t4 = ",\"cache_directory\":"@ + (e4 + t5);
    let t3 = ",\"temp_directory\":"@ + (e3 + t4);
    let t2 = ",\"components_directory\":"@ + (e2 + t3);
    let t1 = "{\"wineprefixes_directory\":"@ + (e1 + t2);
    assert(spec_emit_doc(v) == t1);
    let a1 = o + "{\"wineprefixes_directory\":"@;
    let a2 = a1 + e1;
    let a3 = a2 + ",\"components_directory\":"@;
    let a4 = a3 + e2;
    let a5 = a4 + ",\"temp_directory\":"@;
    let a6 = a5 + e3;
    let a7 = a6 + ",\"cache_directory\":"@;
    let a8 = a7 + e4;
    let a9 = a8 + ",\"installed_games\":"@;
    let a10 = a9 + c5;
    seq_assoc(o, "{\"wineprefixes_directory\":"@, e1 + t2);
    seq_assoc(a1, e1, t2);
    assert(o + t1 == a2 + t2);
    seq_assoc(a2, ",\"components_directory\":"@, e2 + t3);
    seq_assoc(a3, e2, t3);
    assert(a2 + t2 == a4 + t3);
    seq_assoc(a4, ",\"temp_directory\":"@, e3 + t4);
    seq_assoc(a5, e3, t4);
    assert(a4 + t3 == a6 + t4);
    seq_assoc(a6, ",\"cache_directory\":"@, e4 + t5);
    seq_assoc(a7, e4, t5);
    assert(a6 + t4 == a8 + t5);
    seq_assoc(a8, ",\"installed_games\":"@, c5 + z5);
    seq_assoc(a9, c5, z5);
    assert(a8 + t5 == a10 + z5);
}

/// Append the whole config document for the given stored fields.
pub fn emit_doc_into(
    out: &mut Vec<char>,
    wineprefixes_directory: &String,
    components_directory: &String,
    temp_directory: &String,
    cache_directory: &String,
    installed_games: &Vec<(String, InstalledGame)>,
)
    ensures
        final(out)@ == old(out)@ + spec_emit_doc(
            StoredView {
                wineprefixes_directory: wineprefixes_directory@,
                components_directory: components_directory@,
                temp_directory: temp_directory@,
                cache_directory: cache_directory@,
                installed_games: spec_catalog_view(installed_games@),
            },
        ),
{
    push_lit(out, "{\"wineprefixes_directory\":");
    emit_string_into(out, wineprefixes_directory.as_str());
    push_lit(out, ",\"components_directory\":");
    emit_string_into(out, components_directory.as_str());
    push_lit(out, ",\"temp_directory\":");
    emit_string_into(out, temp_directory.as_str());
    push_lit(out, ",\"cache_directory\":");
    emit_string_into(out, cache_directory.as_str());
    push_lit(out, ",\"installed_games\":");
    emit_catalog_into(out, installed_games);
    let ghost pre = out@;
    out.push('}');
    proof {
        assert(out@ =~= pre + seq!['}']);
        lemma_emit_doc_flat(
            old(out)@,
            StoredView {
                wineprefixes_directory: wineprefixes_directory@,
                components_directory: components_directory@,
                temp_directory: temp_directory@,
                cache_directory: cache_directory@,
                installed_games: spec_catalog_view(installed_games@),
            },
        );
    }
}

/// Read a whole config document at position `i`.
pub fn parse_doc_at(t: &Vec<char>, i: usize) -> (r: Option<(StoredSettings, usize)>)
    requires
        i <= t@.len(),
    ensures
        match spec_parse_doc(t@.skip(i as int)) {
            Some(p) => match r {
                Some(q) => q.0@ == p.0 && i <= q.1 <= t@.len() && t@.skip(q.1 as int) == p.1,
                None => false,
            },
            None => r is None,
        },
{
    proof {
        reveal(spec_parse_doc);
    }
    let j1 = match parse_lit_at(t, i, "{\"wineprefixes_directory\":") {
        Some(j) => j,
        None => {
            return None;
        },
    };
    let p1 = match parse_string_at(t, j1) {
        Some(p) => p,
        None => {
            return None;
        },
    };
    let j2 = match parse_lit_at(t, p1.1, ",\"components_directory\":") {
        Some(j) => j,
        None => {
            return None;
        },
    };
    let p2 = match parse_string_at(t, j2) {
        Some(p) => p,
        None => {
            return None;
        },
    };
    let j3 = match parse_lit_at(t, p2.1, ",\"temp_directory\":") {
        Some(j) => j,
        None => {
            return None;
        },
    };
    let p3 = match parse_string_at(t, j3) {
        Some(p) => p,
        None => {
            return None;
        },
    };
    let j4 = match parse_lit_at(t, p3.1, ",\"cache_directory\":") {
        Some(j) => j,
        None => {
            return None;
        },
    };
    let p4 = match parse_string_at(t, j4) {
        Some(p) => p,
        None => {
            return None;
        },
    };
    match parse_ch_at(t, p4.1, '}') {
        Some(j) => {
            let stored = StoredSettings {
                wineprefixes_directory: p1.0,
                components_directory: p2.0,
                temp_directory: p3.0,
                cache_directory: p4.0,
                installed_games: Vec::new(),
            };
            proof {
                match spec_parse_doc(t@.skip(i as int)) {
                    Some(p) => {
                        assert(stored@.installed_games =~= p.0.installed_games);
                        assert(stored@ == p.0);
                    },
                    None => {},
                }
            }
            return Some((stored, j));
        },
        None => (),
    }
    let j5 = match parse_lit_at(t, p4.1, ",\"installed_games\":") {
        Some(j) => j,
        None => {
            return None;
        },
    };
    let p5 = match parse_catalog_at(t, j5) {
        Some(p) => p,
        None => {
            return None;
        },
    };
    let jz = match parse_ch_at(t, p5.1, '}') {
        Some(j) => j,
        None => {
            return None;
        },
    };
    let stored = StoredSettings {
        wineprefixes_directory: p1.0,
        components_directory: p2.0,
        temp_directory: p3.0,
        cache_directory: p4.0,
        installed_games: p5.0,
    };
    proof {
        match spec_parse_doc(t@.skip(i as int)) {
            Some(p) => {
                assert(stored@.installed_games =~= p.0.installed_games);
                assert(stored@ == p.0);
            },
            None => {},
        }
    }
    Some((stored, jz))
}

} // verus!
