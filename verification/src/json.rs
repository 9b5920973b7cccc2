//! Lexical layer of the JSON wire format.
//!
//! The session protocol exchanges JSON text frames.  This module defines the
//! JSON grammar this library accepts as specification functions over
//! `Seq<char>` — whitespace, string literals with escapes, number tokens, and
//! whole values of arbitrary nesting — together with executable parsing
//! functions proved to follow that grammar exactly.
//!
//! Numbers are read exactly when they are plain integers of at most 18
//! decimal digits; any other syntactically valid number (fraction, exponent,
//! or longer) is recognised but carries no value here.
use vstd::prelude::*;

verus! {

/// JSON insignificant whitespace.
pub open spec fn is_ws_char(c: char) -> bool {
    c == ' ' || c == '\n' || c == '\r' || c == '\t'
}

/// The first position at or after `i` holding no whitespace.
pub open spec fn sp_ws(s: Seq<char>, i: int) -> int
    decreases s.len() - i,
{
    if 0 <= i && i < s.len() && is_ws_char(s[i]) {
        sp_ws(s, i + 1)
    } else {
        i
    }
}

/// A decimal digit.
pub open spec fn is_digit(c: char) -> bool {
    48 <= c as u32 && c as u32 <= 57
}

/// The value of a decimal digit.
pub open spec fn digit_val(c: char) -> int {
    c as u32 - 48
}

/// The first position at or after `i` holding no decimal digit.
pub open spec fn sp_digits_end(s: Seq<char>, i: int) -> int
    decreases s.len() - i,
{
    if 0 <= i && i < s.len() && is_digit(s[i]) {
        sp_digits_end(s, i + 1)
    } else {
        i
    }
}

/// The value of the decimal digits `s[from..to]`.
pub open spec fn sp_digits_val(s: Seq<char>, from: int, to: int) -> int
    decreases to - from,
{
    if from < to {
        sp_digits_val(s, from, to - 1) * 10 + digit_val(s[to - 1])
    } else {
        0
    }
}

/// The `k`-th power of ten.
pub open spec fn pow10(k: nat) -> int
    decreases k,
{
    if k == 0 {
        1
    } else {
        10 * pow10((k - 1) as nat)
    }
}

/// Digits are bounded by a power of ten in their count.
pub proof fn lemma_digits_val_bound(s: Seq<char>, from: int, to: int)
    requires
        from <= to,
        forall|j: int| from <= j < to ==> is_digit(#[trigger] s[j]),
    ensures
        0 <= sp_digits_val(s, from, to) < pow10((to - from) as nat),
    decreases to - from,
{
    if from < to {
        lemma_digits_val_bound(s, from, to - 1);
        assert(digit_val(s[to - 1]) <= 9);
        assert(sp_digits_val(s, from, to - 1) * 10 + 9 < pow10(((to - from - 1) + 1) as nat))
            by (nonlinear_arith)
            requires
                sp_digits_val(s, from, to - 1) < pow10((to - from - 1) as nat),
                0 <= sp_digits_val(s, from, to - 1),
                pow10(((to - from - 1) + 1) as nat) == 10 * pow10((to - from - 1) as nat),
        ;
    }
}

/// End of the fraction-and-exponent tail of a number token starting (with
/// its digits already consumed) at `i`; `None` for a malformed tail, and
/// `Some((plain, end))` otherwise, where `plain` says the token was a plain
/// integer with no tail.
pub open spec fn sp_num_tail(s: Seq<char>, i: int) -> Option<(bool, int)> {
    if 0 <= i && i < s.len() && s[i] == '.' {
        // fraction: at least one digit, then possibly an exponent
        let fend = sp_digits_end(s, i + 1);
        if fend == i + 1 {
            None
        } else {
            match sp_exp_tail(s, fend) {
                Some(e) => Some((false, e)),
                None => None,
            }
        }
    } else {
        match sp_exp_tail(s, i) {
            Some(e) => if e == i {
                Some((true, i))
            } else {
                Some((false, e))
            },
            None => None,
        }
    }
}

/// End of an optional exponent part at `i`; `None` when an exponent starts
/// but is malformed.
pub open spec fn sp_exp_tail(s: Seq<char>, i: int) -> Option<int> {
    if 0 <= i && i < s.len() && (s[i] == 'e' || s[i] == 'E') {
        let j = if i + 1 < s.len() && (s[i + 1] == '+' || s[i + 1] == '-') {
            i + 2
        } else {
            i + 1
        };
        let dend = sp_digits_end(s, j);
        if dend == j {
            None
        } else {
            Some(dend)
        }
    } else {
        Some(i)
    }
}

/// A whole number token at `i`: `None` if malformed, otherwise its end
/// position, and its value when it is a plain integer of at most 18 digits.
pub open spec fn sp_number(s: Seq<char>, i: int) -> Option<(Option<int>, int)> {
    let neg = 0 <= i && i < s.len() && s[i] == '-';
    let d0 = if neg {
        i + 1
    } else {
        i
    };
    if !(0 <= d0 && d0 < s.len() && is_digit(s[d0])) {
        None
    } else {
        let dend = sp_digits_end(s, d0);
        if s[d0] == '0' && dend > d0 + 1 {
            None
        } else {
            match sp_num_tail(s, dend) {
                None => None,
                Some((plain, nend)) => if !plain {
                    Some((None, nend))
                } else if dend - d0 > 18 {
                    Some((None, dend))
                } else {
                    let v = sp_digits_val(s, d0, dend);
                    Some((Some(if neg { -v } else { v }), dend))
                },
            }
        }
    }
}

/// A hexadecimal digit, in either case.
pub open spec fn is_hex_digit(c: char) -> bool {
    is_digit(c) || (97 <= c as u32 && c as u32 <= 102) || (65 <= c as u32 && c as u32 <= 70)
}

/// The value of one hexadecimal digit, in either case; zero elsewhere.
pub open spec fn hex_val(c: char) -> int {
    if is_digit(c) {
        c as u32 - 48
    } else if 97 <= c as u32 && c as u32 <= 102 {
        c as u32 - 87
    } else if 65 <= c as u32 && c as u32 <= 70 {
        c as u32 - 55
    } else {
        0
    }
}

/// The body of a string literal from `i` (just after the opening quote):
/// the decoded characters and the position after the closing quote.
///
/// Escapes are the JSON ones; `\uXXXX` is accepted for Unicode scalar
/// values only (surrogates are rejected), and unescaped control characters
/// are rejected.
pub open spec fn sp_string_body(s: Seq<char>, i: int) -> Option<(Seq<char>, int)>
    decreases s.len() - i,
{
    if !(0 <= i && i < s.len()) {
        None
    } else {
        let c = s[i];
        if c == '"' {
            Some((Seq::empty(), i + 1))
        } else if c == '\\' {
            if i + 1 >= s.len() {
                None
            } else {
                let e = s[i + 1];
                if e == 'u' {
                    if i + 6 <= s.len() && is_hex_digit(s[i + 2]) && is_hex_digit(s[i + 3])
                        && is_hex_digit(s[i + 4]) && is_hex_digit(s[i + 5]) {
                        let code = hex_val(s[i + 2]) * 4096 + hex_val(s[i + 3]) * 256 + hex_val(
                            s[i + 4],
                        ) * 16 + hex_val(s[i + 5]);
                        if 0xD800 <= code && code <= 0xDFFF {
                            None
                        } else {
                            match sp_string_body(s, i + 6) {
                                Some((rest, j)) => Some(
                                    (seq![(code as u32) as char] + rest, j),
                                ),
                                None => None,
                            }
                        }
                    } else {
                        None
                    }
                } else {
                    match sp_escape_char(e) {
                        Some(d) => match sp_string_body(s, i + 2) {
                            Some((rest, j)) => Some((seq![d] + rest, j)),
                            None => None,
                        },
                        None => None,
                    }
                }
            }
        } else if (c as u32) < 32 {
            None
        } else {
            match sp_string_body(s, i + 1) {
                Some((rest, j)) => Some((seq![c] + rest, j)),
                None => None,
            }
        }
    }
}

/// The character denoted by a single-letter escape.
pub open spec fn sp_escape_char(e: char) -> Option<char> {
    if e == '"' {
        Some('"')
    } else if e == '\\' {
        Some('\\')
    } else if e == '/' {
        Some('/')
    } else if e == 'b' {
        Some('\u{0008}')
    } else if e == 'f' {
        Some('\u{000C}')
    } else if e == 'n' {
        Some('\n')
    } else if e == 'r' {
        Some('\r')
    } else if e == 't' {
        Some('\t')
    } else {
        None
    }
}

/// End position of any JSON value starting exactly at `i`, or `None` if no
/// value of this grammar starts there.
pub open spec fn sp_skip_value(s: Seq<char>, i: int) -> Option<int>
    decreases s.len() - i, 0int,
{
    if !(0 <= i && i < s.len()) {
        None
    } else {
        let c = s[i];
        if c == 'n' {
            if i + 4 <= s.len() && s[i + 1] == 'u' && s[i + 2] == 'l' && s[i + 3] == 'l' {
                Some(i + 4)
            } else {
                None
            }
        } else if c == 't' {
            if i + 4 <= s.len() && s[i + 1] == 'r' && s[i + 2] == 'u' && s[i + 3] == 'e' {
                Some(i + 4)
            } else {
                None
            }
        } else if c == 'f' {
            if i + 5 <= s.len() && s[i + 1] == 'a' && s[i + 2] == 'l' && s[i + 3] == 's' && s[i + 4]
                == 'e' {
                Some(i + 5)
            } else {
                None
            }
        } else if c == '"' {
            match sp_string_body(s, i + 1) {
                Some((_t, j)) => Some(j),
                None => None,
            }
        } else if c == '-' || is_digit(c) {
            match sp_number(s, i) {
                Some((_v, j)) => Some(j),
                None => None,
            }
        } else if c == '[' {
            let k = sp_ws(s, i + 1);
            if !(i < k && k <= s.len()) {
                None
            } else if k < s.len() && s[k] == ']' {
                Some(k + 1)
            } else {
                sp_skip_items(s, k)
            }
        } else if c == '{' {
            let k = sp_ws(s, i + 1);
            if !(i < k && k <= s.len()) {
                None
            } else if k < s.len() && s[k] == '}' {
                Some(k + 1)
            } else {
                sp_skip_members(s, k)
            }
        } else {
            None
        }
    }
}

/// End position of a non-empty comma-separated value list starting at `i`,
/// including its closing `]`.
pub open spec fn sp_skip_items(s: Seq<char>, i: int) -> Option<int>
    decreases s.len() - i, 1int,
{
    match sp_skip_value(s, i) {
        None => None,
        Some(j) => {
            let k = sp_ws(s, j);
            if !(i < j && j <= k && k <= s.len()) {
                None
            } else if k < s.len() && s[k] == ',' {
                let m = sp_ws(s, k + 1);
                if i < m && m <= s.len() {
                    sp_skip_items(s, m)
                } else {
                    None
                }
            } else if k < s.len() && s[k] == ']' {
                Some(k + 1)
            } else {
                None
            }
        },
    }
}

/// End position of a non-empty object member list starting at `i`,
/// including its closing `}`.
pub open spec fn sp_skip_members(s: Seq<char>, i: int) -> Option<int>
    decreases s.len() - i, 1int,
{
    if !(0 <= i && i < s.len() && s[i] == '"') {
        None
    } else {
        match sp_string_body(s, i + 1) {
            None => None,
            Some((_key, j)) => {
                let k = sp_ws(s, j);
                if !(i < j && j <= k && k <= s.len()) {
                    None
                } else if k < s.len() && s[k] == ':' {
                    let m = sp_ws(s, k + 1);
                    if !(i < m && m <= s.len()) {
                        None
                    } else {
                        match sp_skip_value(s, m) {
                            None => None,
                            Some(p) => {
                                let q = sp_ws(s, p);
                                if !(m < p && p <= q && q <= s.len()) {
                                    None
                                } else if q < s.len() && s[q] == ',' {
                                    let r = sp_ws(s, q + 1);
                                    if i < r && r <= s.len() {
                                        sp_skip_members(s, r)
                                    } else {
                                        None
                                    }
                                } else if q < s.len() && s[q] == '}' {
                                    Some(q + 1)
                                } else {
                                    None
                                }
                            },
                        }
                    }
                } else {
                    None
                }
            },
        }
    }
}

/// Relies on std's `char::from_u32`: `Some` exactly on Unicode scalar values
/// (code points outside the surrogate range and at most 0x10FFFF), holding
/// the character with that code point.
#[verifier::external_body]
fn char_from_code(code: u32) -> (r: Option<char>)
    ensures
        r matches Some(c) ==> c as u32 == code,
        r is Some <==> (code < 0xD800 || (0xE000 <= code && code <= 0x10FFFF)),
{
    char::from_u32(code)
}

/// Executable twin of [`sp_ws`].
pub fn skip_ws(s: &[char], i: usize) -> (j: usize)
    requires
        i <= s@.len(),
    ensures
        j as int == sp_ws(s@, i as int),
        i <= j <= s@.len(),
{
    let mut j = i;
    while j < s.len() && (s[j] == ' ' || s[j] == '\n' || s[j] == '\r' || s[j] == '\t')
        invariant
            i <= j <= s@.len(),
            sp_ws(s@, i as int) == sp_ws(s@, j as int),
        decreases s@.len() - j,
    {
        j = j + 1;
    }
    j
}

/// Executable twin of [`sp_digits_end`].
fn digits_end(s: &[char], i: usize) -> (j: usize)
    requires
        i <= s@.len(),
    ensures
        j as int == sp_digits_end(s@, i as int),
        i <= j <= s@.len(),
{
    let mut j = i;
    while j < s.len() && 48 <= s[j] as u32 && s[j] as u32 <= 57
        invariant
            i <= j <= s@.len(),
            sp_digits_end(s@, i as int) == sp_digits_end(s@, j as int),
        decreases s@.len() - j,
    {
        j = j + 1;
    }
    j
}

/// Executable twin of [`sp_digits_val`] for runs of at most 18 digits.
fn digits_val_i64(s: &[char], from: usize, to: usize) -> (v: i64)
    requires
        from <= to <= s@.len(),
        to - from <= 18,
        forall|j: int| from <= j < to ==> is_digit(#[trigger] s@[j]),
    ensures
        v as int == sp_digits_val(s@, from as int, to as int),
        0 <= v,
{
    let mut v: i64 = 0;
    let mut j = from;
    while j < to
        invariant
            from <= j <= to <= s@.len(),
            to - from <= 18,
            forall|k: int| from <= k < to ==> is_digit(#[trigger] s@[k]),
            v as int == sp_digits_val(s@, from as int, j as int),
            0 <= v,
        decreases to - j,
    {
        proof {
            lemma_digits_val_bound(s@, from as int, j as int);
            assert(pow10(18) == 1000000000000000000) by {
                reveal_with_fuel(pow10, 19);
            }
            lemma_pow10_mono((j - from) as nat, 17);
        }
        let d = (s[j] as u32 - 48) as i64;
        v = v * 10 + d;
        j = j + 1;
    }
    v
}

/// Powers of ten grow with the exponent.
proof fn lemma_pow10_mono(a: nat, b: nat)
    requires
        a <= b,
    ensures
        pow10(a) <= pow10(b),
        pow10(a) >= 1,
    decreases b,
{
    if a < b {
        lemma_pow10_mono(a, (b - 1) as nat);
        assert(pow10(b) == 10 * pow10((b - 1) as nat));
    } else if b == 0 {
    } else {
        lemma_pow10_mono((a - 1) as nat, (b - 1) as nat);
    }
}

/// Executable twin of [`sp_exp_tail`].
fn exp_tail(s: &[char], i: usize) -> (r: Option<usize>)
    requires
        i <= s@.len(),
    ensures
        match r {
            Some(j) => sp_exp_tail(s@, i as int) == Some(j as int) && i <= j <= s@.len(),
            None => sp_exp_tail(s@, i as int) is None,
        },
{
    if i < s.len() && (s[i] == 'e' || s[i] == 'E') {
        let j = if i + 1 < s.len() && (s[i + 1] == '+' || s[i + 1] == '-') {
            i + 2
        } else {
            i + 1
        };
        let dend = digits_end(s, j);
        if dend == j {
            None
        } else {
            Some(dend)
        }
    } else {
        Some(i)
    }
}

/// Executable twin of [`sp_num_tail`].
fn num_tail(s: &[char], i: usize) -> (r: Option<(bool, usize)>)
    requires
        i <= s@.len(),
    ensures
        match r {
            Some((plain, j)) => sp_num_tail(s@, i as int) == Some((plain, j as int)) && i <= j
                <= s@.len(),
            None => sp_num_tail(s@, i as int) is None,
        },
{
    if i < s.len() && s[i] == '.' {
        let fend = digits_end(s, i + 1);
        if fend == i + 1 {
            None
        } else {
            match exp_tail(s, fend) {
                Some(e) => Some((false, e)),
                None => None,
            }
        }
    } else {
        match exp_tail(s, i) {
            Some(e) => if e == i {
                Some((true, i))
            } else {
                Some((false, e))
            },
            None => None,
        }
    }
}

/// Executable twin of [`sp_number`]: the end of the token, and its value
/// when it is a plain integer of at most 18 digits.
pub fn parse_number(s: &[char], i: usize) -> (r: Option<(Option<i64>, usize)>)
    requires
        i <= s@.len(),
    ensures
        match r {
            Some((v, j)) => {
                &&& sp_number(s@, i as int) matches Some((sv, sj)) && sj == j as int && (match v {
                    Some(n) => sv == Some(n as int),
                    None => sv is None,
                })
                &&& i < j <= s@.len()
            },
            None => sp_number(s@, i as int) is None,
        },
{
    let neg = i < s.len() && s[i] == '-';
    let d0 = if neg {
        i + 1
    } else {
        i
    };
    if !(d0 < s.len() && 48 <= s[d0] as u32 && s[d0] as u32 <= 57) {
        return None;
    }
    let dend = digits_end(s, d0);
    proof {
        lemma_digits_end_digits(s@, d0 as int);
        assert(sp_digits_end(s@, d0 as int) == sp_digits_end(s@, d0 as int + 1));
        lemma_digits_end_digits(s@, d0 as int + 1);
    }
    if s[d0] == '0' && dend > d0 + 1 {
        return None;
    }
    match num_tail(s, dend) {
        None => None,
        Some((plain, nend)) => {
            if !plain {
                Some((None, nend))
            } else if dend - d0 > 18 {
                Some((None, dend))
            } else {
                let v = digits_val_i64(s, d0, dend);
                if neg {
                    Some((Some(-v), dend))
                } else {
                    Some((Some(v), dend))
                }
            }
        },
    }
}

/// Everything up to [`sp_digits_end`] is a digit.
proof fn lemma_digits_end_digits(s: Seq<char>, i: int)
    requires
        0 <= i,
    ensures
        forall|j: int| i <= j < sp_digits_end(s, i) ==> is_digit(#[trigger] s[j]),
        i <= sp_digits_end(s, i),
    decreases s.len() - i,
{
    if i < s.len() && is_digit(s[i]) {
        lemma_digits_end_digits(s, i + 1);
    }
}

/// Executable twin of [`sp_string_body`]: the decoded characters of a string
/// literal whose opening quote sits just before `i`.
pub fn parse_string_body(s: &[char], i: usize) -> (r: Option<(Vec<char>, usize)>)
    requires
        i <= s@.len(),
    ensures
        match r {
            Some((t, j)) => sp_string_body(s@, i as int) == Some((t@, j as int)) && i < j
                <= s@.len(),
            None => sp_string_body(s@, i as int) is None,
        },
{
    let mut acc: Vec<char> = Vec::new();
    let mut cur = i;
    proof {
        if let Some((rest, j)) = sp_string_body(s@, i as int) {
            assert(Seq::<char>::empty() + rest =~= rest);
        }
    }
    loop
        invariant
            i <= cur <= s@.len(),
            match sp_string_body(s@, cur as int) {
                Some((rest, j)) => sp_string_body(s@, i as int) == Some((acc@ + rest, j)),
                None => sp_string_body(s@, i as int) is None,
            },
        decreases s@.len() - cur,
    {
        if cur >= s.len() {
            return None;
        }
        let c = s[cur];
        if c == '"' {
            proof {
                assert(acc@ + Seq::<char>::empty() =~= acc@);
            }
            return Some((acc, cur + 1));
        } else if c == '\\' {
            if cur + 1 >= s.len() {
                return None;
            }
            let e = s[cur + 1];
            if e == 'u' {
                if !(s.len() - cur >= 6 && is_hex_char(s[cur + 2]) && is_hex_char(s[cur + 3])
                    && is_hex_char(s[cur + 4]) && is_hex_char(s[cur + 5])) {
                    return None;
                }
                let code: u32 = hex_char_val(s[cur + 2]) * 4096 + hex_char_val(s[cur + 3]) * 256
                    + hex_char_val(s[cur + 4]) * 16 + hex_char_val(s[cur + 5]);
                if 0xD800 <= code && code <= 0xDFFF {
                    return None;
                }
                match char_from_code(code) {
                    Some(d) => {
                        proof {
                            lemma_step_concat(acc@, d, sp_string_body(s@, cur as int + 6));
                            vstd::utf8::char_u32_cast(d, code);
                        }
                        acc.push(d);
                        cur = cur + 6;
                    },
                    None => {
                        proof {
                            assert(false);
                        }
                        return None;
                    },
                }
            } else {
                let d = match escape_char(e) {
                    Some(d) => d,
                    None => {
                        return None;
                    },
                };
                proof {
                    lemma_step_concat(acc@, d, sp_string_body(s@, cur as int + 2));
                }
                acc.push(d);
                cur = cur + 2;
            }
        } else if (c as u32) < 32 {
            return None;
        } else {
            proof {
                lemma_step_concat(acc@, c, sp_string_body(s@, cur as int + 1));
            }
            acc.push(c);
            cur = cur + 1;
        }
    }
}

/// Pushing one character and then a rest is the same as prepending it to
/// the rest.
proof fn lemma_step_concat(acc: Seq<char>, d: char, r: Option<(Seq<char>, int)>)
    ensures
        r matches Some((rest, j)) ==> acc + (seq![d] + rest) =~= acc.push(d) + rest,
{
    if let Some((rest, j)) = r {
        assert(acc + (seq![d] + rest) =~= acc.push(d) + rest);
    }
}

/// Executable twin of [`is_hex_digit`].
pub(crate) fn is_hex_char(c: char) -> (r: bool)
    ensures
        r == is_hex_digit(c),
{
    let u = c as u32;
    (48 <= u && u <= 57) || (97 <= u && u <= 102) || (65 <= u && u <= 70)
}

/// Executable twin of [`hex_val`]; zero on non-hex input.
pub(crate) fn hex_char_val(c: char) -> (v: u32)
    requires
        is_hex_digit(c),
    ensures
        v as int == hex_val(c),
        v <= 15,
{
    let u = c as u32;
    if u >= 97 {
        u - 87
    } else if u >= 65 {
        u - 55
    } else {
        u - 48
    }
}

/// Executable twin of [`sp_escape_char`].
fn escape_char(e: char) -> (r: Option<char>)
    ensures
        r == sp_escape_char(e),
{
    if e == '"' {
        Some('"')
    } else if e == '\\' {
        Some('\\')
    } else if e == '/' {
        Some('/')
    } else if e == 'b' {
        Some('\u{0008}')
    } else if e == 'f' {
        Some('\u{000C}')
    } else if e == 'n' {
        Some('\n')
    } else if e == 'r' {
        Some('\r')
    } else if e == 't' {
        Some('\t')
    } else {
        None
    }
}

/// Executable twin of [`sp_skip_value`].
pub fn skip_value(s: &[char], i: usize) -> (r: Option<usize>)
    requires
        i <= s@.len(),
    ensures
        match r {
            Some(j) => sp_skip_value(s@, i as int) == Some(j as int) && i < j <= s@.len(),
            None => sp_skip_value(s@, i as int) is None,
        },
    decreases s@.len() - i, 0int,
{
    if i >= s.len() {
        return None;
    }
    let c = s[i];
    if c == 'n' {
        if s.len() - i >= 4 && s[i + 1] == 'u' && s[i + 2] == 'l' && s[i + 3] == 'l' {
            Some(i + 4)
        } else {
            None
        }
    } else if c == 't' {
        if s.len() - i >= 4 && s[i + 1] == 'r' && s[i + 2] == 'u' && s[i + 3] == 'e' {
            Some(i + 4)
        } else {
            None
        }
    } else if c == 'f' {
        if s.len() - i >= 5 && s[i + 1] == 'a' && s[i + 2] == 'l' && s[i + 3] == 's' && s[i + 4]
            == 'e' {
            Some(i + 5)
        } else {
            None
        }
    } else if c == '"' {
        match parse_string_body(s, i + 1) {
            Some((_t, j)) => Some(j),
            None => None,
        }
    } else if c == '-' || (48 <= c as u32 && c as u32 <= 57) {
        match parse_number(s, i) {
            Some((_v, j)) => Some(j),
            None => None,
        }
    } else if c == '[' {
        let k = skip_ws(s, i + 1);
        if k < s.len() && s[k] == ']' {
            Some(k + 1)
        } else {
            skip_items(s, k)
        }
    } else if c == '{' {
        let k = skip_ws(s, i + 1);
        if k < s.len() && s[k] == '}' {
            Some(k + 1)
        } else {
            skip_members(s, k)
        }
    } else {
        None
    }
}

/// Executable twin of [`sp_skip_items`].
fn skip_items(s: &[char], i: usize) -> (r: Option<usize>)
    requires
        i <= s@.len(),
    ensures
        match r {
            Some(j) => sp_skip_items(s@, i as int) == Some(j as int) && i < j <= s@.len(),
            None => sp_skip_items(s@, i as int) is None,
        },
    decreases s@.len() - i, 1int,
{
    match skip_value(s, i) {
        None => None,
        Some(j) => {
            let k = skip_ws(s, j);
            if k < s.len() && s[k] == ',' {
                let m = skip_ws(s, k + 1);
                skip_items(s, m)
            } else if k < s.len() && s[k] == ']' {
                Some(k + 1)
            } else {
                None
            }
        },
    }
}

/// Executable twin of [`sp_skip_members`].
fn skip_members(s: &[char], i: usize) -> (r: Option<usize>)
    requires
        i <= s@.len(),
    ensures
        match r {
            Some(j) => sp_skip_members(s@, i as int) == Some(j as int) && i < j <= s@.len(),
            None => sp_skip_members(s@, i as int) is None,
        },
    decreases s@.len() - i, 1int,
{
    if !(i < s.len() && s[i] == '"') {
        return None;
    }
    match parse_string_body(s, i + 1) {
        None => None,
        Some((_key, j)) => {
            let k = skip_ws(s, j);
            if k < s.len() && s[k] == ':' {
                let m = skip_ws(s, k + 1);
                match skip_value(s, m) {
                    None => None,
                    Some(p) => {
                        let q = skip_ws(s, p);
                        if q < s.len() && s[q] == ',' {
                            let r = skip_ws(s, q + 1);
                            skip_members(s, r)
                        } else if q < s.len() && s[q] == '}' {
                            Some(q + 1)
                        } else {
                            None
                        }
                    },
                }
            } else {
                None
            }
        },
    }
}

} // verus!
