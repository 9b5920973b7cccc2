//! Textual form of 128-bit identifiers.
//!
//! Identifiers travel on the wire as hexadecimal text, either hyphenated
//! into the usual 8-4-4-4-12 groups or as 32 plain hex digits; this module
//! reads both and writes the hyphenated, lower-case form.
use crate::json::{hex_val, is_hex_digit, is_hex_char, hex_char_val};
use vstd::prelude::*;

verus! {

/// The `k`-th power of sixteen.
pub open spec fn pow16(k: nat) -> int
    decreases k,
{
    if k == 0 {
        1
    } else {
        16 * pow16((k - 1) as nat)
    }
}

/// Position in hyphenated text of the `k`-th hex digit.
pub open spec fn hyph_pos(k: int) -> int {
    if k < 8 {
        k
    } else if k < 12 {
        k + 1
    } else if k < 16 {
        k + 2
    } else if k < 20 {
        k + 3
    } else {
        k + 4
    }
}

/// Hyphenated identifier text: 36 characters in 8-4-4-4-12 hex groups.
pub open spec fn is_hyphenated_id(t: Seq<char>) -> bool {
    t.len() == 36 && t[8] == '-' && t[13] == '-' && t[18] == '-' && t[23] == '-' && (forall|k: int|
        0 <= k < 32 ==> is_hex_digit(#[trigger] t[hyph_pos(k)]))
}

/// Plain identifier text: 32 hex digits.
pub open spec fn is_simple_id(t: Seq<char>) -> bool {
    t.len() == 32 && (forall|k: int| 0 <= k < 32 ==> is_hex_digit(#[trigger] t[k]))
}

/// Value of the first `k` hex digits of identifier text.
pub open spec fn sp_id_val_prefix(t: Seq<char>, hyph: bool, k: int) -> int
    decreases k,
{
    if k <= 0 {
        0
    } else {
        sp_id_val_prefix(t, hyph, k - 1) * 16 + hex_val(
            t[if hyph {
                hyph_pos(k - 1)
            } else {
                k - 1
            }],
        )
    }
}

/// The identifier value named by the text, if it has either accepted shape.
pub open spec fn sp_id_of(t: Seq<char>) -> Option<int> {
    if is_hyphenated_id(t) {
        Some(sp_id_val_prefix(t, true, 32))
    } else if is_simple_id(t) {
        Some(sp_id_val_prefix(t, false, 32))
    } else {
        None
    }
}

/// A hex-digit prefix is bounded by the matching power of sixteen.
proof fn lemma_id_val_bound(t: Seq<char>, hyph: bool, k: int)
    requires
        0 <= k <= 32,
    ensures
        0 <= sp_id_val_prefix(t, hyph, k) < pow16(k as nat),
    decreases k,
{
    if k > 0 {
        lemma_id_val_bound(t, hyph, k - 1);
        assert(hex_val(
            t[if hyph {
                hyph_pos(k - 1)
            } else {
                k - 1
            }],
        ) <= 15);
        assert(sp_id_val_prefix(t, hyph, k - 1) * 16 + 15 < pow16(k as nat)) by (nonlinear_arith)
            requires
                0 <= sp_id_val_prefix(t, hyph, k - 1) < pow16((k - 1) as nat),
                pow16(k as nat) == 16 * pow16((k - 1) as nat),
        ;
    }
}

proof fn lemma_pow16_mono(a: nat, b: nat)
    requires
        a <= b,
    ensures
        1 <= pow16(a) <= pow16(b),
    decreases b,
{
    if a < b {
        lemma_pow16_mono(a, (b - 1) as nat);
    } else if b > 0 {
        lemma_pow16_mono((a - 1) as nat, (b - 1) as nat);
    }
}

/// Executable twin of [`hyph_pos`].
fn hyph_pos_at(k: usize) -> (p: usize)
    requires
        k < 32,
    ensures
        p as int == hyph_pos(k as int),
        p < 36,
{
    if k < 8 {
        k
    } else if k < 12 {
        k + 1
    } else if k < 16 {
        k + 2
    } else if k < 20 {
        k + 3
    } else {
        k + 4
    }
}

/// Executable twin of [`sp_id_of`]: the value of identifier text of either
/// accepted shape.
pub fn parse_id(t: &[char]) -> (r: Option<u128>)
    ensures
        match r {
            Some(v) => sp_id_of(t@) == Some(v as int),
            None => sp_id_of(t@) is None,
        },
{
    let hyph = t.len() == 36;
    if !(hyph || t.len() == 32) {
        return None;
    }
    if hyph && !(t[8] == '-' && t[13] == '-' && t[18] == '-' && t[23] == '-') {
        return None;
    }
    let mut acc: u128 = 0;
    let mut k: usize = 0;
    while k < 32
        invariant
            k <= 32,
            t@.len() == if hyph { 36int } else { 32int },
            hyph ==> t@[8] == '-' && t@[13] == '-' && t@[18] == '-' && t@[23] == '-',
            hyph ==> forall|j: int| 0 <= j < k ==> is_hex_digit(#[trigger] t@[hyph_pos(j)]),
            !hyph ==> forall|j: int| 0 <= j < k ==> is_hex_digit(#[trigger] t@[j]),
            acc as int == sp_id_val_prefix(t@, hyph, k as int),
        decreases 32 - k,
    {
        let p = if hyph {
            hyph_pos_at(k)
        } else {
            k
        };
        if !is_hex_char(t[p]) {
            proof {
                if hyph {
                    assert(!is_hex_digit(t@[hyph_pos(k as int)]));
                } else {
                    assert(!is_hex_digit(t@[k as int]));
                }
            }
            return None;
        }
        proof {
            lemma_id_val_bound(t@, hyph, k as int);
            lemma_pow16_mono((k + 1) as nat, 32);
            assert(pow16(32) == 0x100000000000000000000000000000000) by {
                reveal_with_fuel(pow16, 33);
            }
            assert(sp_id_val_prefix(t@, hyph, k as int) * 16 + 15 < pow16((k + 1) as nat))
                by (nonlinear_arith)
                requires
                    0 <= sp_id_val_prefix(t@, hyph, k as int) < pow16(k as nat),
                    pow16((k + 1) as nat) == 16 * pow16(k as nat),
            ;
        }
        acc = acc * 16 + hex_char_val(t[p]) as u128;
        k = k + 1;
    }
    proof {
        if hyph {
            assert(is_hyphenated_id(t@));
        } else {
            assert(is_simple_id(t@));
        }
    }
    Some(acc)
}

/// The hex digit character (lower case) for a value below sixteen.
pub open spec fn sp_hex_char(d: int) -> char {
    if d < 10 {
        ((48 + d) as u32) as char
    } else {
        ((87 + d) as u32) as char
    }
}

/// The `k` low hex digits of `v`, most significant first.
pub open spec fn sp_hex_text(v: int, k: nat) -> Seq<char>
    decreases k,
{
    if k == 0 {
        Seq::empty()
    } else {
        sp_hex_text(v / 16, (k - 1) as nat).push(sp_hex_char(v % 16))
    }
}

/// The hyphenated, lower-case text of an identifier value.
pub open spec fn sp_id_text(v: int) -> Seq<char> {
    let h = sp_hex_text(v, 32);
    h.subrange(0, 8) + seq!['-'] + h.subrange(8, 12) + seq!['-'] + h.subrange(12, 16) + seq!['-']
        + h.subrange(16, 20) + seq!['-'] + h.subrange(20, 32)
}

/// Executable twin of [`sp_hex_char`].
pub(crate) fn hex_char_of(d: u128) -> (c: char)
    requires
        d < 16,
    ensures
        c == sp_hex_char(d as int),
{
    let u: u32 = d as u32;
    proof {
        if d < 10 {
            vstd::utf8::char_u32_cast(((48 + u) as u8) as char, (48 + u) as u32);
        } else {
            vstd::utf8::char_u32_cast(((87 + u) as u8) as char, (87 + u) as u32);
        }
    }
    if d < 10 {
        ((48 + u) as u8) as char
    } else {
        ((87 + u) as u8) as char
    }
}

/// Executable twin of [`sp_hex_text`] for 32 digits, appended to `out`.
fn push_hex_text(out: &mut Vec<char>, v: u128, k: usize)
    requires
        k <= 32,
    ensures
        final(out)@ == old(out)@ + sp_hex_text(v as int, k as nat),
    decreases k,
{
    if k == 0 {
        proof {
            assert(out@ + Seq::<char>::empty() =~= out@);
        }
        return ;
    }
    push_hex_text(out, v / 16, k - 1);
    let c = hex_char_of(v % 16);
    out.push(c);
    proof {
        assert(old(out)@ + sp_hex_text((v / 16) as int, (k - 1) as nat).push(
            sp_hex_char((v % 16) as int),
        ) =~= (old(out)@ + sp_hex_text((v / 16) as int, (k - 1) as nat)).push(
            sp_hex_char((v % 16) as int),
        ));
    }
}

/// The hyphenated, lower-case text of an identifier value, as characters.
pub fn id_chars(v: u128) -> (t: Vec<char>)
    ensures
        t@ == sp_id_text(v as int),
{
    let mut h: Vec<char> = Vec::new();
    push_hex_text(&mut h, v, 32);
    proof {
        lemma_hex_text_len(v as int, 32);
        assert(h@ =~= sp_hex_text(v as int, 32));
    }
    let mut t: Vec<char> = Vec::new();
    let mut p: usize = 0;
    while p < 36
        invariant
            p <= 36,
            h@ == sp_hex_text(v as int, 32),
            h@.len() == 32,
            t@ == sp_id_text(v as int).subrange(0, p as int),
        decreases 36 - p,
    {
        if p == 8 || p == 13 || p == 18 || p == 23 {
            t.push('-');
        } else {
            let k = if p < 8 {
                p
            } else if p < 13 {
                p - 1
            } else if p < 18 {
                p - 2
            } else if p < 23 {
                p - 3
            } else {
                p - 4
            };
            t.push(h[k]);
        }
        p = p + 1;
        proof {
            assert(t@ =~= sp_id_text(v as int).subrange(0, p as int));
        }
    }
    proof {
        assert(t@ =~= sp_id_text(v as int));
    }
    t
}

/// `sp_hex_text` has as many characters as requested.
pub proof fn lemma_hex_text_len(v: int, k: nat)
    ensures
        sp_hex_text(v, k).len() == k,
    decreases k,
{
    if k > 0 {
        lemma_hex_text_len(v / 16, (k - 1) as nat);
    }
}

/// Printable hex digits read back as themselves.
proof fn lemma_hex_char_roundtrip(d: int)
    requires
        0 <= d < 16,
    ensures
        is_hex_digit(sp_hex_char(d)),
        hex_val(sp_hex_char(d)) == d,
{
    if d < 10 {
        assert(sp_hex_char(d) as u32 == 48 + d);
    } else {
        assert(sp_hex_char(d) as u32 == 87 + d);
    }
}

/// The digits of the hex text are the hex digits of the value, most
/// significant first.
proof fn lemma_hex_text_index(v: int, k: nat, j: int)
    requires
        0 <= v,
        0 <= j < k,
    ensures
        sp_hex_text(v, k)[j] == sp_hex_char((v / pow16((k - 1 - j) as nat)) % 16),
    decreases k,
{
    lemma_hex_text_len(v / 16, (k - 1) as nat);
    if j == k - 1 {
        assert(pow16(0) == 1);
        vstd::arithmetic::div_mod::lemma_div_basics(v);
        assert(sp_hex_text(v, k)[j] == sp_hex_char(v % 16));
    } else {
        vstd::arithmetic::div_mod::lemma_div_pos_is_pos(v, 16);
        lemma_hex_text_index(v / 16, (k - 1) as nat, j);
        let m = (k - 2 - j) as nat;
        lemma_pow16_mono(0, m);
        vstd::arithmetic::div_mod::lemma_div_denominator(v, 16, pow16(m));
        assert(pow16((k - 1 - j) as nat) == 16 * pow16(m));
        assert(sp_hex_text(v / 16, (k - 1) as nat)[j] == sp_hex_char(((v / 16) / pow16(m))
            % 16));
        assert(sp_hex_text(v, k)[j] == sp_hex_text(v / 16, (k - 1) as nat)[j]);
    }
}

/// The shape of printed identifier text: its length and its dashes.
proof fn lemma_id_text_shape(v: int)
    ensures
        sp_id_text(v).len() == 36,
        sp_id_text(v)[8] == '-',
        sp_id_text(v)[13] == '-',
        sp_id_text(v)[18] == '-',
        sp_id_text(v)[23] == '-',
{
    lemma_hex_text_len(v, 32);
}

/// The character at the `k`-th digit position of printed identifier text
/// is the `k`-th hex digit.
proof fn lemma_id_text_char(v: int, k: int)
    requires
        0 <= k < 32,
    ensures
        sp_id_text(v)[hyph_pos(k)] == sp_hex_text(v, 32)[k],
{
    lemma_hex_text_len(v, 32);
}

/// Reading back the first `k` digits of printed text rebuilds the top of
/// the value.
proof fn lemma_id_text_prefix(v: int, k: int)
    requires
        0 <= v < pow16(32),
        0 <= k <= 32,
    ensures
        sp_id_val_prefix(sp_id_text(v), true, k) == v / pow16((32 - k) as nat),
    decreases k,
{
    if k == 0 {
        lemma_pow16_mono(0, 32);
        vstd::arithmetic::div_mod::lemma_basic_div(v, pow16(32));
    } else {
        lemma_id_text_prefix(v, k - 1);
        lemma_id_text_char(v, k - 1);
        lemma_hex_text_index(v, 32, k - 1);
        let m = (32 - k) as nat;
        lemma_pow16_mono(0, m);
        vstd::arithmetic::div_mod::lemma_div_pos_is_pos(v, pow16(m));
        lemma_hex_char_roundtrip((v / pow16(m)) % 16);
        vstd::arithmetic::div_mod::lemma_div_denominator(v, pow16(m), 16);
        assert(pow16((m + 1) as nat) == 16 * pow16(m));
        assert(pow16(m) * 16 == 16 * pow16(m)) by (nonlinear_arith);
        let y = v / pow16(m);
        assert(y == 16 * (y / 16) + y % 16) by {
            vstd::arithmetic::div_mod::lemma_fundamental_div_mod(y, 16);
        }
    }
}

/// Printing an identifier and reading the text back names the identifier
/// again: the hyphenated form stands for exactly its value.
pub proof fn lemma_id_text_roundtrip(v: u128)
    ensures
        sp_id_of(sp_id_text(v as int)) == Some(v as int),
{
    let t = sp_id_text(v as int);
    assert(pow16(32) == 0x100000000000000000000000000000000) by {
        reveal_with_fuel(pow16, 33);
    }
    lemma_id_text_shape(v as int);
    assert forall|k: int| 0 <= k < 32 implies is_hex_digit(#[trigger] t[hyph_pos(k)]) by {
        lemma_id_text_char(v as int, k);
        lemma_hex_text_index(v as int, 32, k);
        let m = (31 - k) as nat;
        lemma_pow16_mono(0, m);
        vstd::arithmetic::div_mod::lemma_div_pos_is_pos(v as int, pow16(m));
        lemma_hex_char_roundtrip(((v as int) / pow16(m)) % 16);
    }
    assert(is_hyphenated_id(t));
    lemma_id_text_prefix(v as int, 32);
    assert(pow16(0) == 1);
    vstd::arithmetic::div_mod::lemma_div_basics(v as int);
}

} // verus!
