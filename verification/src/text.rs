//! Text helpers: hex-digit classification and parsing for the two inline
//! inputs, and hex/decimal digit rendering for labels and the value preview.

use vstd::prelude::*;

verus! {

/// Whether `c` is an ASCII hex digit, the only characters the inline inputs
/// accept.
pub open spec fn is_hex_digit(c: char) -> bool {
    ||| 48 <= c as int <= 57  // '0' ..= '9'
    ||| 97 <= c as int <= 102  // 'a' ..= 'f'
    ||| 65 <= c as int <= 70  // 'A' ..= 'F'
}

/// The numeric value of an ASCII hex digit.
pub open spec fn hex_char_value(c: char) -> int {
    if 48 <= c as int <= 57 {
        c as int - 48
    } else if 97 <= c as int <= 102 {
        c as int - 87
    } else {
        c as int - 55
    }
}

/// Whether every character of `s` is an ASCII hex digit.
pub open spec fn all_hex_digits(s: Seq<char>) -> bool {
    forall|i: int| 0 <= i < s.len() ==> is_hex_digit(#[trigger] s[i])
}

/// The value of `s` read as a base-16 numeral, most significant digit first.
pub open spec fn hex_seq_value(s: Seq<char>) -> int
    decreases s.len(),
{
    if s.len() == 0 {
        0
    } else {
        16 * hex_seq_value(s.drop_last()) + hex_char_value(s.last())
    }
}

/// `16^n`.
pub open spec fn pow16(n: nat) -> int
    decreases n,
{
    if n == 0 {
        1
    } else {
        16 * pow16((n - 1) as nat)
    }
}

/// `pow16` is positive.
proof fn lemma_pow16_pos(n: nat)
    ensures
        pow16(n) >= 1,
    decreases n,
{
    if n > 0 {
        lemma_pow16_pos((n - 1) as nat);
    }
}

/// `pow16` grows with its argument.
proof fn lemma_pow16_increases(a: nat, b: nat)
    requires
        a <= b,
    ensures
        pow16(a) <= pow16(b),
    decreases b,
{
    lemma_pow16_pos(a);
    if a < b {
        lemma_pow16_increases(a, (b - 1) as nat);
        lemma_pow16_pos((b - 1) as nat);
    }
}

/// A hex numeral of `n` digits is below `16^n`.
pub proof fn lemma_hex_seq_value_bound(s: Seq<char>)
    requires
        all_hex_digits(s),
    ensures
        0 <= hex_seq_value(s) < pow16(s.len()),
    decreases s.len(),
{
    if s.len() > 0 {
        assert(all_hex_digits(s.drop_last())) by {
            assert(forall|i: int|
                0 <= i < s.len() - 1 ==> s.drop_last()[i] == #[trigger] s[i]);
        }
        lemma_hex_seq_value_bound(s.drop_last());
    }
}

/// Whether `c` is an ASCII hex digit.
pub fn hex_digit(c: char) -> (r: bool)
    ensures
        r == is_hex_digit(c),
{
    let u = c as u32;
    (48 <= u && u <= 57) || (97 <= u && u <= 102) || (65 <= u && u <= 70)
}

/// The numeric value of an ASCII hex digit.
pub fn hex_digit_value(c: char) -> (r: u64)
    requires
        is_hex_digit(c),
    ensures
        r == hex_char_value(c),
        r < 16,
{
    let u = c as u32;
    if 48 <= u && u <= 57 {
        (u - 48) as u64
    } else if 97 <= u && u <= 102 {
        (u - 87) as u64
    } else {
        (u - 55) as u64
    }
}

/// Parses a buffer of hex digits as a base-16 number, most significant digit
/// first. An empty buffer parses to nothing — the one way the inline inputs
/// fail to parse, since they only ever accept hex digits.
pub fn parse_hex(v: &Vec<char>) -> (r: Option<u64>)
    requires
        all_hex_digits(v@),
        v@.len() <= 16,
    ensures
        r is None <==> v@.len() == 0,
        r matches Some(x) ==> x == hex_seq_value(v@),
{
    if v.len() == 0 {
        return None;
    }
    let mut acc: u64 = 0;
    let mut i: usize = 0;
    proof {
        assert(v@.subrange(0, 0) =~= Seq::<char>::empty());
    }
    while i < v.len()
        invariant
            all_hex_digits(v@),
            v@.len() <= 16,
            i <= v@.len(),
            acc == hex_seq_value(v@.subrange(0, i as int)),
            acc < pow16(i as nat),
        decreases v@.len() - i,
    {
        let c = v[i];
        let d = hex_digit_value(c);
        proof {
            let pre = v@.subrange(0, i as int);
            let cur = v@.subrange(0, i + 1);
            assert(cur.drop_last() =~= pre);
            assert(cur.last() == v@[i as int]);
            lemma_pow16_increases((i + 1) as nat, 16);
            assert(pow16((i + 1) as nat) == 16 * pow16(i as nat));
            assert(pow16(16) == 0x1_0000_0000_0000_0000) by {
                reveal_with_fuel(pow16, 17);
            }
        }
        acc = acc * 16 + d;
        i += 1;
    }
    proof {
        assert(v@.subrange(0, v@.len() as int) =~= v@);
    }
    Some(acc)
}

/// The uppercase hex digit with value `d`.
pub open spec fn hex_char_upper(d: int) -> char {
    if d < 10 {
        (48 + d) as char
    } else {
        (55 + d) as char
    }
}

/// The lowercase hex digit with value `d`.
pub open spec fn hex_char_lower(d: int) -> char {
    if d < 10 {
        (48 + d) as char
    } else {
        (87 + d) as char
    }
}

/// The uppercase hex digits of `v`, most significant first, no leading
/// zeros (a single zero for zero).
pub open spec fn hex_digits_upper(v: int) -> Seq<char>
    decreases v,
{
    if v < 16 {
        seq![hex_char_upper(v)]
    } else {
        hex_digits_upper(v / 16).push(hex_char_upper(v % 16))
    }
}

/// `n` zero characters.
pub open spec fn zeros(n: nat) -> Seq<char> {
    Seq::new(n, |i: int| '0')
}

/// The uppercase hex rendering of `v` padded with leading zeros to at least
/// six digits — the widget's address label format.
pub open spec fn hex6_upper(v: int) -> Seq<char> {
    if hex_digits_upper(v).len() >= 6 {
        hex_digits_upper(v)
    } else {
        zeros((6 - hex_digits_upper(v).len()) as nat) + hex_digits_upper(v)
    }
}

/// A value below `16^n` has at most `n` hex digits.
pub proof fn lemma_hex_digits_upper_len(v: int, n: nat)
    requires
        n >= 1,
        0 <= v < pow16(n),
    ensures
        1 <= hex_digits_upper(v).len() <= n,
    decreases n,
{
    if v >= 16 {
        assert(pow16(1) == 16) by {
            reveal_with_fuel(pow16, 2);
        }
        if n == 1 {
            assert(false);
        }
        assert(pow16(n) == 16 * pow16((n - 1) as nat));
        assert(v / 16 < pow16((n - 1) as nat));
        lemma_hex_digits_upper_len(v / 16, (n - 1) as nat);
    }
}

/// An address label is six to sixteen characters long.
pub proof fn lemma_hex6_upper_len(v: int)
    requires
        0 <= v < 0x1_0000_0000_0000_0000,
    ensures
        6 <= hex6_upper(v).len() <= 16,
{
    assert(pow16(16) == 0x1_0000_0000_0000_0000) by {
        reveal_with_fuel(pow16, 17);
    }
    lemma_hex_digits_upper_len(v, 16);
}

/// The two lowercase hex digits of a byte — the format of every byte cell.
pub open spec fn hex2_lower(b: u8) -> Seq<char> {
    seq![hex_char_lower(b as int / 16), hex_char_lower(b as int % 16)]
}

/// The uppercase hex digit with value `d`.
fn hex_char_upper_exec(d: u64) -> (r: char)
    requires
        d < 16,
    ensures
        r == hex_char_upper(d as int),
{
    if d < 10 {
        (48 + d as u8) as char
    } else {
        (55 + d as u8) as char
    }
}

/// Appends the uppercase hex digits of `v` to `out`.
fn push_hex_digits_upper(v: u64, out: &mut Vec<char>)
    ensures
        final(out)@ == old(out)@ + hex_digits_upper(v as int),
    decreases v,
{
    if v >= 16 {
        push_hex_digits_upper(v / 16, out);
    }
    out.push(hex_char_upper_exec(v % 16));
    proof {
        if v < 16 {
            assert(out@ =~= old(out)@ + hex_digits_upper(v as int));
        } else {
            assert(out@ =~= old(out)@ + hex_digits_upper(v as int));
        }
    }
}

/// The address-label rendering of `v`: uppercase hex, zero-padded to at
/// least six digits.
pub fn hex_upper6(v: u64) -> (r: Vec<char>)
    ensures
        r@ == hex6_upper(v as int),
{
    let mut digits: Vec<char> = Vec::new();
    push_hex_digits_upper(v, &mut digits);
    if digits.len() >= 6 {
        proof {
            assert(digits@ =~= hex6_upper(v as int));
        }
        digits
    } else {
        let mut out: Vec<char> = Vec::new();
        let pad = 6 - digits.len();
        let mut i: usize = 0;
        while i < pad
            invariant
                i <= pad,
                out@ =~= zeros(i as nat),
            decreases pad - i,
        {
            out.push('0');
            proof {
                assert(out@ =~= zeros((i + 1) as nat));
            }
            i += 1;
        }
        let mut j: usize = 0;
        while j < digits.len()
            invariant
                j <= digits@.len(),
                pad == 6 - digits@.len(),
                digits@ == hex_digits_upper(v as int),
                out@ =~= zeros(pad as nat) + digits@.subrange(0, j as int),
            decreases digits@.len() - j,
        {
            out.push(digits[j]);
            proof {
                assert(out@ =~= zeros(pad as nat) + digits@.subrange(0, j + 1));
            }
            j += 1;
        }
        proof {
            assert(digits@.subrange(0, digits@.len() as int) =~= digits@);
            assert(out@ =~= hex6_upper(v as int));
        }
        out
    }
}

/// The two lowercase hex digits of a byte.
pub fn byte_hex_lower(b: u8) -> (r: Vec<char>)
    ensures
        r@ == hex2_lower(b),
{
    let hi = b / 16;
    let lo = b % 16;
    let mut r: Vec<char> = Vec::new();
    if hi < 10 {
        r.push((48 + hi) as char);
    } else {
        r.push((87 + hi) as char);
    }
    if lo < 10 {
        r.push((48 + lo) as char);
    } else {
        r.push((87 + lo) as char);
    }
    proof {
        assert(r@ =~= hex2_lower(b));
    }
    r
}

/// The decimal digits of `v`, most significant first.
pub open spec fn dec_digits(v: int) -> Seq<char>
    decreases v,
{
    if v < 10 {
        seq![(48 + v) as char]
    } else {
        dec_digits(v / 10).push((48 + v % 10) as char)
    }
}

/// Appends the decimal digits of `v` to `out`.
fn push_dec_digits(v: u64, out: &mut Vec<char>)
    ensures
        final(out)@ == old(out)@ + dec_digits(v as int),
    decreases v,
{
    if v >= 10 {
        push_dec_digits(v / 10, out);
    }
    out.push((48 + (v % 10) as u8) as char);
    proof {
        assert(out@ =~= old(out)@ + dec_digits(v as int));
    }
}

/// The decimal rendering of an unsigned value.
pub fn dec_u64(v: u64) -> (r: Vec<char>)
    ensures
        r@ == dec_digits(v as int),
{
    let mut out: Vec<char> = Vec::new();
    push_dec_digits(v, &mut out);
    proof {
        assert(out@ =~= dec_digits(v as int));
    }
    out
}

/// The decimal rendering of a signed value: a leading minus sign for
/// negative values, then the decimal digits of the magnitude.
pub open spec fn dec_digits_signed(v: int) -> Seq<char> {
    if v < 0 {
        seq!['-'] + dec_digits(-v)
    } else {
        dec_digits(v)
    }
}

/// The decimal rendering of a signed value.
pub fn dec_i64(v: i64) -> (r: Vec<char>)
    ensures
        r@ == dec_digits_signed(v as int),
{
    if v >= 0 {
        dec_u64(v as u64)
    } else {
        let mag: u64 = ((-(v + 1)) as u64) + 1;
        let mut out: Vec<char> = Vec::new();
        out.push('-');
        push_dec_digits(mag, &mut out);
        proof {
            assert(out@ =~= dec_digits_signed(v as int));
        }
        out
    }
}

/// The character a byte shows in the ASCII column: printable ASCII
/// verbatim, a dot for everything else.
pub open spec fn ascii_char_spec(b: u8) -> char {
    if 32 <= b <= 126 {
        b as char
    } else {
        '.'
    }
}

/// The ASCII-column character for `b`.
pub fn ascii_char(b: u8) -> (r: char)
    ensures
        r == ascii_char_spec(b),
{
    if 32 <= b && b <= 126 {
        b as char
    } else {
        '.'
    }
}

/// The ASCII-column text of a row of bytes.
pub open spec fn ascii_row_spec(s: Seq<u8>) -> Seq<char> {
    s.map(|i: int, b: u8| ascii_char_spec(b))
}

/// The ASCII-column rendering of a row of bytes.
pub fn ascii_row(s: &[u8]) -> (r: Vec<char>)
    ensures
        r@ == ascii_row_spec(s@),
{
    let mut out: Vec<char> = Vec::new();
    let mut i: usize = 0;
    while i < s.len()
        invariant
            i <= s@.len(),
            out@ =~= ascii_row_spec(s@.subrange(0, i as int)),
        decreases s@.len() - i,
    {
        out.push(ascii_char(s[i]));
        proof {
            assert(out@ =~= ascii_row_spec(s@.subrange(0, i + 1)));
        }
        i += 1;
    }
    proof {
        assert(s@.subrange(0, s@.len() as int) =~= s@);
    }
    out
}

} // verus!
