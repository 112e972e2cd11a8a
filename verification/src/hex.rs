//! Fixed-width, lower-case hexadecimal rendering and parsing of claim fields.
//!
//! Token claims are carried as hex digits so that the codec controls every
//! byte of the signed message. Rendering and parsing are verified inverses.

use vstd::prelude::*;

verus! {

/// The character for one hex digit value.
pub open spec fn hex_digit_char(d: int) -> char {
    if d == 0 {
        '0'
    } else if d == 1 {
        '1'
    } else if d == 2 {
        '2'
    } else if d == 3 {
        '3'
    } else if d == 4 {
        '4'
    } else if d == 5 {
        '5'
    } else if d == 6 {
        '6'
    } else if d == 7 {
        '7'
    } else if d == 8 {
        '8'
    } else if d == 9 {
        '9'
    } else if d == 10 {
        'a'
    } else if d == 11 {
        'b'
    } else if d == 12 {
        'c'
    } else if d == 13 {
        'd'
    } else if d == 14 {
        'e'
    } else {
        'f'
    }
}

/// Whether a character is a lower-case hex digit.
pub open spec fn is_hex_digit(c: char) -> bool {
    ('0' as int <= c as int && c as int <= '9' as int) || ('a' as int <= c as int && c as int
        <= 'f' as int)
}

/// The value of a hex digit character.
pub open spec fn hex_digit_value(c: char) -> int {
    if '0' as int <= c as int && c as int <= '9' as int {
        c as int - '0' as int
    } else {
        c as int - 'a' as int + 10
    }
}

/// Whether every character of a sequence is a lower-case hex digit.
pub open spec fn all_hex(s: Seq<char>) -> bool {
    forall|i: int| 0 <= i < s.len() ==> is_hex_digit(#[trigger] s[i])
}

/// 16 to the power `w`.
pub open spec fn pow16(w: nat) -> nat
    decreases w,
{
    if w == 0 {
        1
    } else {
        16 * pow16((w - 1) as nat)
    }
}

/// `v` rendered as `width` hex digits, most significant first, with leading
/// zeros. Only the lowest `width` digits of `v` are rendered.
pub open spec fn hex_str(v: nat, width: nat) -> Seq<char>
    decreases width,
{
    if width == 0 {
        Seq::empty()
    } else {
        hex_str(v / 16, (width - 1) as nat).push(hex_digit_char((v % 16) as int))
    }
}

/// `v` rendered as `width` hex digits, least significant first.
pub open spec fn hex_rev(v: nat, width: nat) -> Seq<char>
    decreases width,
{
    if width == 0 {
        Seq::empty()
    } else {
        seq![hex_digit_char((v % 16) as int)] + hex_rev(v / 16, (width - 1) as nat)
    }
}

/// The numeric value of a sequence of hex digits, most significant first.
pub open spec fn hex_val(s: Seq<char>) -> int
    decreases s.len(),
{
    if s.len() == 0 {
        0
    } else {
        16 * hex_val(s.drop_last()) + hex_digit_value(s.last())
    }
}

pub proof fn lemma_hex_digit_char_value(d: int)
    requires
        0 <= d < 16,
    ensures
        is_hex_digit(hex_digit_char(d)),
        hex_digit_value(hex_digit_char(d)) == d,
{
}

pub proof fn lemma_hex_str_len(v: nat, width: nat)
    ensures
        hex_str(v, width).len() == width,
    decreases width,
{
    if width > 0 {
        lemma_hex_str_len(v / 16, (width - 1) as nat);
    }
}

pub proof fn lemma_hex_str_all_hex(v: nat, width: nat)
    ensures
        all_hex(hex_str(v, width)),
    decreases width,
{
    if width > 0 {
        lemma_hex_str_all_hex(v / 16, (width - 1) as nat);
        lemma_hex_str_len(v / 16, (width - 1) as nat);
        lemma_hex_digit_char_value((v % 16) as int);
        assert forall|i: int| 0 <= i < hex_str(v, width).len() implies is_hex_digit(
            #[trigger] hex_str(v, width)[i],
        ) by {
            if i < width - 1 {
                assert(hex_str(v, width)[i] == hex_str(v / 16, (width - 1) as nat)[i]);
            }
        }
    }
}

/// Rendering then reading a value gives the value back.
pub proof fn lemma_hex_val_of_hex_str(v: nat, width: nat)
    requires
        v < pow16(width),
    ensures
        hex_val(hex_str(v, width)) == v,
    decreases width,
{
    if width == 0 {
        assert(v == 0);
    } else {
        let rest = hex_str(v / 16, (width - 1) as nat);
        lemma_hex_str_len(v / 16, (width - 1) as nat);
        assert(hex_str(v, width).drop_last() =~= rest);
        assert(v / 16 < pow16((width - 1) as nat)) by (nonlinear_arith)
            requires
                v < pow16(width),
                pow16(width) == 16 * pow16((width - 1) as nat),
        ;
        lemma_hex_val_of_hex_str(v / 16, (width - 1) as nat);
        lemma_hex_digit_char_value((v % 16) as int);
    }
}

/// A sequence of `len` hex digits reads back as a value below `16^len`.
pub proof fn lemma_hex_val_bound(s: Seq<char>)
    requires
        all_hex(s),
    ensures
        0 <= hex_val(s) < pow16(s.len()),
    decreases s.len(),
{
    if s.len() > 0 {
        assert(all_hex(s.drop_last()));
        lemma_hex_val_bound(s.drop_last());
        assert(is_hex_digit(s.last()));
        assert(0 <= hex_digit_value(s.last()) < 16);
        assert(16 * hex_val(s.drop_last()) + 15 < 16 * pow16((s.len() - 1) as nat))
            by (nonlinear_arith)
            requires
                hex_val(s.drop_last()) < pow16((s.len() - 1) as nat),
        ;
    }
}

/// The two renderings list the same digits in opposite orders.
pub proof fn lemma_hex_rev_index(v: nat, width: nat)
    ensures
        hex_rev(v, width).len() == width,
        forall|k: int|
            0 <= k < width ==> #[trigger] hex_rev(v, width)[k] == hex_str(v, width)[width - 1 - k],
    decreases width,
{
    lemma_hex_str_len(v, width);
    if width > 0 {
        lemma_hex_rev_index(v / 16, (width - 1) as nat);
        lemma_hex_str_len(v / 16, (width - 1) as nat);
        assert forall|k: int| 0 <= k < width implies #[trigger] hex_rev(v, width)[k] == hex_str(
            v,
            width,
        )[width - 1 - k] by {
            if k == 0 {
                assert(hex_rev(v, width)[0] == hex_digit_char((v % 16) as int));
            } else {
                assert(hex_rev(v, width)[k] == hex_rev(v / 16, (width - 1) as nat)[k - 1]);
                assert(hex_str(v, width)[width - 1 - k] == hex_str(v / 16, (width - 1) as nat)[width
                    - 1 - k]);
            }
        }
    }
}

/// Relies on String::push: appends exactly the given character.
#[verifier::external_body]
pub(crate) fn push_char(s: &mut String, c: char)
    ensures
        final(s)@ == old(s)@.push(c),
{
    s.push(c);
}

/// The character for one hex digit value.
pub fn hex_char_of(d: u8) -> (c: char)
    requires
        d < 16,
    ensures
        c == hex_digit_char(d as int),
{
    match d {
        0 => '0',
        1 => '1',
        2 => '2',
        3 => '3',
        4 => '4',
        5 => '5',
        6 => '6',
        7 => '7',
        8 => '8',
        9 => '9',
        10 => 'a',
        11 => 'b',
        12 => 'c',
        13 => 'd',
        14 => 'e',
        _ => 'f',
    }
}

/// The value of one hex digit character, or `None` if it is not one.
pub fn hex_value_of(c: char) -> (r: Option<u8>)
    ensures
        r is Some <==> is_hex_digit(c),
        r matches Some(d) ==> d == hex_digit_value(c) && d < 16,
{
    let x = c as u32;
    if 48 <= x && x <= 57 {
        Some((x - 48) as u8)
    } else if 97 <= x && x <= 102 {
        Some((x - 87) as u8)
    } else {
        None
    }
}

/// Renders `v` as exactly `width` lower-case hex digits, leading zeros kept.
pub fn encode_hex(v: u128, width: usize) -> (s: String)
    requires
        (v as nat) < pow16(width as nat),
    ensures
        s@ == hex_str(v as nat, width as nat),
        s@.len() == width,
{
    let ghost w = width as nat;
    let mut rev: Vec<char> = Vec::new();
    let mut x = v;
    let mut i: usize = 0;
    proof {
        assert(hex_rev(v as nat, w) =~= rev@ + hex_rev(v as nat, w));
    }
    while i < width
        invariant
            i <= width,
            rev@.len() == i,
            hex_rev(v as nat, w) == rev@ + hex_rev(x as nat, (w - i) as nat),
            w == width as nat,
        decreases width - i,
    {
        let d = (x % 16) as u8;
        let c = hex_char_of(d);
        proof {
            let rest = hex_rev(x as nat / 16, (w - i - 1) as nat);
            assert(hex_rev(x as nat, (w - i) as nat) =~= seq![c] + rest);
            assert(rev@.push(c) =~= rev@ + seq![c]);
            assert((rev@ + seq![c]) + rest =~= rev@ + (seq![c] + rest));
        }
        rev.push(c);
        x = x / 16;
        i = i + 1;
    }
    proof {
        assert(hex_rev(x as nat, 0nat) =~= Seq::empty());
        assert(rev@ =~= hex_rev(v as nat, w));
        lemma_hex_str_len(v as nat, w);
    }
    let mut out = String::new();
    let mut j: usize = 0;
    while j < width
        invariant
            j <= width,
            width as nat == w,
            rev@ == hex_rev(v as nat, w),
            rev@.len() == width,
            hex_str(v as nat, w).len() == width,
            out@ == hex_str(v as nat, w).subrange(0, j as int),
        decreases width - j,
    {
        proof {
            lemma_hex_rev_index(v as nat, w);
        }
        let c = rev[width - 1 - j];
        proof {
            assert(c == hex_str(v as nat, w)[j as int]);
            assert(hex_str(v as nat, w).subrange(0, j + 1) =~= hex_str(v as nat, w).subrange(
                0,
                j as int,
            ).push(c));
        }
        push_char(&mut out, c);
        j = j + 1;
    }
    proof {
        assert(out@ =~= hex_str(v as nat, w));
    }
    out
}

/// Reads the hex digits of `s` at positions `from..to`, most significant
/// first. Returns `None` exactly when some character there is not a
/// lower-case hex digit.
pub fn parse_hex(s: &str, from: usize, to: usize) -> (r: Option<u128>)
    requires
        from <= to <= s@.len(),
        to - from <= 32,
    ensures
        r is Some <==> all_hex(s@.subrange(from as int, to as int)),
        r matches Some(v) ==> v as int == hex_val(s@.subrange(from as int, to as int)),
{
    let mut acc: u128 = 0;
    let mut i = from;
    proof {
        assert(s@.subrange(from as int, from as int) =~= Seq::<char>::empty());
    }
    while i < to
        invariant
            from <= i <= to <= s@.len(),
            to - from <= 32,
            all_hex(s@.subrange(from as int, i as int)),
            acc as int == hex_val(s@.subrange(from as int, i as int)),
        decreases to - i,
    {
        let c = s.get_char(i);
        let ghost seen = s@.subrange(from as int, i as int);
        match hex_value_of(c) {
            Some(d) => {
                proof {
                    lemma_hex_val_bound(seen);
                    assert(pow16((i - from) as nat) <= pow16(31nat)) by {
                        lemma_pow16_increases((i - from) as nat, 31nat);
                    }
                    lemma_pow16_31_value();
                    assert(16 * hex_val(seen) + 15 < 0x100000000000000000000000000000000);
                }
                acc = 16 * acc + (d as u128);
                proof {
                    let seen2 = s@.subrange(from as int, i + 1);
                    assert(seen2.drop_last() =~= seen);
                    assert(seen2.last() == c);
                    assert(all_hex(seen2)) by {
                        assert(forall|k: int|
                            0 <= k < seen.len() ==> seen2[k] == #[trigger] seen[k]);
                    }
                }
                i = i + 1;
            },
            None => {
                proof {
                    assert(s@.subrange(from as int, to as int)[i - from] == c);
                }
                return None;
            },
        }
    }
    Some(acc)
}

pub proof fn lemma_pow16_31_value()
    ensures
        pow16(31nat) == 0x10000000000000000000000000000000,
{
    reveal_with_fuel(pow16, 32);
}

/// `16^32` is one more than the largest `u128`.
pub proof fn lemma_pow16_32_value()
    ensures
        pow16(32nat) == 0x100000000000000000000000000000000,
{
    reveal_with_fuel(pow16, 33);
}

/// `16^16` is one more than the largest `u64`.
pub proof fn lemma_pow16_16_value()
    ensures
        pow16(16nat) == 0x10000000000000000,
{
    reveal_with_fuel(pow16, 17);
}

pub proof fn lemma_pow16_increases(a: nat, b: nat)
    requires
        a <= b,
    ensures
        pow16(a) <= pow16(b),
    decreases b,
{
    if a < b {
        lemma_pow16_increases(a, (b - 1) as nat);
        assert(pow16(b) == 16 * pow16((b - 1) as nat));
    }
}

} // verus!
