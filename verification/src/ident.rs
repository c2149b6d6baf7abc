use vstd::prelude::*;
use vstd::assert_by_contradiction;

verus! {

/// The lowercase hexadecimal digit character for a value below sixteen.
pub open spec fn hex_digit(n: int) -> char {
    if n == 0 {
        '0'
    } else if n == 1 {
        '1'
    } else if n == 2 {
        '2'
    } else if n == 3 {
        '3'
    } else if n == 4 {
        '4'
    } else if n == 5 {
        '5'
    } else if n == 6 {
        '6'
    } else if n == 7 {
        '7'
    } else if n == 8 {
        '8'
    } else if n == 9 {
        '9'
    } else if n == 10 {
        'a'
    } else if n == 11 {
        'b'
    } else if n == 12 {
        'c'
    } else if n == 13 {
        'd'
    } else if n == 14 {
        'e'
    } else {
        'f'
    }
}

/// The numeric value of a lowercase hexadecimal digit character.
pub open spec fn hex_digit_val(c: char) -> nat {
    if c == '0' {
        0
    } else if c == '1' {
        1
    } else if c == '2' {
        2
    } else if c == '3' {
        3
    } else if c == '4' {
        4
    } else if c == '5' {
        5
    } else if c == '6' {
        6
    } else if c == '7' {
        7
    } else if c == '8' {
        8
    } else if c == '9' {
        9
    } else if c == 'a' {
        10
    } else if c == 'b' {
        11
    } else if c == 'c' {
        12
    } else if c == 'd' {
        13
    } else if c == 'e' {
        14
    } else {
        15
    }
}

/// Fixed-width lowercase hexadecimal rendering of `v`: exactly `digits`
/// characters, most significant digit first, padded with zeros.
pub open spec fn hex_seq(v: nat, digits: nat) -> Seq<char>
    decreases digits,
{
    if digits == 0 {
        Seq::empty()
    } else {
        hex_seq(v / 16, (digits - 1) as nat).push(hex_digit((v % 16) as int))
    }
}

/// Sixteen to the power `d`.
pub open spec fn pow16(d: nat) -> nat
    decreases d,
{
    if d == 0 {
        1
    } else {
        16 * pow16((d - 1) as nat)
    }
}

/// The numeric value a fixed-width hexadecimal rendering stands for.
pub open spec fn unhex(s: Seq<char>) -> nat
    decreases s.len(),
{
    if s.len() == 0 {
        0
    } else {
        unhex(s.drop_last()) * 16 + hex_digit_val(s.last())
    }
}

/// A character that can appear in a rendered identifier: a lowercase
/// hexadecimal digit or the group separator.
pub open spec fn is_ident_char(c: char) -> bool {
    c == '-' || (exists|n: int| 0 <= n < 16 && c == hex_digit(n))
}

proof fn lemma_hex_seq_len(v: nat, digits: nat)
    ensures
        hex_seq(v, digits).len() == digits,
    decreases digits,
{
    if digits > 0 {
        lemma_hex_seq_len(v / 16, (digits - 1) as nat);
    }
}

proof fn lemma_hex_seq_chars(v: nat, digits: nat)
    ensures
        forall|i: int|
            0 <= i < hex_seq(v, digits).len() ==> is_ident_char(#[trigger] hex_seq(v, digits)[i])
                && hex_seq(v, digits)[i] != '-',
    decreases digits,
{
    if digits > 0 {
        lemma_hex_seq_chars(v / 16, (digits - 1) as nat);
        lemma_hex_seq_len(v / 16, (digits - 1) as nat);
        let d = (v % 16) as int;
        assert(0 <= d < 16);
        assert(is_ident_char(hex_digit(d)) && hex_digit(d) != '-');
    }
}

/// Rendering then reading back returns the value, as long as the value
/// fits in the requested width.
proof fn lemma_hex_unhex(v: nat, digits: nat)
    requires
        v < pow16(digits),
    ensures
        unhex(hex_seq(v, digits)) == v,
    decreases digits,
{
    if digits == 0 {
        assert(v == 0);
    } else {
        let rest = hex_seq(v / 16, (digits - 1) as nat);
        let s = rest.push(hex_digit((v % 16) as int));
        assert(s.drop_last() =~= rest);
        assert(v / 16 < pow16((digits - 1) as nat)) by {
            if v / 16 >= pow16((digits - 1) as nat) {
                assert(v >= 16 * (v / 16));
                assert(16 * (v / 16) >= 16 * pow16((digits - 1) as nat)) by (nonlinear_arith)
                    requires
                        v / 16 >= pow16((digits - 1) as nat),
                ;
            }
        }
        lemma_hex_unhex(v / 16, (digits - 1) as nat);
        assert(hex_digit_val(hex_digit((v % 16) as int)) == v % 16);
        assert(unhex(s) == (v / 16) * 16 + v % 16);
    }
}

/// The canonical 36-character identifier text for a 128-bit value: five
/// hexadecimal groups of 8, 4, 4, 4 and 12 digits, separated by hyphens.
pub open spec fn uuid_text_spec(bits: u128) -> Seq<char> {
    let h = hex_seq(bits as nat, 32);
    h.subrange(0, 8) + seq!['-'] + h.subrange(8, 12) + seq!['-'] + h.subrange(12, 16)
        + seq!['-'] + h.subrange(16, 20) + seq!['-'] + h.subrange(20, 32)
}

pub proof fn lemma_uuid_text_len(bits: u128)
    ensures
        uuid_text_spec(bits).len() == 36,
{
    lemma_hex_seq_len(bits as nat, 32);
}

/// Every character of an identifier text is a hexadecimal digit or a hyphen.
pub proof fn lemma_uuid_text_chars(bits: u128)
    ensures
        forall|i: int|
            0 <= i < uuid_text_spec(bits).len() ==> is_ident_char(
                #[trigger] uuid_text_spec(bits)[i],
            ),
{
    lemma_hex_seq_len(bits as nat, 32);
    lemma_hex_seq_chars(bits as nat, 32);
    assert(is_ident_char('-'));
}

proof fn lemma_pow16_32()
    ensures
        pow16(32) == 0x100000000000000000000000000000000,
{
    reveal_with_fuel(pow16, 33);
}

/// Distinct 128-bit values always render to distinct identifier texts.
pub proof fn lemma_uuid_text_injective(a: u128, b: u128)
    requires
        a != b,
    ensures
        uuid_text_spec(a) != uuid_text_spec(b),
{
    let ha = hex_seq(a as nat, 32);
    let hb = hex_seq(b as nat, 32);
    lemma_hex_seq_len(a as nat, 32);
    lemma_hex_seq_len(b as nat, 32);
    assert_by_contradiction!(uuid_text_spec(a) != uuid_text_spec(b), {
        assert forall|i: int| 0 <= i < 32 implies ha[i] == hb[i] by {
            let t = uuid_text_spec(a);
            let j: int = if i < 8 {
                i
            } else if i < 12 {
                i + 1
            } else if i < 16 {
                i + 2
            } else if i < 20 {
                i + 3
            } else {
                i + 4
            };
            assert(uuid_text_spec(a)[j] == ha[i]);
            assert(uuid_text_spec(b)[j] == hb[i]);
        }
        assert(ha =~= hb);
        lemma_pow16_32();
        lemma_hex_unhex(a as nat, 32);
        lemma_hex_unhex(b as nat, 32);
    });
}

/// Relies on uuid::Uuid::new_v4 and uuid::Uuid::as_u128: a freshly generated
/// random 128-bit value. Nothing is promised of which value comes back.
#[verifier::external_body]
pub(crate) fn fresh_uuid_bits() -> u128 {
    uuid::Uuid::new_v4().as_u128()
}

/// Relies on String::push: appends exactly the given character at the end.
#[verifier::external_body]
pub(crate) fn push_char(s: &mut String, c: char)
    ensures
        final(s)@ == old(s)@.push(c),
{
    s.push(c);
}

/// The executable counterpart of [`hex_digit`].
fn hex_digit_char(n: u8) -> (c: char)
    requires
        n < 16,
    ensures
        c == hex_digit(n as int),
{
    match n {
        0 => '0',
        1 => '1',
        2 => '2',
        3 => '3',
        4 => '4',
        5 => '5',
        6 => '6',
        7 => '7',
        8 => '8',
        9 => '9',
        10 => 'a',
        11 => 'b',
        12 => 'c',
        13 => 'd',
        14 => 'e',
        _ => 'f',
    }
}

/// Appends the fixed-width hexadecimal rendering of `v` to `s`.
fn push_hex(s: &mut String, v: u128, digits: u8)
    ensures
        final(s)@ == old(s)@ + hex_seq(v as nat, digits as nat),
    decreases digits,
{
    if digits == 0 {
        assert(final(s)@ =~= old(s)@ + hex_seq(v as nat, 0));
    } else {
        push_hex(s, v / 16, digits - 1);
        let d: u8 = (v % 16) as u8;
        let c = hex_digit_char(d);
        push_char(s, c);
        proof {
            assert((old(s)@ + hex_seq((v / 16) as nat, (digits - 1) as nat)).push(c) =~= old(
                s,
            )@ + hex_seq((v / 16) as nat, (digits - 1) as nat).push(c));
            assert((v / 16) as nat == (v as nat) / 16);
            assert((v % 16) as nat == (v as nat) % 16);
        }
    }
}

/// Renders a 128-bit value as its canonical 36-character identifier text.
pub fn uuid_text(bits: u128) -> (s: String)
    ensures
        s@ == uuid_text_spec(bits),
{
    let mut h = String::new();
    push_hex(&mut h, bits, 32);
    proof {
        lemma_hex_seq_len(bits as nat, 32);
        lemma_hex_seq_chars(bits as nat, 32);
        assert(h@ =~= hex_seq(bits as nat, 32));
        assert forall|i: int| 0 <= i < h@.len() implies '\0' <= #[trigger] h@[i]
            <= '\u{7f}' by {
            assert(is_ident_char(h@[i]));
            let n = choose|n: int| 0 <= n < 16 && h@[i] == hex_digit(n);
            assert(h@[i] == hex_digit(n));
        }
        assert(vstd::utf8::is_ascii_chars(h@));
    }
    let hs = h.as_str();
    let mut out = hs.substring_ascii(0, 8).to_owned();
    out.append("-");
    out.append(hs.substring_ascii(8, 12));
    out.append("-");
    out.append(hs.substring_ascii(12, 16));
    out.append("-");
    out.append(hs.substring_ascii(16, 20));
    out.append("-");
    out.append(hs.substring_ascii(20, 32));
    proof {
        reveal_strlit("-");
        assert(("-")@ =~= seq!['-']);
        assert(out@ =~= uuid_text_spec(bits));
    }
    out
}

} // verus!
