//! Hexadecimal text: the digits, the number a run of digits denotes, and the
//! digits of a number.
//!
//! Window identifiers and colours are written as `0x` followed by
//! hexadecimal digits. This module holds the part common to both: reading a
//! run of digits into a `u64` and writing a `u64` back as digits, each against
//! a mathematical definition, together with the laws that connect the two.

use vstd::prelude::*;
use vstd::string::*;

verus! {

/// The value of a hexadecimal digit, in either case; `None` for any other
/// character.
pub open spec fn digit_value(c: char) -> Option<nat> {
    if '0' <= c <= '9' {
        Some((c as u32 - '0' as u32) as nat)
    } else if 'a' <= c <= 'f' {
        Some((c as u32 - 'a' as u32 + 10) as nat)
    } else if 'A' <= c <= 'F' {
        Some((c as u32 - 'A' as u32 + 10) as nat)
    } else {
        None
    }
}

/// Whether every character of `s` is a hexadecimal digit.
pub open spec fn is_digits(s: Seq<char>) -> bool {
    forall|i: int| 0 <= i < s.len() ==> (#[trigger] digit_value(s[i])) is Some
}

/// Whether every character of `s` is a digit as [`digit_char`] writes it:
/// `0` to `9` or `a` to `f`.
pub open spec fn is_lower_digits(s: Seq<char>) -> bool {
    forall|i: int| 0 <= i < s.len() ==> is_lower_digit(#[trigger] s[i])
}

/// Whether `c` is one of `0` to `9` or `a` to `f`.
pub open spec fn is_lower_digit(c: char) -> bool {
    '0' <= c <= '9' || 'a' <= c <= 'f'
}

/// The number that the digits `s` denote, most significant digit first. A
/// character that is no digit counts as zero.
pub open spec fn number(s: Seq<char>) -> nat
    decreases s.len(),
{
    if s.len() == 0 {
        0
    } else {
        16 * number(s.drop_last()) + match digit_value(s.last()) {
            Some(d) => d,
            None => 0,
        }
    }
}

/// The lower-case digit for a value below sixteen.
pub open spec fn digit_char(d: nat) -> char {
    if d < 10 {
        ('0' as u32 + d) as char
    } else {
        ('a' as u32 + (d - 10)) as char
    }
}

/// The last `width` digits of `n`, most significant first, padded with `0`.
pub open spec fn text(n: nat, width: nat) -> Seq<char>
    decreases width,
{
    if width == 0 {
        Seq::empty()
    } else {
        text(n / 16, (width - 1) as nat).push(digit_char(n % 16))
    }
}

/// The digits of `n` without padding: at least one, and no leading `0`
/// unless `n` is zero.
pub open spec fn short_text(n: nat) -> Seq<char>
    decreases n,
{
    if n < 16 {
        seq![digit_char(n)]
    } else {
        short_text(n / 16).push(digit_char(n % 16))
    }
}

/// Sixteen to the power `k`.
pub open spec fn pow16(k: nat) -> nat
    decreases k,
{
    if k == 0 {
        1
    } else {
        16 * pow16((k - 1) as nat)
    }
}

/// A written digit reads back as its value.
pub proof fn lemma_digit_round_trip(d: nat)
    requires
        d < 16,
    ensures
        digit_value(digit_char(d)) == Some(d),
        is_lower_digit(digit_char(d)),
{
}

/// A lower-case digit is the one written for its value.
pub proof fn lemma_digit_char_of_value(c: char)
    requires
        is_lower_digit(c),
    ensures
        digit_value(c) is Some,
        digit_value(c)->0 < 16,
        digit_char(digit_value(c)->0) == c,
{
}

/// A run of digits denotes a number below sixteen to the power of its
/// length.
pub proof fn lemma_number_bound(s: Seq<char>)
    ensures
        number(s) < pow16(s.len()),
    decreases s.len(),
{
    if s.len() > 0 {
        lemma_number_bound(s.drop_last());
        assert(match digit_value(s.last()) {
            Some(d) => d,
            None => 0,
        } < 16);
    }
}

/// The number grows, or stays, as digits are appended: a prefix denotes no
/// more than the whole.
pub proof fn lemma_number_prefix(s: Seq<char>, k: int)
    requires
        0 <= k <= s.len(),
    ensures
        number(s.subrange(0, k)) <= number(s),
    decreases s.len() - k,
{
    if k == s.len() {
        assert(s.subrange(0, k) =~= s);
    } else {
        lemma_number_prefix(s, k + 1);
        let t = s.subrange(0, k + 1);
        assert(t.drop_last() =~= s.subrange(0, k));
    }
}

/// `text` writes `width` digits, all lower-case.
pub proof fn lemma_text_shape(n: nat, width: nat)
    ensures
        text(n, width).len() == width,
        is_lower_digits(text(n, width)),
    decreases width,
{
    if width > 0 {
        lemma_text_shape(n / 16, (width - 1) as nat);
        lemma_digit_round_trip(n % 16);
    }
}

/// Reading what `text` wrote gives the number back, as far as it fits in
/// `width` digits.
pub proof fn lemma_number_of_text(n: nat, width: nat)
    ensures
        number(text(n, width)) == n % pow16(width),
    decreases width,
{
    if width > 0 {
        let w = (width - 1) as nat;
        lemma_number_of_text(n / 16, w);
        lemma_digit_round_trip(n % 16);
        let t = text(n, width);
        assert(t.drop_last() =~= text(n / 16, w));
        assert(t.last() == digit_char(n % 16));
        lemma_pow16_positive(w);
        lemma_mod_split(n, pow16(w));
    }
}

/// Writing, with as many digits, the number that lower-case digits denote
/// gives the same digits back.
pub proof fn lemma_text_of_number(s: Seq<char>)
    requires
        is_lower_digits(s),
    ensures
        text(number(s), s.len()) == s,
    decreases s.len(),
{
    if s.len() > 0 {
        let init = s.drop_last();
        lemma_text_of_number(init);
        lemma_digit_char_of_value(s.last());
        let d = digit_value(s.last())->0;
        assert(number(s) == 16 * number(init) + d);
        assert(number(s) / 16 == number(init));
        assert(number(s) % 16 == d);
        assert(text(number(s), s.len()) =~= s);
    } else {
        assert(text(number(s), s.len()) =~= s);
    }
}

/// `short_text` writes lower-case digits that read back as the number.
pub proof fn lemma_short_text(n: nat)
    ensures
        short_text(n).len() >= 1,
        is_lower_digits(short_text(n)),
        number(short_text(n)) == n,
    decreases n,
{
    lemma_digit_round_trip(n % 16);
    let t = short_text(n);
    if n < 16 {
        assert(t.drop_last() =~= Seq::<char>::empty());
        assert(number(t.drop_last()) == 0);
    } else {
        lemma_short_text(n / 16);
        assert(t.drop_last() =~= short_text(n / 16));
    }
}

/// Taking a number modulo `16 * m` is taking its last digit and the rest
/// modulo `m`.
proof fn lemma_mod_split(n: nat, m: nat)
    requires
        m > 0,
    ensures
        16 * ((n / 16) % m) + n % 16 == n % (16 * m),
{
    let q = n / 16;
    let r = n % 16;
    let a = q / m;
    let b = q % m;
    assert(q == m * a + b) by (nonlinear_arith)
        requires
            a == q / m,
            b == q % m,
            m > 0,
    ;
    assert(n == a * (16 * m) + (16 * b + r)) by (nonlinear_arith)
        requires
            n == 16 * q + r,
            q == m * a + b,
    ;
    assert(0 <= 16 * b + r < 16 * m) by (nonlinear_arith)
        requires
            0 <= b < m,
            0 <= r < 16,
    ;
    vstd::arithmetic::div_mod::lemma_fundamental_div_mod_converse(
        n as int,
        (16 * m) as int,
        a as int,
        (16 * b + r) as int,
    );
}

/// The value of the character `c` as a hexadecimal digit.
pub fn digit(c: char) -> (r: Option<u8>)
    ensures
        r is Some <==> digit_value(c) is Some,
        r is Some ==> r->0 as nat == digit_value(c)->0 && r->0 < 16,
{
    if '0' <= c && c <= '9' {
        Some((c as u32 - '0' as u32) as u8)
    } else if 'a' <= c && c <= 'f' {
        Some((c as u32 - 'a' as u32 + 10) as u8)
    } else if 'A' <= c && c <= 'F' {
        Some((c as u32 - 'A' as u32 + 10) as u8)
    } else {
        None
    }
}

/// Whether the characters of `s` from position `from` on can be read as one
/// hexadecimal number that fits in 64 bits.
pub open spec fn readable(s: Seq<char>, from: int) -> bool {
    &&& 0 <= from < s.len()
    &&& is_digits(s.subrange(from, s.len() as int))
    &&& number(s.subrange(from, s.len() as int)) <= u64::MAX
}

/// Reads the characters of `s` from position `from` to the end as one
/// hexadecimal number.
///
/// The result is `Some` exactly when at least one character follows `from`,
/// all of them are hexadecimal digits and the number fits in 64 bits. Leading
/// zeros are read; a sign is no digit.
pub fn read(s: &str, from: usize) -> (r: Option<u64>)
    ensures
        r is Some <==> readable(s@, from as int),
        r is Some ==> r->0 as nat == number(s@.subrange(from as int, s@.len() as int)),
{
    let n = s.unicode_len();
    if from >= n {
        return None;
    }
    let ghost tail = s@.subrange(from as int, n as int);
    let mut acc: u64 = 0;
    let mut i: usize = from;
    while i < n
        invariant
            from <= i <= n,
            n == s@.len(),
            tail == s@.subrange(from as int, n as int),
            is_digits(tail.subrange(0, i - from)),
            acc as nat == number(tail.subrange(0, i - from)),
        decreases n - i,
    {
        let c = s.get_char(i);
        let ghost before = tail.subrange(0, i - from);
        let ghost after = tail.subrange(0, i - from + 1);
        proof {
            assert(after.drop_last() =~= before);
            assert(after.last() == c);
            assert(tail[i - from] == c);
        }
        match digit(c) {
            None => {
                proof {
                    assert(digit_value(tail[i - from]) is None);
                }
                return None;
            },
            Some(d) => {
                if acc > 0x0fff_ffff_ffff_ffff {
                    proof {
                        assert(number(after) > u64::MAX);
                        lemma_number_prefix(tail, i - from + 1);
                    }
                    return None;
                }
                proof {
                    assert forall|j: int| 0 <= j < after.len() implies (#[trigger] digit_value(
                        after[j],
                    )) is Some by {
                        if j < before.len() {
                            assert(after[j] == before[j]);
                        }
                    }
                }
                acc = acc * 16 + d as u64;
                i = i + 1;
            },
        }
    }
    proof {
        assert(tail.subrange(0, i - from) =~= tail);
    }
    Some(acc)
}

/// The digit for a value below sixteen, as a string of one character.
fn digit_str(d: u8) -> (r: &'static str)
    requires
        d < 16,
    ensures
        r@ == seq![digit_char(d as nat)],
{
    proof {
        reveal_strlit("0");
        reveal_strlit("1");
        reveal_strlit("2");
        reveal_strlit("3");
        reveal_strlit("4");
        reveal_strlit("5");
        reveal_strlit("6");
        reveal_strlit("7");
        reveal_strlit("8");
        reveal_strlit("9");
        reveal_strlit("a");
        reveal_strlit("b");
        reveal_strlit("c");
        reveal_strlit("d");
        reveal_strlit("e");
        reveal_strlit("f");
    }
    let r = match d {
        0 => "0",
        1 => "1",
        2 => "2",
        3 => "3",
        4 => "4",
        5 => "5",
        6 => "6",
        7 => "7",
        8 => "8",
        9 => "9",
        10 => "a",
        11 => "b",
        12 => "c",
        13 => "d",
        14 => "e",
        _ => "f",
    };
    assert(r@ =~= seq![digit_char(d as nat)]);
    r
}

/// Appends the last `width` digits of `n` to `out`: with more than sixteen
/// digits, zeros come first.
pub fn write(out: &mut String, n: u64, width: u8)
    ensures
        final(out)@ == old(out)@ + text(n as nat, width as nat),
{
    if width == 0 {
        proof {
            assert(out@ + text(n as nat, 0) =~= out@);
        }
        return ;
    }
    let mut k: u8 = width;
    while k > 16
        invariant
            0 < k <= width,
            out@ + text(n as nat, k as nat) == old(out)@ + text(n as nat, width as nat),
        decreases k,
    {
        proof {
            lemma_text_step(n as nat, k as nat);
            lemma_pow16_values();
            lemma_pow16_grows(16, (k - 1) as nat);
            lemma_small_quotient(n as nat, pow16((k - 1) as nat));
        }
        let ghost before = out@;
        out.append(digit_str(0));
        k = k - 1;
        proof {
            assert(out@ + text(n as nat, k as nat) =~= before + text(n as nat, (k + 1) as nat));
        }
    }
    // `unit` is the weight of the digit that is written next.
    let mut unit: u64 = 1;
    let mut j: u8 = 1;
    while j < k
        invariant
            1 <= j <= k <= 16,
            unit == pow16((j - 1) as nat),
        decreases k - j,
    {
        proof {
            lemma_pow16_bound((j - 1) as nat);
        }
        unit = unit * 16;
        j = j + 1;
    }
    while k > 0
        invariant
            k <= 16,
            k > 0 ==> unit == pow16((k - 1) as nat),
            out@ + text(n as nat, k as nat) == old(out)@ + text(n as nat, width as nat),
        decreases k,
    {
        proof {
            lemma_pow16_positive((k - 1) as nat);
            lemma_text_step(n as nat, k as nat);
        }
        let d: u8 = ((n / unit) % 16) as u8;
        let ghost before = out@;
        out.append(digit_str(d));
        k = k - 1;
        unit = unit / 16;
        proof {
            assert(out@ + text(n as nat, k as nat) =~= before + text(n as nat, (k + 1) as nat));
        }
    }
    proof {
        assert(out@ + text(n as nat, 0) =~= out@);
    }
}

/// The powers of sixteen grow with the exponent.
proof fn lemma_pow16_grows(low: nat, high: nat)
    requires
        low <= high,
    ensures
        pow16(low) <= pow16(high),
    decreases high - low,
{
    if low < high {
        lemma_pow16_grows(low, (high - 1) as nat);
        lemma_pow16_positive((high - 1) as nat);
    }
}

/// A number below the divisor has the quotient zero.
proof fn lemma_small_quotient(n: nat, m: nat)
    requires
        n < m,
    ensures
        n / m == 0,
        (n / m) % 16 == 0,
{
    vstd::arithmetic::div_mod::lemma_basic_div(n as int, m as int);
}

/// Appends the digits of `n` to `out`, without padding.
pub fn write_short(out: &mut String, n: u64)
    ensures
        final(out)@ == old(out)@ + short_text(n as nat),
{
    let mut width: u8 = 1;
    let mut rest: u64 = n / 16;
    proof {
        assert(pow16(1) == 16) by {
            reveal_with_fuel(pow16, 2);
        }
        assert(pow16(0) == 1);
        lemma_pow16_values();
    }
    while rest > 0
        invariant
            1 <= width <= 16,
            rest == n as nat / pow16(width as nat),
            width == 1 || n as nat >= pow16((width - 1) as nat),
            pow16(16) == 0x1_0000_0000_0000_0000,
        decreases rest,
    {
        proof {
            lemma_pow16_positive(width as nat);
            lemma_div_pow16_after(n as nat, width as nat);
            if width == 16 {
                assert(n as nat / pow16(16) == 0);
            }
            lemma_div_positive(n as nat, pow16(width as nat));
        }
        rest = rest / 16;
        width = width + 1;
    }
    proof {
        lemma_pow16_positive(width as nat);
        lemma_div_zero(n as nat, pow16(width as nat));
        lemma_short_is_text(n as nat, width as nat);
    }
    write(out, n, width)
}

/// Dividing by `16^j` and then by sixteen is dividing by `16^(j + 1)`.
proof fn lemma_div_pow16_after(n: nat, j: nat)
    ensures
        (n / pow16(j)) / 16 == n / pow16(j + 1),
{
    lemma_pow16_positive(j);
    vstd::arithmetic::div_mod::lemma_div_denominator(n as int, pow16(j) as int, 16);
    assert(pow16(j + 1) == 16 * pow16(j));
    assert(pow16(j) * 16 == 16 * pow16(j));
}

/// A quotient above zero says that the number is at least the divisor.
proof fn lemma_div_positive(n: nat, m: nat)
    requires
        m > 0,
        n / m > 0,
    ensures
        n >= m,
{
    if n < m {
        vstd::arithmetic::div_mod::lemma_basic_div(n as int, m as int);
    }
}

/// A quotient of zero says that the number is below the divisor.
proof fn lemma_div_zero(n: nat, m: nat)
    requires
        m > 0,
        n / m == 0,
    ensures
        n < m,
{
    vstd::arithmetic::div_mod::lemma_fundamental_div_mod(n as int, m as int);
    vstd::arithmetic::div_mod::lemma_mod_pos_bound(n as int, m as int);
}

/// The digits of a number without padding are its last `width` digits,
/// where `width` is the least number of digits that holds it.
proof fn lemma_short_is_text(n: nat, width: nat)
    requires
        width >= 1,
        n < pow16(width),
        width == 1 || n >= pow16((width - 1) as nat),
    ensures
        short_text(n) == text(n, width),
    decreases width,
{
    assert(pow16(1) == 16) by {
        reveal_with_fuel(pow16, 2);
    }
    if width == 1 {
        assert(text(n, 0) =~= Seq::<char>::empty());
        assert(text(n / 16, 0) =~= Seq::<char>::empty());
        assert(text(n, 1) =~= seq![digit_char(n % 16)]);
    } else {
        let w = (width - 1) as nat;
        lemma_pow16_positive((w - 1) as nat);
        assert(pow16(w) == 16 * pow16((w - 1) as nat));
        assert(pow16(width) == 16 * pow16(w));
        assert(n >= 16);
        lemma_short_is_text(n / 16, w);
    }
}

/// The last `k` digits of `n` are the digit at position `k - 1`, counted
/// from the least significant, followed by the last `k - 1` digits.
proof fn lemma_text_step(n: nat, k: nat)
    requires
        k > 0,
    ensures
        text(n, k) == seq![digit_char((n / pow16((k - 1) as nat)) % 16)] + text(n, (k - 1) as nat),
    decreases k,
{
    if k == 1 {
        assert(pow16(0) == 1);
        assert(n / 1 == n);
        assert(text(n, 0) =~= Seq::<char>::empty());
        assert(text(n / 16, 0) =~= Seq::<char>::empty());
        assert(text(n, 1) =~= seq![digit_char(n % 16)]);
        assert(seq![digit_char(n % 16)] + Seq::<char>::empty() =~= seq![digit_char(n % 16)]);
    } else {
        let j = (k - 1) as nat;
        lemma_text_step(n / 16, j);
        lemma_div_pow16(n, (j - 1) as nat);
        let head = seq![digit_char((n / pow16(j)) % 16)];
        let last = digit_char(n % 16);
        assert(text(n / 16, j) == head + text(n / 16, (j - 1) as nat));
        assert(text(n, j) == text(n / 16, (j - 1) as nat).push(last));
        assert(text(n, k) == text(n / 16, j).push(last));
        assert((head + text(n / 16, (j - 1) as nat)).push(last) =~= head + text(
            n / 16,
            (j - 1) as nat,
        ).push(last));
    }
}

/// Dividing by sixteen and then by `16^j` is dividing by `16^(j + 1)`.
proof fn lemma_div_pow16(n: nat, j: nat)
    ensures
        (n / 16) / pow16(j) == n / pow16(j + 1),
{
    lemma_pow16_positive(j);
    vstd::arithmetic::div_mod::lemma_div_denominator(n as int, 16, pow16(j) as int);
    assert(pow16(j + 1) == 16 * pow16(j));
}

/// Sixteen to any power is positive.
pub proof fn lemma_pow16_positive(k: nat)
    ensures
        pow16(k) > 0,
    decreases k,
{
    if k > 0 {
        lemma_pow16_positive((k - 1) as nat);
    }
}

/// Three powers of sixteen: the sixth is the number of colours of 24 bits,
/// the sixteenth the number of identifiers of 64 bits.
pub proof fn lemma_pow16_values()
    ensures
        pow16(6) == 0x100_0000,
        pow16(14) == 0x100_0000_0000_0000,
        pow16(16) == 0x1_0000_0000_0000_0000,
{
    assert(pow16(0) == 1);
    assert(pow16(2) == 0x100) by {
        reveal_with_fuel(pow16, 3);
    }
    assert(pow16(4) == 0x1_0000) by {
        reveal_with_fuel(pow16, 3);
    }
    assert(pow16(6) == 0x100_0000) by {
        reveal_with_fuel(pow16, 3);
    }
    assert(pow16(8) == 0x1_0000_0000) by {
        reveal_with_fuel(pow16, 3);
    }
    assert(pow16(10) == 0x100_0000_0000) by {
        reveal_with_fuel(pow16, 3);
    }
    assert(pow16(12) == 0x1_0000_0000_0000) by {
        reveal_with_fuel(pow16, 3);
    }
    assert(pow16(14) == 0x100_0000_0000_0000) by {
        reveal_with_fuel(pow16, 3);
    }
    assert(pow16(16) == 0x1_0000_0000_0000_0000) by {
        reveal_with_fuel(pow16, 3);
    }
}

/// Sixteen to a power below fifteen, taken sixteen times, fits in 64 bits.
proof fn lemma_pow16_bound(k: nat)
    requires
        k <= 14,
    ensures
        16 * pow16(k) <= 0x1000_0000_0000_0000,
    decreases 14 - k,
{
    if k < 14 {
        lemma_pow16_bound(k + 1);
    } else {
        lemma_pow16_values();
    }
}

} // verus!
