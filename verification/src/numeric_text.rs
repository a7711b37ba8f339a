//! Decimal and hexadecimal text of unsigned integers.

use vstd::prelude::*;

verus! {

/// The characters of a string slice, in order.
pub fn chars_of(s: &str) -> (res: Vec<char>)
    ensures
        res@ == s@,
{
    let mut res: Vec<char> = Vec::new();
    let ghost all = s@;
    for c in it: s.chars()
        invariant
            it.seq() == all,
            res@ == all.take(it.index() as int),
    {
        res.push(c);
        proof {
            assert(all.take(it.index() as int + 1) =~= all.take(it.index() as int).push(c));
        }
    }
    proof {
        assert(all.take(all.len() as int) =~= all);
    }
    res
}


/// Whether two string slices hold the same characters.
pub fn text_eq(a: &str, b: &str) -> (res: bool)
    ensures
        res == (a@ == b@),
{
    let x = chars_of(a);
    let y = chars_of(b);
    if x.len() != y.len() {
        return false;
    }
    let mut i: usize = 0;
    while i < x.len()
        invariant
            x@ == a@,
            y@ == b@,
            x.len() == y.len(),
            i <= x.len(),
            forall|j: int| 0 <= j < i ==> x@[j] == y@[j],
        decreases x.len() - i,
    {
        if x[i] != y[i] {
            return false;
        }
        i = i + 1;
    }
    assert(a@ =~= b@);
    true
}

/// Whether `c` is one of the ASCII digits `0` to `9`.
pub open spec fn is_decimal_digit(c: char) -> bool {
    '0' <= c && c <= '9'
}

/// The value of an ASCII digit.
pub open spec fn digit_value(c: char) -> nat {
    (c as int - '0' as int) as nat
}

/// The ASCII digit for a value below ten.
pub open spec fn decimal_digit(d: nat) -> char {
    (d + '0' as int) as char
}

/// The lower-case hexadecimal digit for a value below sixteen.
pub open spec fn hex_digit(d: nat) -> char {
    if d < 10 {
        (d + '0' as int) as char
    } else {
        (d - 10 + 'a' as int) as char
    }
}

/// Every character of `s` is an ASCII digit.
pub open spec fn all_decimal_digits(s: Seq<char>) -> bool {
    forall|i: int| 0 <= i < s.len() ==> #[trigger] is_decimal_digit(s[i])
}

/// The number that a string of decimal digits denotes.
pub open spec fn digits_value(s: Seq<char>) -> nat
    decreases s.len(),
{
    if s.len() == 0 {
        0
    } else {
        digits_value(s.drop_last()) * 10 + digit_value(s.last())
    }
}

/// What `str::parse::<u64>` gives: an optional leading `+`, then at least one
/// ASCII digit, and a value that fits in 64 bits; anything else is refused.
pub open spec fn parsed_u64(s: Seq<char>) -> Option<u64> {
    let digits = if s.len() > 0 && s[0] == '+' {
        s.drop_first()
    } else {
        s
    };
    if digits.len() > 0 && all_decimal_digits(digits) && digits_value(digits) <= u64::MAX {
        Some(digits_value(digits) as u64)
    } else {
        None
    }
}

/// The decimal text of `n`, without leading zeros (`0` for zero), as `{}` prints it.
pub open spec fn decimal_text(n: nat) -> Seq<char>
    decreases n,
{
    if n < 10 {
        seq![decimal_digit(n)]
    } else {
        decimal_text(n / 10).push(decimal_digit(n % 10))
    }
}

/// The lower-case hexadecimal text of `n`, without leading zeros, as `{:x}` prints it.
pub open spec fn hex_text(n: nat) -> Seq<char>
    decreases n,
{
    if n < 16 {
        seq![hex_digit(n)]
    } else {
        hex_text(n / 16).push(hex_digit(n % 16))
    }
}

/// The decimal text of `n`, padded on the left with zeros to at least `width`
/// characters, as `{:0width$}` prints it.
pub open spec fn zero_padded_text(n: nat, width: nat) -> Seq<char> {
    let t = decimal_text(n);
    if t.len() < width {
        Seq::new((width - t.len()) as nat, |i: int| '0') + t
    } else {
        t
    }
}

/// The one-character string of a decimal digit.
fn decimal_digit_str(d: u64) -> (res: &'static str)
    requires
        d < 10,
    ensures
        res@ == seq![decimal_digit(d as nat)],
{
    hex_digit_str(d)
}

/// The one-character string of a lower-case hexadecimal digit.
fn hex_digit_str(d: u64) -> (res: &'static str)
    requires
        d < 16,
    ensures
        res@ == seq![hex_digit(d as nat)],
{
    proof {
        reveal_strlit("0");
        reveal_strlit("1");
        reveal_strlit("2");
        reveal_strlit("3");
        reveal_strlit("4");
        reveal_strlit("5");
        reveal_strlit("6");
        reveal_strlit("7");
        reveal_strlit("8");
        reveal_strlit("9");
        reveal_strlit("a");
        reveal_strlit("b");
        reveal_strlit("c");
        reveal_strlit("d");
        reveal_strlit("e");
        reveal_strlit("f");
    }
    let res = match d {
        0 => "0",
        1 => "1",
        2 => "2",
        3 => "3",
        4 => "4",
        5 => "5",
        6 => "6",
        7 => "7",
        8 => "8",
        9 => "9",
        10 => "a",
        11 => "b",
        12 => "c",
        13 => "d",
        14 => "e",
        _ => "f",
    };
    assert(res@ =~= seq![hex_digit(d as nat)]);
    res
}

/// Appends the decimal text of `n` to `out`.
pub fn push_decimal(out: &mut String, n: u64)
    ensures
        final(out)@ == old(out)@ + decimal_text(n as nat),
    decreases n,
{
    if n >= 10 {
        push_decimal(out, n / 10);
    }
    out.append(decimal_digit_str(n % 10));
    proof {
        assert(decimal_text(n as nat) == (if n < 10 {
            seq![decimal_digit(n as nat)]
        } else {
            decimal_text((n / 10) as nat).push(decimal_digit((n % 10) as nat))
        }));
        if n < 10 {
            assert(n % 10 == n);
        }
        assert(old(out)@ + decimal_text(n as nat) =~= final(out)@) by {
            assert(final(out)@ == out@);
        }
    }
}

/// Appends the lower-case hexadecimal text of `n` to `out`.
pub fn push_hex(out: &mut String, n: u64)
    ensures
        final(out)@ == old(out)@ + hex_text(n as nat),
    decreases n,
{
    if n >= 16 {
        push_hex(out, n / 16);
    }
    out.append(hex_digit_str(n % 16));
    proof {
        if n < 16 {
            assert(n % 16 == n);
        }
        assert(old(out)@ + hex_text(n as nat) =~= out@);
    }
}

/// The decimal text of `n`.
pub fn u64_to_decimal(n: u64) -> (res: String)
    ensures
        res@ == decimal_text(n as nat),
{
    let mut res = String::new();
    push_decimal(&mut res, n);
    assert(res@ =~= decimal_text(n as nat));
    res
}


/// A prefix of a string of digits never denotes more than the whole string.
pub proof fn lemma_digits_prefix_le(s: Seq<char>, k: int)
    requires
        0 <= k <= s.len(),
        all_decimal_digits(s),
    ensures
        digits_value(s.take(k)) <= digits_value(s),
    decreases s.len(),
{
    if k < s.len() {
        let t = s.drop_last();
        assert(all_decimal_digits(t)) by {
            assert forall|i: int| 0 <= i < t.len() implies #[trigger] is_decimal_digit(t[i]) by {
                assert(is_decimal_digit(s[i]));
            }
        }
        lemma_digits_prefix_le(t, k);
        assert(t.take(k) =~= s.take(k));
    } else {
        assert(s.take(k) =~= s);
    }
}

/// The digits of `s` from `start` up to `end`, with their value folded from the left.
proof fn lemma_digits_step(s: Seq<char>, start: int, end: int)
    requires
        0 <= start <= end < s.len(),
    ensures
        digits_value(s.subrange(start, end + 1)) == digits_value(s.subrange(start, end)) * 10
            + digit_value(s[end]),
{
    assert(s.subrange(start, end + 1).drop_last() =~= s.subrange(start, end));
}

/// Reads an unsigned 64-bit number in decimal, as `str::parse::<u64>` does.
pub fn parse_u64(s: &str) -> (res: Option<u64>)
    ensures
        res == parsed_u64(s@),
{
    let chars = chars_of(s);
    let len = chars.len();
    let start: usize = if len > 0 && chars[0] == '+' {
        1
    } else {
        0
    };
    let ghost digits = if s@.len() > 0 && s@[0] == '+' {
        s@.drop_first()
    } else {
        s@
    };
    assert(digits =~= s@.subrange(start as int, len as int));
    if start == len {
        return None;
    }
    let mut acc: u64 = 0;
    let mut i: usize = start;
    assert(s@.subrange(start as int, start as int) =~= Seq::<char>::empty());
    while i < len
        invariant
            chars@ == s@,
            len == s@.len(),
            start <= i <= len,
            start < len,
            digits =~= s@.subrange(start as int, len as int),
            digits == (if s@.len() > 0 && s@[0] == '+' {
                s@.drop_first()
            } else {
                s@
            }),
            all_decimal_digits(s@.subrange(start as int, i as int)),
            acc == digits_value(s@.subrange(start as int, i as int)),
        decreases len - i,
    {
        let c = chars[i];
        if !('0' <= c && c <= '9') {
            assert(!is_decimal_digit(digits[i - start]));
            return None;
        }
        let d: u64 = (c as u32 - '0' as u32) as u64;
        proof {
            lemma_digits_step(s@, start as int, i as int);
            assert(all_decimal_digits(s@.subrange(start as int, i + 1))) by {
                let pre = s@.subrange(start as int, i + 1);
                assert forall|j: int| 0 <= j < pre.len() implies #[trigger] is_decimal_digit(
                    pre[j],
                ) by {
                    if j < i - start {
                        assert(is_decimal_digit(s@.subrange(start as int, i as int)[j]));
                    }
                }
            }
        }
        let next = match acc.checked_mul(10) {
            Some(m) => m.checked_add(d),
            None => None,
        };
        match next {
            Some(v) => {
                acc = v;
            },
            None => {
                proof {
                    if all_decimal_digits(digits) {
                        lemma_digits_prefix_le(digits, i + 1 - start);
                        assert(digits.take(i + 1 - start) =~= s@.subrange(start as int, i + 1));
                    }
                }
                return None;
            },
        }
        i = i + 1;
    }
    assert(s@.subrange(start as int, len as int) =~= digits);
    Some(acc)
}


/// The decimal text of a number is made of digits and denotes that number.
pub proof fn lemma_decimal_text_digits(n: nat)
    ensures
        decimal_text(n).len() > 0,
        all_decimal_digits(decimal_text(n)),
        digits_value(decimal_text(n)) == n,
    decreases n,
{
    let t = decimal_text(n);
    assert(digit_value(decimal_digit(n % 10)) == n % 10);
    if n < 10 {
        assert(t.drop_last() =~= Seq::<char>::empty());
        assert(t.last() == decimal_digit(n));
        assert(n % 10 == n);
        assert(digits_value(t) == digits_value(t.drop_last()) * 10 + digit_value(t.last()));
    } else {
        lemma_decimal_text_digits(n / 10);
        let p = decimal_text(n / 10);
        assert(t.drop_last() =~= p);
        assert(t.last() == decimal_digit(n % 10));
        assert(digits_value(t) == digits_value(t.drop_last()) * 10 + digit_value(t.last()));
        assert forall|i: int| 0 <= i < t.len() implies #[trigger] is_decimal_digit(t[i]) by {
            if i < p.len() {
                assert(t[i] == p[i]);
                assert(is_decimal_digit(p[i]));
            }
        }
    }
}

/// Law: reading back the decimal text of any 64-bit number gives that number.
pub proof fn law_decimal_round_trip(n: u64)
    ensures
        parsed_u64(decimal_text(n as nat)) == Some(n),
{
    lemma_decimal_text_digits(n as nat);
    let t = decimal_text(n as nat);
    assert(is_decimal_digit(t[0]));
}


/// A run of zeros denotes zero.
proof fn lemma_zeros_value(k: nat)
    ensures
        all_decimal_digits(Seq::new(k, |i: int| '0')),
        digits_value(Seq::new(k, |i: int| '0')) == 0,
    decreases k,
{
    if k > 0 {
        lemma_zeros_value((k - 1) as nat);
        assert(Seq::new(k, |i: int| '0').drop_last() =~= Seq::new((k - 1) as nat, |i: int| '0'));
    }
}

/// Zeros in front of a string of digits do not change what it denotes.
proof fn lemma_leading_zeros(k: nat, t: Seq<char>)
    ensures
        digits_value(Seq::new(k, |i: int| '0') + t) == digits_value(t),
    decreases t.len(),
{
    let z = Seq::new(k, |i: int| '0');
    lemma_zeros_value(k);
    if t.len() == 0 {
        assert(z + t =~= z);
    } else {
        lemma_leading_zeros(k, t.drop_last());
        assert((z + t).drop_last() =~= z + t.drop_last());
        assert((z + t).last() == t.last());
    }
}

/// The zero-padded text of a number is made of digits, at least `width` of them,
/// and denotes that number; below one hundred, padded to two, it has exactly two.
pub proof fn lemma_zero_padded_digits(n: nat, width: nat)
    ensures
        all_decimal_digits(zero_padded_text(n, width)),
        digits_value(zero_padded_text(n, width)) == n,
        zero_padded_text(n, width).len() >= width,
        zero_padded_text(n, width).len() >= 1,
        n < 100 && width == 2 ==> zero_padded_text(n, width).len() == 2,
{
    lemma_decimal_text_digits(n);
    let t = decimal_text(n);
    if t.len() < width {
        let k = (width - t.len()) as nat;
        lemma_zeros_value(k);
        lemma_leading_zeros(k, t);
        let z = Seq::new(k, |i: int| '0');
        assert forall|i: int| 0 <= i < (z + t).len() implies #[trigger] is_decimal_digit(
            (z + t)[i],
        ) by {
            if i < k {
                assert(is_decimal_digit(z[i]));
            } else {
                assert((z + t)[i] == t[i - k]);
                assert(is_decimal_digit(t[i - k]));
            }
        }
    }
    if n < 100 && width == 2 {
        if n >= 10 {
            assert(decimal_text(n / 10).len() == 1);
        }
        assert(t.len() <= 2);
    }
}

/// Ten to the power `k`.
pub open spec fn pow10(k: nat) -> nat
    decreases k,
{
    if k == 0 {
        1
    } else {
        10 * pow10((k - 1) as nat)
    }
}

/// A number below ten to the `k` has at most `k` decimal digits (and at least one).
pub proof fn lemma_decimal_text_len(n: nat, k: nat)
    requires
        k >= 1,
        n < pow10(k),
    ensures
        decimal_text(n).len() <= k,
    decreases k,
{
    if n >= 10 {
        assert(k >= 2) by {
            if k == 1 {
                assert(pow10(1) == 10 * pow10(0));
            }
        }
        assert(pow10(k) == 10 * pow10((k - 1) as nat));
        assert(n / 10 < pow10((k - 1) as nat));
        lemma_decimal_text_len(n / 10, (k - 1) as nat);
    }
}

/// Padded to `width`, a number below ten to the `width` has exactly `width` digits.
pub proof fn lemma_zero_padded_len(n: nat, width: nat)
    requires
        width >= 1,
        n < pow10(width),
    ensures
        zero_padded_text(n, width).len() == width,
{
    lemma_decimal_text_len(n, width);
}

/// Appends the decimal text of `n`, padded on the left with zeros to at least `width` characters.
pub fn push_zero_padded(out: &mut String, n: u64, width: usize)
    ensures
        final(out)@ == old(out)@ + zero_padded_text(n as nat, width as nat),
{
    let digits = u64_to_decimal(n);
    let len = digits.as_str().unicode_len();
    let ghost start = out@;
    if len < width {
        let mut k: usize = 0;
        while k < width - len
            invariant
                len < width,
                k <= width - len,
                out@ == start + Seq::new(k as nat, |i: int| '0'),
            decreases width - len - k,
        {
            out.append("0");
            proof {
                reveal_strlit("0");
                assert(start + Seq::new((k + 1) as nat, |i: int| '0') =~= start + Seq::new(
                    k as nat,
                    |i: int| '0',
                ) + seq!['0']);
            }
            k = k + 1;
        }
    }
    out.append(digits.as_str());
    proof {
        assert(final(out)@ =~= start + zero_padded_text(n as nat, width as nat));
    }
}

} // verus!
