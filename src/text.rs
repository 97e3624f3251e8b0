//! Decimal and hexadecimal rendering of integers into text, and reading
//! decimal integer literals back.
use vstd::prelude::*;

verus! {

/// The character of a digit below sixteen (upper-case letters past nine).
pub open spec fn hex_digit(d: nat) -> char {
    if d == 0 { '0' }
    else if d == 1 { '1' }
    else if d == 2 { '2' }
    else if d == 3 { '3' }
    else if d == 4 { '4' }
    else if d == 5 { '5' }
    else if d == 6 { '6' }
    else if d == 7 { '7' }
    else if d == 8 { '8' }
    else if d == 9 { '9' }
    else if d == 10 { 'A' }
    else if d == 11 { 'B' }
    else if d == 12 { 'C' }
    else if d == 13 { 'D' }
    else if d == 14 { 'E' }
    else { 'F' }
}

/// Shortest decimal text of a natural number.
pub open spec fn dec_text(n: nat) -> Seq<char>
    decreases n,
{
    if n < 10 {
        seq![hex_digit(n)]
    } else {
        dec_text(n / 10).push(hex_digit(n % 10))
    }
}

/// Appends the digit `d` to `out`.
pub fn push_digit(out: &mut String, d: u64)
    requires
        d < 16,
    ensures
        final(out)@ == old(out)@.push(hex_digit(d as nat)),
{
    let digits = "0123456789ABCDEF";
    proof {
        reveal_strlit("0123456789ABCDEF");
    }
    let piece = digits.substring_ascii(d as usize, d as usize + 1);
    out.append(piece);
    assert(piece@ =~= seq![hex_digit(d as nat)]);
}

/// Appends the decimal text of `n` to `out`.
pub fn push_dec(out: &mut String, n: u64)
    ensures
        final(out)@ == old(out)@ + dec_text(n as nat),
    decreases n,
{
    if n >= 10 {
        push_dec(out, n / 10);
    }
    push_digit(out, n % 10);
}

/// Decimal text of an integer, with a leading '-' when negative.
pub open spec fn int_text(n: int) -> Seq<char> {
    if n < 0 {
        seq!['-'] + dec_text((-n) as nat)
    } else {
        dec_text(n as nat)
    }
}

/// Appends the decimal text of `n` to `out`.
pub fn push_int(out: &mut String, n: i64)
    ensures
        final(out)@ == old(out)@ + int_text(n as int),
{
    if n < 0 {
        out.append("-");
        proof {
            reveal_strlit("-");
        }
        push_dec(out, (-(n as i128)) as u64);
        assert(final(out)@ =~= old(out)@ + int_text(n as int));
    } else {
        push_dec(out, n as u64);
    }
}

/// Appends the decimal text of `n`, with a leading zero below ten.
pub fn push_dec2(out: &mut String, n: u64)
    ensures
        final(out)@ == old(out)@ + pad2_text(n as nat),
{
    if n < 10 {
        push_digit(out, 0);
    }
    push_dec(out, n);
    assert(final(out)@ =~= old(out)@ + pad2_text(n as nat));
}

/// Decimal text zero-padded to at least two digits.
pub open spec fn pad2_text(n: nat) -> Seq<char> {
    if n < 10 {
        seq!['0'] + dec_text(n)
    } else {
        dec_text(n)
    }
}

/// The lowest `width` hexadecimal digits of `n`, most significant first.
pub open spec fn hex_text(n: nat, width: nat) -> Seq<char>
    decreases width,
{
    if width == 0 {
        Seq::empty()
    } else {
        hex_text(n / 16, (width - 1) as nat).push(hex_digit(n % 16))
    }
}

/// Appends the lowest `width` hexadecimal digits of `n` to `out`.
pub fn push_hex(out: &mut String, n: u64, width: u32)
    ensures
        final(out)@ == old(out)@ + hex_text(n as nat, width as nat),
    decreases width,
{
    if width > 0 {
        push_hex(out, n / 16, width - 1);
        push_digit(out, n % 16);
    } else {
        assert(final(out)@ =~= old(out)@ + hex_text(n as nat, width as nat));
    }
}

/// The lowest `width` decimal digits of `n`, most significant first.
pub open spec fn fixed_dec_text(n: nat, width: nat) -> Seq<char>
    decreases width,
{
    if width == 0 {
        Seq::empty()
    } else {
        fixed_dec_text(n / 10, (width - 1) as nat).push(hex_digit(n % 10))
    }
}

/// Appends the lowest `width` decimal digits of `n` to `out`.
pub fn push_dec_fixed(out: &mut String, n: u64, width: u32)
    ensures
        final(out)@ == old(out)@ + fixed_dec_text(n as nat, width as nat),
    decreases width,
{
    if width > 0 {
        push_dec_fixed(out, n / 10, width - 1);
        push_digit(out, n % 10);
    } else {
        assert(final(out)@ =~= old(out)@ + fixed_dec_text(n as nat, width as nat));
    }
}

/// The characters of each text.
pub open spec fn texts(v: Seq<String>) -> Seq<Seq<char>> {
    v.map_values(|s: String| s@)
}

/// Appends the characters of `s` to `out`.
pub fn push_text(out: &mut String, s: &str)
    ensures
        final(out)@ == old(out)@ + s@,
{
    out.append(s);
}

/// Relies on std's `String::push`: the character is added at the end.
#[verifier::external_body]
pub fn push_char(out: &mut String, c: char)
    ensures
        final(out)@ == old(out)@.push(c),
{
    out.push(c);
}

/// Whether two texts hold the same characters.
pub fn same_text(a: &str, b: &str) -> (r: bool)
    ensures
        r == (a@ == b@),
{
    let n = a.unicode_len();
    if n != b.unicode_len() {
        return false;
    }
    let mut i: usize = 0;
    while i < n
        invariant
            n == a@.len(),
            n == b@.len(),
            i <= n,
            a@.subrange(0, i as int) == b@.subrange(0, i as int),
        decreases n - i,
    {
        if a.get_char(i) != b.get_char(i) {
            return false;
        }
        assert(a@.subrange(0, i + 1) =~= a@.subrange(0, i as int).push(a@[i as int]));
        assert(b@.subrange(0, i + 1) =~= b@.subrange(0, i as int).push(b@[i as int]));
        i = i + 1;
    }
    assert(a@ =~= a@.subrange(0, n as int));
    assert(b@ =~= b@.subrange(0, n as int));
    true
}

// ---------------------------------------------------------------------------
// Reading decimal literals

pub open spec fn is_dec_digit(c: char) -> bool {
    '0' <= c && c <= '9'
}

pub open spec fn digit_value(c: char) -> nat {
    (c as int - '0' as int) as nat
}

pub open spec fn all_digits(s: Seq<char>) -> bool {
    forall|i: int| 0 <= i < s.len() ==> is_dec_digit(#[trigger] s[i])
}

/// The number that a run of decimal digits spells.
pub open spec fn digits_value(s: Seq<char>) -> nat
    decreases s.len(),
{
    if s.len() == 0 {
        0
    } else {
        digits_value(s.drop_last()) * 10 + digit_value(s.last())
    }
}

/// One or more decimal digits.
pub open spec fn is_digit_run(s: Seq<char>) -> bool {
    s.len() > 0 && all_digits(s)
}

/// The value of a signed literal: an optional '+' or '-', then one or more
/// decimal digits.
pub open spec fn int_literal(s: Seq<char>) -> Option<int> {
    if s.len() > 0 && (s[0] == '-' || s[0] == '+') {
        if is_digit_run(s.drop_first()) {
            if s[0] == '-' {
                Some(-digits_value(s.drop_first()))
            } else {
                Some(digits_value(s.drop_first()) as int)
            }
        } else {
            None
        }
    } else if is_digit_run(s) {
        Some(digits_value(s) as int)
    } else {
        None
    }
}

/// The value of an unsigned literal: an optional '+', then one or more
/// decimal digits.
pub open spec fn nat_literal(s: Seq<char>) -> Option<nat> {
    if s.len() > 0 && s[0] == '+' {
        if is_digit_run(s.drop_first()) {
            Some(digits_value(s.drop_first()))
        } else {
            None
        }
    } else if is_digit_run(s) {
        Some(digits_value(s))
    } else {
        None
    }
}

/// Why a text is not an integer of the wanted type.
#[derive(Debug, Clone, Copy, PartialEq, Eq, Structural)]
pub enum ParseIntError {
    /// The text is empty.
    Empty,
    /// The text is not a literal of the accepted form.
    InvalidDigit,
    /// The literal is above the type's maximum.
    PosOverflow,
    /// The literal is below the type's minimum.
    NegOverflow,
}

/// Outcome of reading a run of digits against an upper bound.
pub enum DigitRun {
    /// Not a run of one or more digits.
    Invalid,
    /// A run whose value is within the bound.
    Value(u64),
    /// A run whose value exceeds the bound.
    Above,
}

proof fn lemma_digits_value_step(s: Seq<char>, i: int, j: int)
    requires
        0 <= i <= j < s.len(),
    ensures
        digits_value(s.subrange(i, j + 1)) == digits_value(s.subrange(i, j)) * 10 + digit_value(s[j]),
{
    assert(s.subrange(i, j + 1).drop_last() =~= s.subrange(i, j));
}

/// Reads `s` from character `start` to its end as a run of digits, and
/// compares its value with `bound`.
pub fn read_digit_run(s: &str, start: usize, bound: u64) -> (r: DigitRun)
    requires
        start <= s@.len(),
    ensures
        ({
            let rest = s@.subrange(start as int, s@.len() as int);
            match r {
                DigitRun::Invalid => !is_digit_run(rest),
                DigitRun::Value(v) => is_digit_run(rest) && digits_value(rest) <= bound && v == digits_value(rest),
                DigitRun::Above => is_digit_run(rest) && digits_value(rest) > bound,
            }
        }),
{
    let n = s.unicode_len();
    if start >= n {
        return DigitRun::Invalid;
    }
    let mut acc: u64 = 0;
    let mut above = false;
    let mut i: usize = start;
    while i < n
        invariant
            n == s@.len(),
            start < n,
            start <= i <= n,
            all_digits(s@.subrange(start as int, i as int)),
            !above ==> acc == digits_value(s@.subrange(start as int, i as int)) && acc <= bound,
            above ==> digits_value(s@.subrange(start as int, i as int)) > bound,
        decreases n - i,
    {
        let c = s.get_char(i);
        if !('0' <= c && c <= '9') {
            assert(s@.subrange(start as int, n as int)[i - start] == c);
            return DigitRun::Invalid;
        }
        let d = (c as u32 - '0' as u32) as u64;
        proof {
            lemma_digits_value_step(s@, start as int, i as int);
        }
        if !above {
            if d > bound || acc > (bound - d) / 10 {
                above = true;
                assert(acc * 10 + d > bound) by (nonlinear_arith)
                    requires
                        d > bound || acc > (bound - d) / 10,
                        acc >= 0,
                ;
            } else {
                assert(acc * 10 + d <= bound) by (nonlinear_arith)
                    requires
                        d <= bound,
                        acc <= (bound - d) / 10,
                ;
                acc = acc * 10 + d;
            }
        }
        assert(s@.subrange(start as int, i + 1) =~= s@.subrange(start as int, i as int).push(c));
        i = i + 1;
    }
    if above {
        DigitRun::Above
    } else {
        DigitRun::Value(acc)
    }
}

proof fn lemma_digit_char(d: nat)
    requires
        d < 10,
    ensures
        is_dec_digit(hex_digit(d)),
        digit_value(hex_digit(d)) == d,
{
}

/// The decimal rendering of a number is a run of digits that spells it.
pub proof fn lemma_dec_text_reads_back(n: nat)
    ensures
        is_digit_run(dec_text(n)),
        digits_value(dec_text(n)) == n,
    decreases n,
{
    if n >= 10 {
        lemma_dec_text_reads_back(n / 10);
        lemma_digit_char(n % 10);
        let t = dec_text(n);
        assert(t.drop_last() =~= dec_text(n / 10));
        assert(t.last() == hex_digit(n % 10));
        assert(digits_value(t) == digits_value(dec_text(n / 10)) * 10 + digit_value(t.last()));
        assert((n / 10) * 10 + n % 10 == n);
        assert forall|i: int| 0 <= i < t.len() implies is_dec_digit(#[trigger] t[i]) by {
            if i < t.len() - 1 {
                assert(t[i] == dec_text(n / 10)[i]);
            }
        }
    } else {
        lemma_digit_char(n);
        assert(dec_text(n).drop_last() =~= Seq::<char>::empty());
        assert(digits_value(Seq::<char>::empty()) == 0);
        assert(digits_value(dec_text(n)) == digits_value(dec_text(n).drop_last()) * 10 + digit_value(hex_digit(n)));
    }
}

/// Reading back the decimal rendering of an integer gives the integer.
pub proof fn lemma_int_text_reads_back(n: int)
    ensures
        int_literal(int_text(n)) == Some(n),
{
    if n < 0 {
        lemma_dec_text_reads_back((-n) as nat);
        assert(int_text(n).drop_first() =~= dec_text((-n) as nat));
    } else {
        lemma_dec_text_reads_back(n as nat);
    }
}

} // verus!
