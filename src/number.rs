//! Reading unsigned decimal numbers from text.

use vstd::prelude::*;

verus! {

/// An ASCII decimal digit.
pub open spec fn is_digit(c: char) -> bool {
    '0' <= c && c <= '9'
}

/// The value of a digit character.
pub open spec fn digit_value(c: char) -> nat {
    (c as nat - '0' as nat) as nat
}

/// The value of a run of digits, most significant first.
pub open spec fn digits_value(d: Seq<char>) -> nat
    decreases d.len(),
{
    if d.len() == 0 {
        0
    } else {
        digits_value(d.drop_last()) * 10 + digit_value(d.last())
    }
}

/// The digits of `s`, after an optional leading `+`.
pub open spec fn unsigned_digits(s: Seq<char>) -> Seq<char> {
    if s.len() > 0 && s[0] == '+' {
        s.drop_first()
    } else {
        s
    }
}

/// `s` is an optional `+` followed by one or more ASCII digits.
pub open spec fn is_unsigned_decimal(s: Seq<char>) -> bool {
    let d = unsigned_digits(s);
    d.len() > 0 && forall|i: int| 0 <= i < d.len() ==> is_digit(#[trigger] d[i])
}

/// The number that a well-formed `s` writes.
pub open spec fn decimal_value(s: Seq<char>) -> nat {
    digits_value(unsigned_digits(s))
}

/// What reading a bounded unsigned decimal number gave.
#[derive(Debug, Clone, Copy, PartialEq, Eq)]
pub enum ParsedNumber {
    /// A well-formed number within the bound.
    Value(u64),
    /// A well-formed number above the bound.
    TooLarge,
    /// Not a well-formed number.
    Malformed,
}

/// Whether `r` is what reading `s` against the bound `max` gives.
pub open spec fn parsed_as(s: Seq<char>, max: nat, r: ParsedNumber) -> bool {
    match r {
        ParsedNumber::Malformed => !is_unsigned_decimal(s),
        ParsedNumber::TooLarge => is_unsigned_decimal(s) && decimal_value(s) > max,
        ParsedNumber::Value(v) => is_unsigned_decimal(s) && decimal_value(s) <= max && v
            == decimal_value(s),
    }
}

proof fn lemma_digits_push(d: Seq<char>, c: char)
    ensures
        digits_value(d.push(c)) == digits_value(d) * 10 + digit_value(c),
{
    assert(d.push(c).drop_last() =~= d);
}

/// Reads `s` as an unsigned decimal number no larger than `max`.
pub fn parse_unsigned(s: &str, max: u64) -> (r: ParsedNumber)
    ensures
        parsed_as(s@, max as nat, r),
{
    let chars = crate::text::chars_of(s);
    let n: usize = chars.len();
    let start: usize = if n > 0 && chars[0] == '+' {
        1
    } else {
        0
    };
    let ghost d = unsigned_digits(s@);
    assert(d =~= chars@.subrange(start as int, n as int));
    if start == n {
        return ParsedNumber::Malformed;
    }
    let mut acc: u64 = 0;
    let mut over = false;
    let mut i: usize = start;
    while i < n
        invariant
            chars@ == s@,
            n == chars@.len(),
            start <= i <= n,
            d =~= chars@.subrange(start as int, n as int),
            d == unsigned_digits(s@),
            forall|k: int| start <= k < i ==> is_digit(#[trigger] chars@[k]),
            over <==> digits_value(chars@.subrange(start as int, i as int)) > max,
            !over ==> acc == digits_value(chars@.subrange(start as int, i as int)),
        decreases n - i,
    {
        let c = chars[i];
        if !('0' <= c && c <= '9') {
            assert(d[i - start] == chars@.subrange(start as int, n as int)[i - start]);
            assert(!is_digit(d[i - start]));
            return ParsedNumber::Malformed;
        }
        let ghost before = chars@.subrange(start as int, i as int);
        proof {
            assert(chars@.subrange(start as int, i + 1) =~= before.push(c));
            lemma_digits_push(before, c);
        }
        let dv: u64 = (c as u32 - '0' as u32) as u64;
        if !over {
            if dv > max || acc > (max - dv) / 10 {
                assert(acc * 10 + dv > max) by (nonlinear_arith)
                    requires
                        dv > max || acc > (max - dv) / 10,
                        acc >= 0,
                ;
                over = true;
            } else {
                assert(acc * 10 + dv <= max) by (nonlinear_arith)
                    requires
                        acc <= (max - dv) / 10,
                        dv <= max,
                ;
                acc = acc * 10 + dv;
            }
        } else {
            assert(digits_value(before) * 10 + digit_value(c) >= digits_value(before));
        }
        i = i + 1;
    }
    assert(chars@.subrange(start as int, n as int) =~= d);
    if over {
        ParsedNumber::TooLarge
    } else {
        ParsedNumber::Value(acc)
    }
}

} // verus!
