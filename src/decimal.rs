//! Base-10 text of error codes: the parser that reads the code argument and
//! the formatter that shows a code to the user.
use vstd::prelude::*;

verus! {

/// Whether `c` is an ASCII decimal digit.
pub open spec fn is_digit(c: char) -> bool {
    '0' <= c <= '9'
}

/// The value of the ASCII decimal digit `c`.
pub open spec fn digit_value(c: char) -> int {
    c as int - '0' as int
}

/// Whether every character of `s` is a decimal digit.
pub open spec fn all_digits(s: Seq<char>) -> bool {
    forall|i: int| 0 <= i < s.len() ==> is_digit(#[trigger] s[i])
}

/// The value of a string of decimal digits, most significant first.
pub open spec fn digits_value(s: Seq<char>) -> int
    decreases s.len(),
{
    if s.len() == 0 {
        0
    } else {
        digits_value(s.drop_last()) * 10 + digit_value(s.last())
    }
}

/// Whether `s` begins with a sign character.
pub open spec fn has_sign(s: Seq<char>) -> bool {
    s.len() > 0 && (s[0] == '+' || s[0] == '-')
}

/// The digits of `s` after an optional sign.
pub open spec fn unsigned_part(s: Seq<char>) -> Seq<char> {
    if has_sign(s) {
        s.skip(1)
    } else {
        s
    }
}

/// The integer that `s` writes in base 10: an optional `+` or `-` followed by
/// one or more decimal digits and nothing else.
pub open spec fn decimal_value(s: Seq<char>) -> Option<int> {
    let digits = unsigned_part(s);
    if digits.len() > 0 && all_digits(digits) {
        if has_sign(s) && s[0] == '-' {
            Some(-digits_value(digits))
        } else {
            Some(digits_value(digits))
        }
    } else {
        None
    }
}

/// The 32-bit code that `s` writes, if it writes an integer in that range.
pub open spec fn parsed_code(s: Seq<char>) -> Option<i32> {
    match decimal_value(s) {
        Some(v) => if i32::MIN <= v <= i32::MAX {
            Some(v as i32)
        } else {
            None
        },
        None => None,
    }
}

/// The character of the decimal digit `d`.
pub open spec fn digit_char(d: int) -> char {
    if d == 0 {
        '0'
    } else if d == 1 {
        '1'
    } else if d == 2 {
        '2'
    } else if d == 3 {
        '3'
    } else if d == 4 {
        '4'
    } else if d == 5 {
        '5'
    } else if d == 6 {
        '6'
    } else if d == 7 {
        '7'
    } else if d == 8 {
        '8'
    } else {
        '9'
    }
}

/// The decimal digits of `n`, without leading zeros.
pub open spec fn nat_text(n: nat) -> Seq<char>
    decreases n,
{
    if n < 10 {
        seq![digit_char(n as int)]
    } else {
        nat_text(n / 10).push(digit_char(n as int % 10))
    }
}

/// The base-10 text of `v`, with a leading `-` when it is negative.
pub open spec fn decimal_text(v: int) -> Seq<char> {
    if v < 0 {
        seq!['-'] + nat_text((-v) as nat)
    } else {
        nat_text(v as nat)
    }
}

proof fn lemma_digits_value_prefix(s: Seq<char>, j: int)
    requires
        all_digits(s),
        0 <= j <= s.len(),
    ensures
        0 <= digits_value(s.subrange(0, j)) <= digits_value(s),
    decreases s.len(),
{
    if j < s.len() {
        let t = s.drop_last();
        assert(t.subrange(0, j) =~= s.subrange(0, j));
        lemma_digits_value_prefix(t, j);
        lemma_digits_value_prefix(t, t.len() as int);
        assert(t.subrange(0, t.len() as int) =~= t);
    } else {
        assert(s.subrange(0, j) =~= s);
        if s.len() > 0 {
            let t = s.drop_last();
            lemma_digits_value_prefix(t, t.len() as int);
            assert(t.subrange(0, t.len() as int) =~= t);
        }
    }
}

/// Reads an error code written in base 10: an optional sign and one or more
/// digits, in the range of `i32`; `None` for any other text.
pub fn parse_error_code(text: &str) -> (r: Option<i32>)
    ensures
        r == parsed_code(text@),
{
    let n = text.unicode_len();
    if n == 0 {
        return None;
    }
    let first = text.get_char(0);
    let negative = first == '-';
    let start: usize = if first == '+' || first == '-' {
        1
    } else {
        0
    };
    let ghost digits = unsigned_part(text@);
    assert(digits =~= text@.subrange(start as int, n as int));
    if start == n {
        return None;
    }
    let mut acc: i64 = 0;
    let mut i: usize = start;
    while i < n
        invariant
            n == text@.len(),
            start <= i <= n,
            digits == text@.subrange(start as int, n as int),
            digits == unsigned_part(text@),
            n > 0,
            negative == (text@[0] == '-'),
            start == (if has_sign(text@) {
                1usize
            } else {
                0usize
            }),
            all_digits(text@.subrange(start as int, i as int)),
            acc == digits_value(text@.subrange(start as int, i as int)),
            0 <= acc <= 2147483648,
        decreases n - i,
    {
        let c = text.get_char(i);
        if !('0' <= c && c <= '9') {
            assert(digits[i - start] == c);
            assert(!is_digit(digits[i - start]));
            return None;
        }
        let d = (c as u32 - '0' as u32) as i64;
        let ghost before = text@.subrange(start as int, i as int);
        let ghost after = text@.subrange(start as int, i + 1);
        assert(after.drop_last() =~= before);
        acc = acc * 10 + d;
        i = i + 1;
        if acc > 2147483648 {
            proof {
                if all_digits(digits) {
                    assert(digits.subrange(0, i - start) =~= after);
                    lemma_digits_value_prefix(digits, i - start);
                }
            }
            return None;
        }
    }
    assert(text@.subrange(start as int, i as int) =~= digits);
    if negative {
        Some((-acc) as i32)
    } else if acc > 2147483647 {
        None
    } else {
        Some(acc as i32)
    }
}

fn digit_str(d: u32) -> (r: &'static str)
    requires
        d < 10,
    ensures
        r@ == seq![digit_char(d as int)],
{
    proof {
        reveal_strlit("0");
        reveal_strlit("1");
        reveal_strlit("2");
        reveal_strlit("3");
        reveal_strlit("4");
        reveal_strlit("5");
        reveal_strlit("6");
        reveal_strlit("7");
        reveal_strlit("8");
        reveal_strlit("9");
    }
    let r = match d {
        0 => "0",
        1 => "1",
        2 => "2",
        3 => "3",
        4 => "4",
        5 => "5",
        6 => "6",
        7 => "7",
        8 => "8",
        _ => "9",
    };
    assert(r@ =~= seq![digit_char(d as int)]);
    r
}

fn push_digits(out: &mut String, n: u32)
    ensures
        final(out)@ == old(out)@ + nat_text(n as nat),
    decreases n,
{
    if n >= 10 {
        push_digits(out, n / 10);
    }
    out.append(digit_str(n % 10));
    assert(old(out)@ + nat_text(n as nat) =~= if n >= 10 {
        old(out)@ + nat_text((n / 10) as nat) + seq![digit_char(n as int % 10)]
    } else {
        old(out)@ + seq![digit_char(n as int % 10)]
    });
}

/// The base-10 text of an error code, as it is shown to the user.
pub fn code_text(code: i32) -> (r: String)
    ensures
        r@ == decimal_text(code as int),
{
    let mut out = String::new();
    if code < 0 {
        out.append("-");
        proof {
            reveal_strlit("-");
        }
        let magnitude = (-(code as i64)) as u32;
        push_digits(&mut out, magnitude);
        assert(out@ =~= decimal_text(code as int));
    } else {
        push_digits(&mut out, code as u32);
        assert(out@ =~= decimal_text(code as int));
    }
    out
}

proof fn lemma_nat_text(n: nat)
    ensures
        nat_text(n).len() > 0,
        all_digits(nat_text(n)),
        digits_value(nat_text(n)) == n,
    decreases n,
{
    let d = n as int % 10;
    assert(digit_value(digit_char(d)) == d && is_digit(digit_char(d)));
    if n >= 10 {
        lemma_nat_text(n / 10);
        let t = nat_text(n);
        assert(t.drop_last() =~= nat_text(n / 10));
        assert(n == (n / 10) * 10 + d);
        assert(t.last() == digit_char(d));
        assert(digits_value(t) == digits_value(t.drop_last()) * 10 + digit_value(t.last()));
        assert forall|i: int| 0 <= i < t.len() implies is_digit(#[trigger] t[i]) by {
            if i < t.len() - 1 {
                assert(t[i] == nat_text(n / 10)[i]);
            }
        }
    } else {
        let t = nat_text(n);
        assert(t.drop_last() =~= Seq::<char>::empty());
        assert(digits_value(t) == digits_value(t.drop_last()) * 10 + digit_value(t.last()));
    }
}

/// The text shown for a code reads back as the same code.
pub proof fn code_text_round_trip(code: i32)
    ensures
        parsed_code(decimal_text(code as int)) == Some(code),
{
    let v = code as int;
    if v < 0 {
        let m = (-v) as nat;
        lemma_nat_text(m);
        let s = decimal_text(v);
        assert(s.skip(1) =~= nat_text(m));
    } else {
        lemma_nat_text(v as nat);
    }
}

} // verus!
