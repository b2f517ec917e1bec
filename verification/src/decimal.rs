use vstd::prelude::*;

verus! {

/// The character for one decimal digit value.
pub open spec fn digit_char(d: int) -> char {
    if d == 0 {
        '0'
    } else if d == 1 {
        '1'
    } else if d == 2 {
        '2'
    } else if d == 3 {
        '3'
    } else if d == 4 {
        '4'
    } else if d == 5 {
        '5'
    } else if d == 6 {
        '6'
    } else if d == 7 {
        '7'
    } else if d == 8 {
        '8'
    } else {
        '9'
    }
}

/// The decimal digit value of a character, or -1 when it is no digit.
pub open spec fn digit_val(c: char) -> int {
    if c == '0' {
        0
    } else if c == '1' {
        1
    } else if c == '2' {
        2
    } else if c == '3' {
        3
    } else if c == '4' {
        4
    } else if c == '5' {
        5
    } else if c == '6' {
        6
    } else if c == '7' {
        7
    } else if c == '8' {
        8
    } else if c == '9' {
        9
    } else {
        -1
    }
}

pub open spec fn is_digit(c: char) -> bool {
    digit_val(c) >= 0
}

/// The decimal digits of a non-negative number, most significant first.
pub open spec fn dec_nat(n: nat) -> Seq<char>
    decreases n,
{
    if n < 10 {
        seq![digit_char(n as int)]
    } else {
        dec_nat(n / 10).push(digit_char((n % 10) as int))
    }
}

/// The decimal rendering of an integer: a minus sign for a negative
/// value, then its digits.
pub open spec fn dec_int(v: int) -> Seq<char> {
    if v < 0 {
        seq!['-'] + dec_nat((-v) as nat)
    } else {
        dec_nat(v as nat)
    }
}

/// A non-empty run of decimal digits.
pub open spec fn is_digit_seq(s: Seq<char>) -> bool {
    s.len() > 0 && forall|i: int| 0 <= i < s.len() ==> is_digit(#[trigger] s[i])
}

/// The value of a run of decimal digits.
pub open spec fn digit_seq_val(s: Seq<char>) -> int
    decreases s.len(),
{
    if s.len() == 0 {
        0
    } else {
        digit_seq_val(s.drop_last()) * 10 + digit_val(s.last())
    }
}

/// An optional single sign, then a non-empty run of digits: the shape
/// accepted when a probe field is read as an integer.
pub open spec fn is_int_literal(s: Seq<char>) -> bool {
    if s.len() > 0 && (s[0] == '-' || s[0] == '+') {
        is_digit_seq(s.skip(1))
    } else {
        is_digit_seq(s)
    }
}

/// The value denoted by an integer literal.
pub open spec fn int_literal_val(s: Seq<char>) -> int {
    if s.len() > 0 && s[0] == '-' {
        -digit_seq_val(s.skip(1))
    } else if s.len() > 0 && s[0] == '+' {
        digit_seq_val(s.skip(1))
    } else {
        digit_seq_val(s)
    }
}

/// The value of an all-digit run is never negative.
pub proof fn lemma_digit_seq_val_nonneg(s: Seq<char>)
    requires
        forall|i: int| 0 <= i < s.len() ==> is_digit(#[trigger] s[i]),
    ensures
        digit_seq_val(s) >= 0,
    decreases s.len(),
{
    if s.len() > 0 {
        lemma_digit_seq_val_nonneg(s.drop_last());
    }
}

/// Extending an all-digit run on the right never lowers its value.
pub proof fn lemma_digit_seq_val_prefix(s: Seq<char>, k: int)
    requires
        0 <= k <= s.len(),
        forall|i: int| 0 <= i < s.len() ==> is_digit(#[trigger] s[i]),
    ensures
        digit_seq_val(s) >= digit_seq_val(s.take(k)),
    decreases s.len() - k,
{
    if k < s.len() {
        let t = s.drop_last();
        assert(t.take(k) =~= s.take(k));
        lemma_digit_seq_val_prefix(t, k);
        lemma_digit_seq_val_nonneg(t);
    } else {
        assert(s.take(k) =~= s);
    }
}

/// The string for one digit value.
fn digit_str(d: u32) -> (r: &'static str)
    requires
        d < 10,
    ensures
        r@ =~= seq![digit_char(d as int)],
{
    proof {
        reveal_strlit("0");
        reveal_strlit("1");
        reveal_strlit("2");
        reveal_strlit("3");
        reveal_strlit("4");
        reveal_strlit("5");
        reveal_strlit("6");
        reveal_strlit("7");
        reveal_strlit("8");
        reveal_strlit("9");
    }
    if d == 0 {
        "0"
    } else if d == 1 {
        "1"
    } else if d == 2 {
        "2"
    } else if d == 3 {
        "3"
    } else if d == 4 {
        "4"
    } else if d == 5 {
        "5"
    } else if d == 6 {
        "6"
    } else if d == 7 {
        "7"
    } else if d == 8 {
        "8"
    } else {
        "9"
    }
}

/// The decimal digits of a non-negative number as a string.
pub fn u64_to_string(n: u64) -> (r: String)
    ensures
        r@ == dec_nat(n as nat),
    decreases n,
{
    if n < 10 {
        String::from_str(digit_str((n % 10) as u32))
    } else {
        let mut s = u64_to_string(n / 10);
        s.append(digit_str((n % 10) as u32));
        proof {
            assert(s@ =~= dec_nat(n as nat));
        }
        s
    }
}

/// The decimal rendering of an integer as a string.
pub fn i32_to_string(v: i32) -> (r: String)
    ensures
        r@ == dec_int(v as int),
{
    if v < 0 {
        let magnitude: u64 = (-(v as i64)) as u64;
        let digits = u64_to_string(magnitude);
        let r = String::from_str("-").concat(digits.as_str());
        proof {
            reveal_strlit("-");
            assert(r@ =~= dec_int(v as int));
        }
        r
    } else {
        u64_to_string(v as u64)
    }
}

/// The decimal digit value of a character, when it is one.
fn digit_value(c: char) -> (r: Option<u32>)
    ensures
        match r {
            Some(d) => is_digit(c) && d == digit_val(c) && d < 10,
            None => !is_digit(c),
        },
{
    if c == '0' {
        Some(0)
    } else if c == '1' {
        Some(1)
    } else if c == '2' {
        Some(2)
    } else if c == '3' {
        Some(3)
    } else if c == '4' {
        Some(4)
    } else if c == '5' {
        Some(5)
    } else if c == '6' {
        Some(6)
    } else if c == '7' {
        Some(7)
    } else if c == '8' {
        Some(8)
    } else if c == '9' {
        Some(9)
    } else {
        None
    }
}

/// Reads a string as a signed 32-bit integer. Returns the value exactly
/// when the string is an optional sign followed by one or more digits
/// and the denoted value fits in an `i32`.
pub fn parse_i32(s: &str) -> (r: Option<i32>)
    ensures
        match r {
            Some(v) => is_int_literal(s@) && int_literal_val(s@) == v as int,
            None => !(is_int_literal(s@) && i32::MIN <= int_literal_val(s@) <= i32::MAX),
        },
{
    let n = s.unicode_len();
    if n == 0 {
        return None;
    }
    let first = s.get_char(0);
    let neg = first == '-';
    let start: usize = if first == '-' || first == '+' {
        1
    } else {
        0
    };
    if n == start {
        return None;
    }
    let ghost digits = s@.skip(start as int);
    proof {
        if start == 0 {
            assert(digits =~= s@);
        }
    }
    let mut acc: u64 = 0;
    let mut i = start;
    while i < n
        invariant
            start <= i <= n,
            0 < n == s@.len(),
            start == 0 || start == 1,
            neg == (s@[0] == '-'),
            (start == 1) <==> (s@[0] == '-' || s@[0] == '+'),
            digits == s@.skip(start as int),
            start == 0 ==> digits == s@,
            forall|j: int| start <= j < i ==> is_digit(#[trigger] s@[j]),
            acc == digit_seq_val(s@.subrange(start as int, i as int)),
            acc <= 0x8000_0000,
        decreases n - i,
    {
        let c = s.get_char(i);
        match digit_value(c) {
            None => {
                proof {
                    assert(digits[i - start] == s@[i as int]);
                }
                return None;
            },
            Some(d) => {
                let new_acc: u64 = acc * 10 + d as u64;
                proof {
                    let pre = s@.subrange(start as int, i as int);
                    let post = s@.subrange(start as int, i + 1);
                    assert(post.drop_last() =~= pre);
                    assert(post.last() == s@[i as int]);
                }
                if new_acc > 0x8000_0000 {
                    proof {
                        if is_int_literal(s@) {
                            assert(forall|j: int|
                                0 <= j < digits.len() ==> is_digit(#[trigger] digits[j]));
                            assert(s@.subrange(start as int, i + 1) =~= digits.take(
                                i + 1 - start,
                            ));
                            lemma_digit_seq_val_prefix(digits, i + 1 - start);
                            assert(int_literal_val(s@) == if neg {
                                -digit_seq_val(digits)
                            } else {
                                digit_seq_val(digits)
                            });
                        }
                    }
                    return None;
                }
                acc = new_acc;
            },
        }
        i += 1;
    }
    proof {
        assert(s@.subrange(start as int, n as int) =~= digits);
        assert(int_literal_val(s@) == if neg {
            -digit_seq_val(digits)
        } else {
            digit_seq_val(digits)
        });
    }
    if neg {
        if acc == 0x8000_0000 {
            Some(i32::MIN)
        } else {
            Some(-(acc as i32))
        }
    } else {
        if acc > 0x7fff_ffff {
            None
        } else {
            Some(acc as i32)
        }
    }
}

} // verus!
