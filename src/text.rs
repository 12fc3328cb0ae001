//! Decimal text: rendering naturals and reading `u8` values the way
//! `u8::from_str` does.
use vstd::prelude::*;

verus! {

/// The ASCII digit for `d < 10`.
pub open spec fn digit_char(d: nat) -> char {
    seq!['0', '1', '2', '3', '4', '5', '6', '7', '8', '9'][d as int]
}

/// Shortest decimal text of `n`.
pub open spec fn decimal(n: nat) -> Seq<char>
    decreases n,
{
    if n < 10 {
        seq![digit_char(n)]
    } else {
        decimal(n / 10).push(digit_char(n % 10))
    }
}

pub open spec fn is_digit(c: char) -> bool {
    '0' <= c && c <= '9'
}

pub open spec fn digit_value(c: char) -> nat {
    (c as u32 - '0' as u32) as nat
}

/// Value of a run of ASCII digits, most significant first.
pub open spec fn digits_value(s: Seq<char>) -> nat
    decreases s.len(),
{
    if s.len() == 0 {
        0
    } else {
        digits_value(s.drop_last()) * 10 + digit_value(s.last())
    }
}

pub open spec fn all_digits(s: Seq<char>) -> bool {
    forall|i: int| 0 <= i < s.len() ==> is_digit(#[trigger] s[i])
}

/// What `u8::from_str` gives: an optional `+`, then one or more ASCII
/// digits whose value is at most 255.
pub open spec fn u8_of(s: Seq<char>) -> Option<u8> {
    let body = if s.len() > 0 && s[0] == '+' {
        s.drop_first()
    } else {
        s
    };
    if body.len() > 0 && all_digits(body) && digits_value(body) <= 255 {
        Some(digits_value(body) as u8)
    } else {
        None
    }
}

/// Text of the form `digits` or `digits.digits`, ASCII digits only: no
/// other characters, at most one `.`, and neither first nor last.
pub open spec fn is_decimal_number(s: Seq<char>) -> bool {
    &&& s.len() > 0
    &&& forall|i: int| 0 <= i < s.len() ==> is_digit(#[trigger] s[i]) || s[i] == '.'
    &&& forall|i: int, j: int|
        0 <= i < s.len() && 0 <= j < s.len() && #[trigger] s[i] == '.' && #[trigger] s[j] == '.'
            ==> i == j
    &&& s[0] != '.'
    &&& s.last() != '.'
}

fn digit_str(d: u64) -> (r: &'static str)
    requires
        d < 10,
    ensures
        r@ == seq![digit_char(d as nat)],
{
    proof {
        reveal_strlit("0");
        reveal_strlit("1");
        reveal_strlit("2");
        reveal_strlit("3");
        reveal_strlit("4");
        reveal_strlit("5");
        reveal_strlit("6");
        reveal_strlit("7");
        reveal_strlit("8");
        reveal_strlit("9");
    }
    match d {
        0 => "0",
        1 => "1",
        2 => "2",
        3 => "3",
        4 => "4",
        5 => "5",
        6 => "6",
        7 => "7",
        8 => "8",
        _ => "9",
    }
}

/// Decimal text of `n`.
pub fn decimal_text(n: u64) -> (r: String)
    ensures
        r@ == decimal(n as nat),
    decreases n,
{
    if n < 10 {
        String::from_str(digit_str(n))
    } else {
        let mut s = decimal_text(n / 10);
        s.append(digit_str(n % 10));
        s
    }
}

/// Decimal text of `n`.
pub fn index_text(n: usize) -> (r: String)
    ensures
        r@ == decimal(n as nat),
    decreases n,
{
    if n < 10 {
        String::from_str(digit_str(n as u64))
    } else {
        let mut s = index_text(n / 10);
        s.append(digit_str((n % 10) as u64));
        s
    }
}

/// Reads `s` as `u8::from_str` does (an optional `+`, then ASCII digits,
/// at most 255), and returns `err` where it would fail.
pub fn parse_number<E>(s: &str, err: E) -> (r: Result<u8, E>)
    ensures
        match u8_of(s@) {
            Some(v) => r == Ok::<u8, E>(v),
            None => r == Err::<u8, E>(err),
        },
{
    let n = s.unicode_len();
    let mut i: usize = 0;
    if n > 0 && s.get_char(0) == '+' {
        i = 1;
    }
    let start = i;
    let ghost body = s@.skip(start as int);
    assert(body =~= if s@.len() > 0 && s@[0] == '+' {
        s@.drop_first()
    } else {
        s@
    });
    if start == n {
        assert(body.len() == 0);
        return Err(err);
    }
    let mut value: u32 = 0;
    while i < n
        invariant
            start <= i <= n,
            n == s@.len(),
            start < n,
            body == s@.skip(start as int),
            body == if s@.len() > 0 && s@[0] == '+' {
                s@.drop_first()
            } else {
                s@
            },
            start == 1 ==> s@[0] == '+',
            start == 0 ==> !(s@.len() > 0 && s@[0] == '+'),
            all_digits(s@.subrange(start as int, i as int)),
            value as nat == if digits_value(s@.subrange(start as int, i as int)) <= 255 {
                digits_value(s@.subrange(start as int, i as int))
            } else {
                256
            },
        decreases n - i,
    {
        let c = s.get_char(i);
        if c < '0' || c > '9' {
            assert(!all_digits(body)) by {
                assert(body[i - start] == c);
            }
            return Err(err);
        }
        let ghost prev = s@.subrange(start as int, i as int);
        let ghost next = s@.subrange(start as int, i + 1);
        assert(next.drop_last() == prev);
        let d = (c as u32) - ('0' as u32);
        if value > 255 {
            assert(digits_value(next) > 255) by (nonlinear_arith)
                requires
                    digits_value(prev) > 255,
                    digits_value(next) == digits_value(prev) * 10 + digit_value(c),
            ;
            value = 256;
        } else {
            let v = value * 10 + d;
            value = if v > 255 {
                256
            } else {
                v
            };
        }
        i = i + 1;
    }
    assert(s@.subrange(start as int, n as int) == body);
    assert(u8_of(s@) == if digits_value(body) <= 255 {
        Some(digits_value(body) as u8)
    } else {
        None::<u8>
    });
    if value > 255 {
        Err(err)
    } else {
        Ok(value as u8)
    }
}

} // verus!

verus! {

/// Checks that `s` is ASCII digits with at most one inner `.`, the shape of
/// `digits` or `digits.digits`.
pub fn is_decimal_text(s: &str) -> (r: bool)
    ensures
        r == is_decimal_number(s@),
{
    let n = s.unicode_len();
    if n == 0 {
        return false;
    }
    let mut dot: Option<usize> = None;
    let mut i: usize = 0;
    while i < n
        invariant
            n == s@.len(),
            i <= n,
            forall|j: int| 0 <= j < i ==> is_digit(#[trigger] s@[j]) || s@[j] == '.',
            dot matches Some(k) ==> k < i && s@[k as int] == '.' && forall|j: int|
                0 <= j < i && j != k ==> #[trigger] s@[j] != '.',
            dot is None ==> forall|j: int| 0 <= j < i ==> #[trigger] s@[j] != '.',
        decreases n - i,
    {
        let c = s.get_char(i);
        if c == '.' {
            if let Some(k) = dot {
                assert(s@[k as int] == '.' && s@[i as int] == '.');
                return false;
            }
            dot = Some(i);
        } else if c < '0' || c > '9' {
            assert(!(is_digit(s@[i as int]) || s@[i as int] == '.'));
            return false;
        }
        i = i + 1;
    }
    match dot {
        None => true,
        Some(k) => k != 0 && k != n - 1,
    }
}

} // verus!
