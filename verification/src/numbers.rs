//! Numbers as decimal text.

use vstd::prelude::*;
use vstd::string::StringExecFns;

verus! {

/// The decimal digit for a number below ten.
pub open spec fn digit(d: int) -> char {
    if d == 0 {
        '0'
    } else if d == 1 {
        '1'
    } else if d == 2 {
        '2'
    } else if d == 3 {
        '3'
    } else if d == 4 {
        '4'
    } else if d == 5 {
        '5'
    } else if d == 6 {
        '6'
    } else if d == 7 {
        '7'
    } else if d == 8 {
        '8'
    } else {
        '9'
    }
}

/// The decimal digits of a number, without leading zeros.
pub open spec fn digits(n: nat) -> Seq<char>
    decreases n,
{
    if n < 10 {
        seq![digit(n as int)]
    } else {
        digits(n / 10).push(digit((n % 10) as int))
    }
}

/// `count` zeros; none where `count` is not positive.
pub open spec fn zeros(count: int) -> Seq<char> {
    Seq::new(
        if count > 0 {
            count as nat
        } else {
            0
        },
        |i: int| '0',
    )
}

/// A number in decimal, filled up with zeros behind its sign to `width`
/// characters where it has fewer.
pub open spec fn zero_padded(n: int, width: int) -> Seq<char> {
    if n < 0 {
        seq!['-'] + zeros(width - 1 - digits((-n) as nat).len()) + digits((-n) as nat)
    } else {
        zeros(width - digits(n as nat).len()) + digits(n as nat)
    }
}

/// The text of one decimal digit.
fn digit_text(d: u64) -> (r: &'static str)
    requires
        d < 10,
    ensures
        r@ == seq![digit(d as int)],
{
    proof {
        reveal_strlit("0");
        reveal_strlit("1");
        reveal_strlit("2");
        reveal_strlit("3");
        reveal_strlit("4");
        reveal_strlit("5");
        reveal_strlit("6");
        reveal_strlit("7");
        reveal_strlit("8");
        reveal_strlit("9");
    }
    let r = if d == 0 {
        "0"
    } else if d == 1 {
        "1"
    } else if d == 2 {
        "2"
    } else if d == 3 {
        "3"
    } else if d == 4 {
        "4"
    } else if d == 5 {
        "5"
    } else if d == 6 {
        "6"
    } else if d == 7 {
        "7"
    } else if d == 8 {
        "8"
    } else {
        "9"
    };
    assert(r@ =~= seq![digit(d as int)]);
    r
}

/// A number in decimal, without leading zeros.
pub fn decimal(n: u64) -> (r: String)
    ensures
        r@ == digits(n as nat),
    decreases n,
{
    if n < 10 {
        String::from_str(digit_text(n))
    } else {
        let mut r = decimal(n / 10);
        r.append(digit_text(n % 10));
        assert(r@ =~= digits((n / 10) as nat).push(digit((n % 10) as int)));
        r
    }
}

/// The number of digits of a number in decimal.
fn digit_count(n: u64) -> (r: usize)
    ensures
        r == digits(n as nat).len(),
        1 <= r <= 20,
    decreases n,
{
    if n < 10 {
        1
    } else {
        let less = digit_count(n / 10);
        proof {
            lemma_digit_count(n as nat);
        }
        less + 1
    }
}

/// A number that fits in 64 bits has at most 20 digits.
proof fn lemma_digit_count(n: nat)
    requires
        n <= u64::MAX,
    ensures
        digits(n).len() <= 20,
{
    reveal_with_fuel(digits, 21);
}

/// A number in decimal, filled up with zeros behind its sign to `width`
/// characters where it has fewer.
pub fn zero_padded_decimal(n: i64, width: usize) -> (r: String)
    ensures
        r@ == zero_padded(n as int, width as int),
{
    proof {
        reveal_strlit("-");
        reveal_strlit("0");
    }
    let negative = n < 0;
    let magnitude: u64 = if negative {
        (-(n + 1)) as u64 + 1
    } else {
        n as u64
    };
    let taken: usize = digit_count(magnitude) + if negative {
        1usize
    } else {
        0usize
    };
    let mut r = if negative {
        String::from_str("-")
    } else {
        String::new()
    };
    let ghost sign = r@;
    let mut k: usize = 0;
    assert(r@ =~= sign + zeros(0));
    while taken < width && k < width - taken
        invariant
            "0"@ == seq!['0'],
            taken >= width || k <= width - taken,
            taken >= width ==> k == 0,
            r@ == sign + zeros(k as int),
        decreases width - k,
    {
        r.append("0");
        assert(r@ =~= sign + zeros(k + 1));
        k = k + 1;
    }
    let body = decimal(magnitude);
    r.append(body.as_str());
    proof {
        let fill = width as int - taken as int;
        assert(zeros(k as int) =~= zeros(fill));
        assert(r@ =~= sign + zeros(fill) + digits(magnitude as nat));
        assert(r@ =~= zero_padded(n as int, width as int));
    }
    r
}

} // verus!
