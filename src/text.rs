//! Building the characters of a painted line.
use vstd::prelude::*;

verus! {

/// `n` copies of the character `c`.
pub open spec fn repeat(c: char, n: nat) -> Seq<char> {
    Seq::new(n, |_k: int| c)
}

/// The character of a decimal digit.
pub open spec fn digit_char(d: nat) -> char {
    if d == 0 { '0' }
    else if d == 1 { '1' }
    else if d == 2 { '2' }
    else if d == 3 { '3' }
    else if d == 4 { '4' }
    else if d == 5 { '5' }
    else if d == 6 { '6' }
    else if d == 7 { '7' }
    else if d == 8 { '8' }
    else { '9' }
}

/// The decimal numeral of `n`, without leading zeros.
pub open spec fn decimal(n: nat) -> Seq<char>
    decreases n,
{
    if n < 10 {
        seq![digit_char(n)]
    } else {
        decimal(n / 10) + seq![digit_char(n % 10)]
    }
}

/// The one-character string of a decimal digit.
fn digit_str(d: u64) -> (r: &'static str)
    requires
        d < 10,
    ensures
        r@ == seq![digit_char(d as nat)],
{
    proof {
        reveal_strlit("0");
        reveal_strlit("1");
        reveal_strlit("2");
        reveal_strlit("3");
        reveal_strlit("4");
        reveal_strlit("5");
        reveal_strlit("6");
        reveal_strlit("7");
        reveal_strlit("8");
        reveal_strlit("9");
    }
    if d == 0 { "0" }
    else if d == 1 { "1" }
    else if d == 2 { "2" }
    else if d == 3 { "3" }
    else if d == 4 { "4" }
    else if d == 5 { "5" }
    else if d == 6 { "6" }
    else if d == 7 { "7" }
    else if d == 8 { "8" }
    else { "9" }
}

/// Appends `n` copies of the one-character string `c` to `s`.
pub fn push_repeat(s: &mut String, c: &str, n: usize)
    requires
        c@.len() == 1,
    ensures
        final(s)@ == old(s)@ + repeat(c@[0], n as nat),
{
    let ghost start = s@;
    let mut k: usize = 0;
    while k < n
        invariant
            c@.len() == 1,
            k <= n,
            s@ == start + repeat(c@[0], k as nat),
        decreases n - k,
    {
        s.append(c);
        k = k + 1;
        assert(s@ =~= start + repeat(c@[0], k as nat));
    }
}

/// Appends the decimal numeral of a number up to 100 to `s`.
pub fn push_decimal(s: &mut String, n: u64)
    requires
        n <= 100,
    ensures
        final(s)@ == old(s)@ + decimal(n as nat),
{
    let ghost start = s@;
    if n < 10 {
        s.append(digit_str(n));
    } else if n < 100 {
        s.append(digit_str(n / 10));
        s.append(digit_str(n % 10));
        assert(decimal((n / 10) as nat) == seq![digit_char((n / 10) as nat)]);
    } else {
        s.append(digit_str(1));
        s.append(digit_str(0));
        s.append(digit_str(0));
        assert(decimal(10) == decimal(1) + seq![digit_char(0)]);
        assert(decimal(100) == decimal(10) + seq![digit_char(0)]);
    }
    assert(s@ =~= start + decimal(n as nat));
}

} // verus!
