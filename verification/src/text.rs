//! Numbers and names written out as text, as the game's windows show them.
use vstd::prelude::*;

verus! {

/// The character of a decimal digit.
pub open spec fn digit_char(d: int) -> char {
    if d == 0 {
        '0'
    } else if d == 1 {
        '1'
    } else if d == 2 {
        '2'
    } else if d == 3 {
        '3'
    } else if d == 4 {
        '4'
    } else if d == 5 {
        '5'
    } else if d == 6 {
        '6'
    } else if d == 7 {
        '7'
    } else if d == 8 {
        '8'
    } else {
        '9'
    }
}

/// The decimal digits of `n`, without leading zeros.
pub open spec fn nat_text(n: nat) -> Seq<char>
    decreases n,
{
    if n < 10 {
        seq![digit_char(n as int)]
    } else {
        nat_text(n / 10).push(digit_char((n % 10) as int))
    }
}

/// An integer in decimal, with a minus sign when negative.
pub open spec fn int_text(i: int) -> Seq<char> {
    if i < 0 {
        seq!['-'] + nat_text((-i) as nat)
    } else {
        nat_text(i as nat)
    }
}

/// `n` spaces.
pub open spec fn spaces(n: int) -> Seq<char> {
    Seq::new(if n < 0 { 0 } else { n as nat }, |k: int| ' ')
}

/// `s` right-aligned in a field of `w` characters: spaces before it when it
/// is shorter, unchanged otherwise.
pub open spec fn pad(s: Seq<char>, w: int) -> Seq<char> {
    spaces(w - s.len()) + s
}

/// The text of one decimal digit.
pub fn digit_str(d: u64) -> (r: &'static str)
    requires
        d < 10,
    ensures
        r@ == seq![digit_char(d as int)],
{
    proof {
        reveal_strlit("0");
        reveal_strlit("1");
        reveal_strlit("2");
        reveal_strlit("3");
        reveal_strlit("4");
        reveal_strlit("5");
        reveal_strlit("6");
        reveal_strlit("7");
        reveal_strlit("8");
        reveal_strlit("9");
    }
    let r = if d == 0 {
        "0"
    } else if d == 1 {
        "1"
    } else if d == 2 {
        "2"
    } else if d == 3 {
        "3"
    } else if d == 4 {
        "4"
    } else if d == 5 {
        "5"
    } else if d == 6 {
        "6"
    } else if d == 7 {
        "7"
    } else if d == 8 {
        "8"
    } else {
        "9"
    };
    assert(r@ =~= seq![digit_char(d as int)]);
    r
}

/// Appends the decimal digits of `n`.
pub fn push_nat(s: &mut String, n: u64)
    ensures
        final(s)@ == old(s)@ + nat_text(n as nat),
    decreases n,
{
    if n >= 10 {
        push_nat(s, n / 10);
        s.append(digit_str(n % 10));
        assert(final(s)@ =~= old(s)@ + nat_text(n as nat));
    } else {
        s.append(digit_str(n));
    }
}

/// An integer in decimal.
pub fn int_string(i: i64) -> (r: String)
    ensures
        r@ == int_text(i as int),
{
    let mut r = String::new();
    if i < 0 {
        proof {
            reveal_strlit("-");
        }
        r.append("-");
        let m: u64 = (-(i as i128)) as u64;
        push_nat(&mut r, m);
        assert(r@ =~= int_text(i as int));
    } else {
        push_nat(&mut r, i as u64);
    }
    r
}

/// Appends `t` right-aligned in a field of `w` characters.
pub fn push_padded(s: &mut String, t: &str, w: usize)
    ensures
        final(s)@ == old(s)@ + pad(t@, w as int),
{
    let n = t.unicode_len();
    let mut k: usize = n;
    proof {
        reveal_strlit(" ");
    }
    let ghost start = s@;
    while k < w
        invariant
            n == t@.len(),
            n <= k,
            k <= w || k == n,
            s@ == start + spaces((k - n) as int),
        decreases w - k,
    {
        proof {
            reveal_strlit(" ");
        }
        s.append(" ");
        k = k + 1;
        assert(s@ =~= start + spaces((k - n) as int));
    }
    s.append(t);
    assert(s@ =~= start + pad(t@, w as int));
}

/// Appends an integer right-aligned in a field of `w` characters.
pub fn push_int_padded(s: &mut String, i: i32, w: usize)
    ensures
        final(s)@ == old(s)@ + pad(int_text(i as int), w as int),
{
    let t = int_string(i as i64);
    push_padded(s, t.as_str(), w);
}

} // verus!
