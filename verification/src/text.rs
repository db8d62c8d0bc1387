//! Small text-building helpers: appending single characters and rendering
//! unsigned integers as decimal numerals.

use vstd::prelude::*;

verus! {

/// Relies on `String::push` from std: appends exactly one character.
#[verifier::external_body]
pub fn push_char(s: &mut String, c: char)
    ensures
        final(s)@ == old(s)@ + seq![c],
{
    s.push(c);
}

/// Character-wise string equality.
pub fn str_eq(a: &str, b: &str) -> (r: bool)
    ensures
        r == (a@ == b@),
{
    let na = a.unicode_len();
    let nb = b.unicode_len();
    if na != nb {
        return false;
    }
    let mut i: usize = 0;
    while i < na
        invariant
            na == a@.len(),
            nb == b@.len(),
            na == nb,
            i <= na,
            forall|j: int| 0 <= j < i ==> a@[j] == b@[j],
        decreases na - i,
    {
        if a.get_char(i) != b.get_char(i) {
            return false;
        }
        i = i + 1;
    }
    proof {
        assert(a@ =~= b@);
    }
    true
}

/// The character for one decimal digit.
pub open spec fn digit_char(d: int) -> char {
    if d == 0 {
        '0'
    } else if d == 1 {
        '1'
    } else if d == 2 {
        '2'
    } else if d == 3 {
        '3'
    } else if d == 4 {
        '4'
    } else if d == 5 {
        '5'
    } else if d == 6 {
        '6'
    } else if d == 7 {
        '7'
    } else if d == 8 {
        '8'
    } else {
        '9'
    }
}

/// The decimal numeral of `n`, most significant digit first, no sign and no
/// leading zeros (a single `'0'` for zero).
pub open spec fn dec_str(n: int) -> Seq<char>
    recommends
        n >= 0,
    decreases n,
{
    if n < 10 {
        seq![digit_char(n)]
    } else {
        dec_str(n / 10).push(digit_char(n % 10))
    }
}

/// A decimal numeral is never empty, and has at least two digits from ten up.
pub proof fn lemma_dec_str_len(n: int)
    requires
        n >= 0,
    ensures
        dec_str(n).len() >= 1,
        n >= 10 ==> dec_str(n).len() >= 2,
    decreases n,
{
    if n >= 10 {
        lemma_dec_str_len(n / 10);
    }
}

/// Distinct numbers have distinct decimal numerals.
pub proof fn lemma_dec_str_injective(a: int, b: int)
    requires
        a >= 0,
        b >= 0,
        dec_str(a) == dec_str(b),
    ensures
        a == b,
    decreases a,
{
    lemma_dec_str_len(a);
    lemma_dec_str_len(b);
    if a < 10 && b < 10 {
        assert(dec_str(a) == seq![digit_char(a)]);
        assert(dec_str(b) == seq![digit_char(b)]);
        assert(seq![digit_char(a)][0] == digit_char(a));
        assert(seq![digit_char(b)][0] == digit_char(b));
        assert(digit_char(a) == digit_char(b));
        assert(a == b);
    } else if a >= 10 && b >= 10 {
        assert(dec_str(a).drop_last() =~= dec_str(a / 10));
        assert(dec_str(b).drop_last() =~= dec_str(b / 10));
        assert(dec_str(a).last() == digit_char(a % 10));
        assert(dec_str(b).last() == digit_char(b % 10));
        assert(a % 10 == b % 10);
        lemma_dec_str_injective(a / 10, b / 10);
        assert(a == a / 10 * 10 + a % 10) by {
            vstd::arithmetic::div_mod::lemma_fundamental_div_mod(a, 10);
        }
        assert(b == b / 10 * 10 + b % 10) by {
            vstd::arithmetic::div_mod::lemma_fundamental_div_mod(b, 10);
        }
    } else if a < 10 {
        assert(dec_str(a).len() == 1);
        assert(dec_str(b).len() >= 2);
    } else {
        assert(dec_str(b).len() == 1);
        assert(dec_str(a).len() >= 2);
    }
}

/// One decimal digit as a character.
pub fn digit_to_char(d: u64) -> (c: char)
    requires
        d < 10,
    ensures
        c == digit_char(d as int),
{
    match d {
        0 => '0',
        1 => '1',
        2 => '2',
        3 => '3',
        4 => '4',
        5 => '5',
        6 => '6',
        7 => '7',
        8 => '8',
        _ => '9',
    }
}

/// Renders `n` in decimal.
pub fn u64_to_dec(n: u64) -> (r: String)
    ensures
        r@ == dec_str(n as int),
{
    let mut rev: Vec<char> = Vec::new();
    let mut m: u64 = n;
    while m >= 10
        invariant
            dec_str(n as int) == dec_str(m as int) + rev@.reverse(),
        decreases m,
    {
        let d = digit_to_char(m % 10);
        proof {
            assert((rev@.push(d)).reverse() =~= seq![d] + rev@.reverse());
            assert(dec_str(m as int) + rev@.reverse() =~= dec_str(m as int / 10) + (rev@.push(
                d,
            )).reverse());
        }
        rev.push(d);
        m = m / 10;
    }
    let d = digit_to_char(m);
    proof {
        assert((rev@.push(d)).reverse() =~= seq![d] + rev@.reverse());
        assert(dec_str(m as int) + rev@.reverse() =~= (rev@.push(d)).reverse());
    }
    rev.push(d);
    let ghost all = rev@;
    let mut s = String::new();
    let mut i: usize = rev.len();
    while i > 0
        invariant
            i <= rev.len(),
            rev@ == all,
            s@ == all.subrange(i as int, all.len() as int).reverse(),
        decreases i,
    {
        i = i - 1;
        let c = rev[i];
        proof {
            assert(all.subrange(i as int, all.len() as int).reverse() =~= all.subrange(
                i as int + 1,
                all.len() as int,
            ).reverse() + seq![c]);
        }
        push_char(&mut s, c);
        proof {
            assert(s@ =~= all.subrange(i as int, all.len() as int).reverse());
        }
    }
    proof {
        assert(all.subrange(0, all.len() as int) =~= all);
        assert(s@ =~= dec_str(n as int));
    }
    s
}

} // verus!
