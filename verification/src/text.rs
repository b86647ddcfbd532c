//! Building blocks for the diagnostic text the harness produces: decimal and
//! hexadecimal renderings of numbers and byte strings, and substring search
//! over character sequences.

use vstd::prelude::*;

verus! {

/// The character for one decimal digit.
pub open spec fn digit10_char(d: nat) -> char {
    if d == 0 { '0' }
    else if d == 1 { '1' }
    else if d == 2 { '2' }
    else if d == 3 { '3' }
    else if d == 4 { '4' }
    else if d == 5 { '5' }
    else if d == 6 { '6' }
    else if d == 7 { '7' }
    else if d == 8 { '8' }
    else { '9' }
}

/// The character for one hexadecimal digit (lower case).
pub open spec fn digit16_char(d: nat) -> char {
    if d < 10 { digit10_char(d) }
    else if d == 10 { 'a' }
    else if d == 11 { 'b' }
    else if d == 12 { 'c' }
    else if d == 13 { 'd' }
    else if d == 14 { 'e' }
    else { 'f' }
}

/// Decimal rendering of a natural number, most significant digit first.
pub open spec fn dec_seq(n: nat) -> Seq<char>
    decreases n,
{
    if n < 10 {
        seq![digit10_char(n)]
    } else {
        dec_seq(n / 10).push(digit10_char(n % 10))
    }
}

/// Decimal rendering of an integer: a minus sign for negative values.
pub open spec fn int_seq(n: int) -> Seq<char> {
    if n < 0 {
        seq!['-'] + dec_seq((-n) as nat)
    } else {
        dec_seq(n as nat)
    }
}

/// Hexadecimal rendering of a byte string, two digits per byte.
pub open spec fn hex_seq(bs: Seq<u8>) -> Seq<char>
    decreases bs.len(),
{
    if bs.len() == 0 {
        Seq::<char>::empty()
    } else {
        hex_seq(bs.drop_last())
            .push(digit16_char((bs.last() / 16) as nat))
            .push(digit16_char((bs.last() % 16) as nat))
    }
}

/// Appends the single decimal digit `d` to `s`.
pub fn push_digit10(s: &mut String, d: u8)
    requires
        d < 10,
    ensures
        final(s)@ == old(s)@.push(digit10_char(d as nat)),
{
    match d {
        0 => {
            proof { reveal_strlit("0"); }
            s.append("0");
        }
        1 => {
            proof { reveal_strlit("1"); }
            s.append("1");
        }
        2 => {
            proof { reveal_strlit("2"); }
            s.append("2");
        }
        3 => {
            proof { reveal_strlit("3"); }
            s.append("3");
        }
        4 => {
            proof { reveal_strlit("4"); }
            s.append("4");
        }
        5 => {
            proof { reveal_strlit("5"); }
            s.append("5");
        }
        6 => {
            proof { reveal_strlit("6"); }
            s.append("6");
        }
        7 => {
            proof { reveal_strlit("7"); }
            s.append("7");
        }
        8 => {
            proof { reveal_strlit("8"); }
            s.append("8");
        }
        _ => {
            proof { reveal_strlit("9"); }
            s.append("9");
        }
    }
    proof {
        assert(final(s)@ =~= old(s)@.push(digit10_char(d as nat)));
    }
}

/// Appends the single hexadecimal digit `d` to `s`.
pub fn push_digit16(s: &mut String, d: u8)
    requires
        d < 16,
    ensures
        final(s)@ == old(s)@.push(digit16_char(d as nat)),
{
    if d < 10 {
        push_digit10(s, d);
    } else {
        match d {
            10 => {
                proof { reveal_strlit("a"); }
                s.append("a");
            }
            11 => {
                proof { reveal_strlit("b"); }
                s.append("b");
            }
            12 => {
                proof { reveal_strlit("c"); }
                s.append("c");
            }
            13 => {
                proof { reveal_strlit("d"); }
                s.append("d");
            }
            14 => {
                proof { reveal_strlit("e"); }
                s.append("e");
            }
            _ => {
                proof { reveal_strlit("f"); }
                s.append("f");
            }
        }
        proof {
            assert(final(s)@ =~= old(s)@.push(digit16_char(d as nat)));
        }
    }
}

/// Appends the decimal rendering of `n` to `s`.
pub fn push_dec(s: &mut String, n: u64)
    ensures
        final(s)@ == old(s)@ + dec_seq(n as nat),
    decreases n,
{
    if n < 10 {
        push_digit10(s, n as u8);
        proof {
            assert(final(s)@ =~= old(s)@ + dec_seq(n as nat));
        }
    } else {
        push_dec(s, n / 10);
        push_digit10(s, (n % 10) as u8);
        proof {
            assert(final(s)@ =~= old(s)@ + dec_seq(n as nat));
        }
    }
}

/// Appends the decimal rendering of the signed `n` to `s`.
pub fn push_int(s: &mut String, n: i64)
    ensures
        final(s)@ == old(s)@ + int_seq(n as int),
{
    if n < 0 {
        proof { reveal_strlit("-"); }
        s.append("-");
        let magnitude: u64 = (-(n as i128)) as u64;
        push_dec(s, magnitude);
        proof {
            assert(final(s)@ =~= old(s)@ + int_seq(n as int));
        }
    } else {
        push_dec(s, n as u64);
    }
}

/// Appends the hexadecimal rendering of `bs` to `s`.
pub fn push_hex(s: &mut String, bs: &Vec<u8>)
    ensures
        final(s)@ == old(s)@ + hex_seq(bs@),
{
    let mut i: usize = 0;
    proof {
        assert(s@ =~= old(s)@ + hex_seq(bs@.subrange(0, 0)));
    }
    while i < bs.len()
        invariant
            i <= bs.len(),
            s@ == old(s)@ + hex_seq(bs@.subrange(0, i as int)),
        decreases bs.len() - i,
    {
        let b = bs[i];
        push_digit16(s, b / 16);
        push_digit16(s, b % 16);
        proof {
            assert(bs@.subrange(0, i + 1 as int).drop_last() =~= bs@.subrange(0, i as int));
            assert(bs@.subrange(0, i + 1 as int).last() == bs@[i as int]);
            assert(s@ =~= old(s)@ + hex_seq(bs@.subrange(0, i + 1 as int)));
        }
        i = i + 1;
    }
    proof {
        assert(bs@.subrange(0, bs@.len() as int) =~= bs@);
    }
}

/// `sub` occurs in `s` starting at position `i`.
pub open spec fn matches_at(s: Seq<char>, sub: Seq<char>, i: int) -> bool {
    &&& 0 <= i
    &&& i + sub.len() <= s.len()
    &&& s.subrange(i, i + sub.len() as int) == sub
}

/// `sub` occurs somewhere in `s`.
pub open spec fn contains_seq(s: Seq<char>, sub: Seq<char>) -> bool {
    exists|i: int| matches_at(s, sub, i)
}

/// Whether the string `s` contains `sub` as a contiguous substring.
pub fn str_contains(s: &str, sub: &str) -> (r: bool)
    ensures
        r == contains_seq(s@, sub@),
{
    let n = s.unicode_len();
    let m = sub.unicode_len();
    if m > n {
        return false;
    }
    if m == 0 {
        proof {
            assert(s@.subrange(0, 0) =~= sub@);
            assert(matches_at(s@, sub@, 0));
        }
        return true;
    }
    let mut i: usize = 0;
    while i <= n - m
        invariant
            1 <= m <= n,
            n == s@.len(),
            m == sub@.len(),
            i <= n - m + 1,
            forall|k: int| 0 <= k < i ==> !matches_at(s@, sub@, k),
        decreases n - m + 1 - i,
    {
        let mut j: usize = 0;
        let mut mismatch = false;
        while j < m
            invariant
                m <= n,
                n == s@.len(),
                m == sub@.len(),
                i + m <= n,
                j <= m,
                !mismatch ==> s@.subrange(i as int, i + j as int) =~= sub@.subrange(0, j as int),
                mismatch ==> !matches_at(s@, sub@, i as int),
            decreases m - j,
        {
            let cs = s.get_char(i + j);
            let cu = sub.get_char(j);
            if cs != cu {
                proof {
                    assert(s@.subrange(i as int, i + m as int)[j as int] == s@[i + j]);
                    assert(sub@[j as int] != s@[i + j]);
                }
                mismatch = true;
                j = m;
            } else {
                proof {
                    assert(s@.subrange(i as int, i + (j + 1) as int)
                        =~= s@.subrange(i as int, i + j as int).push(s@[i + j]));
                    assert(sub@.subrange(0, (j + 1) as int)
                        =~= sub@.subrange(0, j as int).push(sub@[j as int]));
                }
                j = j + 1;
            }
        }
        if !mismatch {
            proof {
                assert(s@.subrange(i as int, i + m as int) =~= sub@.subrange(0, m as int));
                assert(sub@.subrange(0, m as int) =~= sub@);
                assert(matches_at(s@, sub@, i as int));
            }
            return true;
        }
        i = i + 1;
    }
    proof {
        assert forall|k: int| matches_at(s@, sub@, k) implies false by {
            assert(0 <= k <= n - m);
        }
    }
    false
}

} // verus!
