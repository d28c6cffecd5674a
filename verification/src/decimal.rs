use vstd::prelude::*;

verus! {

/// True when every byte of `s` is an ASCII decimal digit.
pub open spec fn is_digits(s: Seq<u8>) -> bool {
    forall|i: int| 0 <= i < s.len() ==> 48 <= #[trigger] s[i] <= 57
}

/// The integer value of a run of ASCII digits, most significant first.
pub open spec fn dec_value(s: Seq<u8>) -> int
    decreases s.len(),
{
    if s.len() == 0 {
        0
    } else {
        dec_value(s.drop_last()) * 10 + (s.last() - 48)
    }
}

/// The ASCII decimal digits of `v`, most significant first, no leading
/// zeros except for the single digit of zero itself.
pub open spec fn dec_digits(v: nat) -> Seq<u8>
    decreases v,
{
    if v < 10 {
        seq![(48 + v) as u8]
    } else {
        dec_digits(v / 10).push((48 + v % 10) as u8)
    }
}

/// Powers of ten.
pub open spec fn pow10(n: nat) -> int
    decreases n,
{
    if n == 0 {
        1
    } else {
        10 * pow10((n - 1) as nat)
    }
}

/// Reading back the digits of `v` yields `v`; the digits are digits, and
/// there is at least one.
pub proof fn lemma_dec_digits_value(v: nat)
    ensures
        dec_value(dec_digits(v)) == v,
        is_digits(dec_digits(v)),
        dec_digits(v).len() >= 1,
    decreases v,
{
    if v < 10 {
        assert(dec_digits(v).len() == 1);
        assert(dec_digits(v).drop_last() =~= Seq::<u8>::empty());
        assert(dec_value(Seq::<u8>::empty()) == 0);
        assert(dec_digits(v).last() == (48 + v) as u8);
    } else {
        lemma_dec_digits_value(v / 10);
        assert(dec_digits(v).drop_last() =~= dec_digits(v / 10));
        assert forall|i: int| 0 <= i < dec_digits(v).len() implies
            48 <= #[trigger] dec_digits(v)[i] <= 57 by {
            if i < dec_digits(v).len() - 1 {
                assert(dec_digits(v)[i] == dec_digits(v / 10)[i]);
            }
        }
    }
}

/// A value below the `n`-th power of ten has at most `n` digits.
pub proof fn lemma_dec_digits_len(v: nat, n: nat)
    requires
        n >= 1,
        v < pow10(n),
    ensures
        dec_digits(v).len() <= n,
    decreases n,
{
    if v >= 10 {
        assert(pow10(n) == 10 * pow10((n - 1) as nat));
        lemma_dec_digits_len(v / 10, (n - 1) as nat);
    }
}

/// Writes `v` in ASCII decimal, most significant digit first.
pub fn encode_decimal(v: u64) -> (r: Vec<u8>)
    ensures
        r@ == dec_digits(v as nat),
    decreases v,
{
    if v < 10 {
        let mut r: Vec<u8> = Vec::new();
        r.push(48 + v as u8);
        r
    } else {
        let mut r = encode_decimal(v / 10);
        r.push(48 + (v % 10) as u8);
        r
    }
}

/// Reads a run of at most 19 ASCII digits as an integer; rejects an empty
/// run, a longer run, or any non-digit byte.
pub fn parse_decimal(s: &Vec<u8>) -> (r: Option<u64>)
    ensures
        r matches Some(v) <==> (1 <= s@.len() <= 19 && is_digits(s@)),
        r matches Some(v) ==> v == dec_value(s@),
{
    if s.len() == 0 || s.len() > 19 {
        return None;
    }
    let mut acc: u64 = 0;
    let mut i: usize = 0;
    while i < s.len()
        invariant
            i <= s@.len() <= 19,
            is_digits(s@.subrange(0, i as int)),
            acc == dec_value(s@.subrange(0, i as int)),
            acc < pow10(i as nat),
        decreases s@.len() - i,
    {
        let b: u8 = s[i];
        if b < 48 || b > 57 {
            assert(!is_digits(s@)) by {
                assert(s@[i as int] == b);
            }
            return None;
        }
        proof {
            assert(s@.subrange(0, i as int + 1).drop_last() =~= s@.subrange(0, i as int));
            assert(s@.subrange(0, i as int + 1).last() == b);
            assert(is_digits(s@.subrange(0, i as int + 1)));
            lemma_pow10_nineteen();
            assert(pow10(i as nat + 1) <= pow10(19)) by {
                lemma_pow10_le(i as nat + 1, 19);
            }
        }
        acc = acc * 10 + (b - 48) as u64;
        i = i + 1;
    }
    assert(s@.subrange(0, s@.len() as int) =~= s@);
    Some(acc)
}

/// The nineteenth power of ten, written out.
pub proof fn lemma_pow10_nineteen()
    ensures
        pow10(19) == 10_000_000_000_000_000_000,
{
    assert(pow10(0) == 1);
    assert(pow10(1) == 10);
    assert(pow10(2) == 100);
    assert(pow10(3) == 1000);
    assert(pow10(4) == 10000);
    assert(pow10(5) == 100000);
    assert(pow10(6) == 1000000);
    assert(pow10(7) == 10000000);
    assert(pow10(8) == 100000000);
    assert(pow10(9) == 1000000000);
    assert(pow10(10) == 10000000000);
    assert(pow10(11) == 100000000000);
    assert(pow10(12) == 1000000000000);
    assert(pow10(13) == 10000000000000);
    assert(pow10(14) == 100000000000000);
    assert(pow10(15) == 1000000000000000);
    assert(pow10(16) == 10000000000000000);
    assert(pow10(17) == 100000000000000000);
    assert(pow10(18) == 1000000000000000000);
}

/// Powers of ten grow with the exponent.
pub proof fn lemma_pow10_le(a: nat, b: nat)
    requires
        a <= b,
    ensures
        pow10(a) <= pow10(b),
    decreases b,
{
    if a < b {
        lemma_pow10_le(a, (b - 1) as nat);
        assert(pow10((b - 1) as nat) >= 1) by {
            lemma_pow10_pos((b - 1) as nat);
        }
    }
}

/// Powers of ten are positive.
pub proof fn lemma_pow10_pos(n: nat)
    ensures
        pow10(n) >= 1,
    decreases n,
{
    if n > 0 {
        lemma_pow10_pos((n - 1) as nat);
    }
}

} // verus!
