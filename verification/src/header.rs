use vstd::prelude::*;

use crate::decimal::dec_value;
use crate::decimal::is_digits;
use crate::decimal::encode_decimal;
use crate::decimal::parse_decimal;
use crate::decimal::lemma_dec_digits_value;
use crate::decimal::lemma_dec_digits_len;
use crate::decimal::lemma_pow10_nineteen;

verus! {

/// What the first block of a transfer declares about the file: its name,
/// and, when the sender knows it, its exact size in bytes. A declared
/// size lets the receiver strip the padding of the final data block.
pub struct FileInfo {
    pub name: Vec<u8>,
    pub size: Option<u64>,
}

/// Field-wise agreement of two file descriptors.
pub open spec fn same_file(a: FileInfo, b: FileInfo) -> bool {
    a.name@ == b.name@ && a.size == b.size
}

/// The index of the first zero byte of `p`, or `p.len()` when there is
/// none.
pub open spec fn nul_pos(p: Seq<u8>) -> int
    decreases p.len(),
{
    if p.len() == 0 {
        0
    } else if p[0] == 0 {
        0
    } else {
        1 + nul_pos(p.drop_first())
    }
}

/// `nul_pos` points at the first zero byte.
pub proof fn lemma_nul_pos(p: Seq<u8>)
    ensures
        0 <= nul_pos(p) <= p.len(),
        forall|j: int| 0 <= j < nul_pos(p) ==> p[j] != 0,
        nul_pos(p) < p.len() ==> p[nul_pos(p)] == 0,
    decreases p.len(),
{
    if p.len() > 0 && p[0] != 0 {
        lemma_nul_pos(p.drop_first());
        assert forall|j: int| 0 <= j < nul_pos(p) implies p[j] != 0 by {
            if j > 0 {
                assert(p.drop_first()[j - 1] == p[j]);
            }
        }
        if nul_pos(p) < p.len() {
            assert(p.drop_first()[nul_pos(p) - 1] == p[nul_pos(p)]);
        }
    }
}

/// Any index with no zero byte before it and a zero byte (or the end) at
/// it is `nul_pos`.
pub proof fn lemma_nul_pos_is(p: Seq<u8>, i: int)
    requires
        0 <= i <= p.len(),
        forall|j: int| 0 <= j < i ==> p[j] != 0,
        i == p.len() || p[i] == 0,
    ensures
        nul_pos(p) == i,
    decreases p.len(),
{
    if p.len() > 0 {
        if i == 0 {
            if p[0] != 0 {
                lemma_nul_pos(p.drop_first());
            }
        } else {
            assert(p[0] != 0);
            assert forall|j: int| 0 <= j < i - 1 implies p.drop_first()[j] != 0 by {
                assert(p.drop_first()[j] == p[j + 1]);
            }
            assert(i - 1 == p.drop_first().len() || p.drop_first()[i - 1] == 0);
            lemma_nul_pos_is(p.drop_first(), i - 1);
        }
    }
}

/// The length of the longest all-digit prefix of `p`.
pub open spec fn digit_run(p: Seq<u8>) -> int
    decreases p.len(),
{
    if p.len() == 0 {
        0
    } else if !(48 <= p[0] <= 57) {
        0
    } else {
        1 + digit_run(p.drop_first())
    }
}

/// Any index with only digits before it and a non-digit (or the end) at
/// it is `digit_run`.
pub proof fn lemma_digit_run_is(p: Seq<u8>, i: int)
    requires
        0 <= i <= p.len(),
        forall|j: int| 0 <= j < i ==> 48 <= #[trigger] p[j] <= 57,
        i == p.len() || !(48 <= p[i] <= 57),
    ensures
        digit_run(p) == i,
    decreases p.len(),
{
    if p.len() > 0 {
        if i == 0 {
            if 48 <= p[0] <= 57 {
                assert(false);
            }
        } else {
            assert(48 <= p[0] <= 57);
            assert forall|j: int| 0 <= j < i - 1 implies 48 <= #[trigger] p.drop_first()[j]
                <= 57 by {
                assert(p.drop_first()[j] == p[j + 1]);
            }
            assert(i - 1 == p.drop_first().len() || !(48 <= p.drop_first()[i - 1] <= 57));
            lemma_digit_run_is(p.drop_first(), i - 1);
        }
    }
}

/// The filename a header payload declares: the bytes up to its first
/// zero byte. An empty name marks the end of the batch.
pub open spec fn header_name(p: Seq<u8>) -> Seq<u8> {
    p.take(nul_pos(p))
}

/// The size a header payload declares: the run of one to nineteen ASCII
/// digits that follows the name's terminating zero byte, read as a
/// decimal number; `None` when the header declares no usable size.
pub open spec fn header_size(p: Seq<u8>) -> Option<int> {
    let n = nul_pos(p);
    if n >= p.len() {
        None
    } else {
        let rest = p.skip(n + 1);
        let d = digit_run(rest);
        if 1 <= d <= 19 {
            Some(dec_value(rest.take(d)))
        } else {
            None
        }
    }
}

/// Reads the file descriptor out of a header payload.
pub fn parse_header(p: &Vec<u8>) -> (r: FileInfo)
    ensures
        r.name@ == header_name(p@),
        match r.size {
            Some(v) => header_size(p@) == Some(v as int),
            None => header_size(p@) is None,
        },
{
    let mut i: usize = 0;
    while i < p.len() && p[i] != 0
        invariant
            i <= p@.len(),
            forall|j: int| 0 <= j < i ==> p@[j] != 0,
        decreases p@.len() - i,
    {
        i = i + 1;
    }
    proof {
        lemma_nul_pos_is(p@, i as int);
    }
    let mut name: Vec<u8> = Vec::new();
    let mut k: usize = 0;
    while k < i
        invariant
            k <= i <= p@.len(),
            name@ == p@.subrange(0, k as int),
        decreases i - k,
    {
        name.push(p[k]);
        proof {
            assert(p@.subrange(0, k as int + 1) =~= p@.subrange(0, k as int).push(p@[k as int]));
        }
        k = k + 1;
    }
    proof {
        assert(name@ =~= header_name(p@));
    }
    if i >= p.len() {
        return FileInfo { name, size: None };
    }
    let start: usize = i + 1;
    let mut j: usize = start;
    while j < p.len() && 48 <= p[j] && p[j] <= 57
        invariant
            start <= j <= p@.len(),
            forall|m: int| start <= m < j ==> 48 <= #[trigger] p@[m] <= 57,
        decreases p@.len() - j,
    {
        j = j + 1;
    }
    let ghost rest = p@.skip(start as int);
    proof {
        assert forall|m: int| 0 <= m < j - start implies 48 <= #[trigger] rest[m] <= 57 by {
            assert(rest[m] == p@[m + start]);
        }
        if (j as int) < p@.len() {
            assert(rest[j - start] == p@[j as int]);
        }
        lemma_digit_run_is(rest, j - start);
    }
    let mut digits: Vec<u8> = Vec::new();
    let mut m: usize = start;
    while m < j
        invariant
            start <= m <= j <= p@.len(),
            digits@ == p@.subrange(start as int, m as int),
        decreases j - m,
    {
        digits.push(p[m]);
        proof {
            assert(p@.subrange(start as int, m as int + 1) =~= p@.subrange(
                start as int,
                m as int,
            ).push(p@[m as int]));
        }
        m = m + 1;
    }
    proof {
        assert(digits@ =~= rest.take(j - start));
    }
    let size = parse_decimal(&digits);
    proof {
        if size is Some {
            assert(is_digits(digits@));
            assert(1 <= digits@.len() <= 19);
        } else {
            if 1 <= digit_run(rest) <= 19 {
                assert(is_digits(rest.take(digit_run(rest)))) by {
                    assert forall|q: int| 0 <= q < digit_run(rest) implies 48 <= #[trigger] rest
                        .take(digit_run(rest))[q] <= 57 by {
                        assert(rest.take(digit_run(rest))[q] == p@[q + start]);
                    }
                }
                assert(false);
            }
        }
    }
    FileInfo { name, size }
}

/// Writes a header payload of 128 bytes: the name, a zero byte, the
/// size in ASCII decimal, and zero padding.
pub fn make_header_payload(name: &Vec<u8>, size: u64) -> (r: Vec<u8>)
    requires
        name@.len() <= 100,
        forall|j: int| 0 <= j < name@.len() ==> name@[j] != 0,
        size < 10_000_000_000_000_000_000,
    ensures
        r@.len() == 128,
        header_name(r@) == name@,
        header_size(r@) == Some(size as int),
{
    proof {
        lemma_pow10_nineteen();
        lemma_dec_digits_len(size as nat, 19);
        lemma_dec_digits_value(size as nat);
    }
    let mut r: Vec<u8> = Vec::new();
    let mut k: usize = 0;
    while k < name.len()
        invariant
            k <= name@.len(),
            r@ == name@.subrange(0, k as int),
        decreases name@.len() - k,
    {
        r.push(name[k]);
        proof {
            assert(name@.subrange(0, k as int + 1) =~= name@.subrange(0, k as int).push(
                name@[k as int],
            ));
        }
        k = k + 1;
    }
    proof {
        assert(r@ =~= name@);
    }
    r.push(0);
    let digits = encode_decimal(size);
    let mut m: usize = 0;
    while m < digits.len()
        invariant
            m <= digits@.len(),
            r@ == name@ + seq![0u8] + digits@.subrange(0, m as int),
        decreases digits@.len() - m,
    {
        r.push(digits[m]);
        proof {
            assert(name@ + seq![0u8] + digits@.subrange(0, m as int + 1) =~= (name@ + seq![0u8]
                + digits@.subrange(0, m as int)).push(digits@[m as int]));
        }
        m = m + 1;
    }
    proof {
        assert(digits@.subrange(0, digits@.len() as int) =~= digits@);
        assert(r@.len() == name@.len() + 1 + digits@.len() <= 120);
    }
    let ghost base = r@;
    let mut pads: usize = 0;
    while r.len() < 128
        invariant
            r@ == base + Seq::new(pads as nat, |q: int| 0u8),
            base.len() + pads <= 128,
            base == name@ + seq![0u8] + digits@,
            base.len() <= 120,
        decreases 128 - r@.len(),
    {
        r.push(0);
        proof {
            assert(base + Seq::new(pads as nat + 1, |q: int| 0u8) =~= (base + Seq::new(
                pads as nat,
                |q: int| 0u8,
            )).push(0u8));
        }
        pads = pads + 1;
    }
    proof {
        assert(r@.len() == 128);
        assert(pads >= 8);
        let nl = name@.len() as int;
        assert forall|j: int| 0 <= j < nl implies r@[j] != 0 by {
            assert(r@[j] == name@[j]);
        }
        assert(r@[nl] == 0);
        lemma_nul_pos_is(r@, nl);
        assert(header_name(r@) =~= name@);
        let rest = r@.skip(nl + 1);
        let dlen = digits@.len() as int;
        assert forall|q: int| 0 <= q < dlen implies 48 <= #[trigger] rest[q] <= 57 by {
            assert(rest[q] == digits@[q]);
        }
        assert(rest[dlen] == 0);
        lemma_digit_run_is(rest, dlen);
        assert(rest.take(dlen) =~= digits@);
    }
    r
}

} // verus!
