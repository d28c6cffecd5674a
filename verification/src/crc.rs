use vstd::prelude::*;

verus! {

/// One shift round of the cyclic redundancy check: shift left by one and,
/// when a bit falls off, fold in the generator polynomial `0x1021`.
pub open spec fn crc16_round(c: u16) -> u16 {
    if c & 0x8000 != 0 {
        (c << 1) ^ 0x1021
    } else {
        c << 1
    }
}

/// `n` shift rounds applied to `c`.
pub open spec fn crc16_rounds(c: u16, n: nat) -> u16
    decreases n,
{
    if n == 0 {
        c
    } else {
        crc16_round(crc16_rounds(c, (n - 1) as nat))
    }
}

/// Folds one input byte into the running check: eight shift rounds over
/// the accumulator with the byte mixed into its high half.
pub open spec fn crc16_step(c: u16, b: u8) -> u16 {
    crc16_rounds(c ^ ((b as u16) << 8), 8)
}

/// The 16-bit cyclic redundancy check of a byte sequence, taken over the
/// bytes from first to last, starting from zero.
pub open spec fn crc16_of(s: Seq<u8>) -> u16
    decreases s.len(),
{
    if s.len() == 0 {
        0u16
    } else {
        crc16_step(crc16_of(s.drop_last()), s.last())
    }
}

/// A shift round maps different accumulators to different accumulators.
pub proof fn lemma_crc16_round_injective(a: u16, b: u16)
    by (bit_vector)
    requires
        a != b,
    ensures
        crc16_round(a) != crc16_round(b),
{
}

/// Shift rounds map different accumulators to different accumulators.
pub proof fn lemma_crc16_rounds_injective(a: u16, b: u16, n: nat)
    requires
        a != b,
    ensures
        crc16_rounds(a, n) != crc16_rounds(b, n),
    decreases n,
{
    if n > 0 {
        lemma_crc16_rounds_injective(a, b, (n - 1) as nat);
        lemma_crc16_round_injective(crc16_rounds(a, (n - 1) as nat), crc16_rounds(b, (n - 1) as nat));
    }
}

/// Folding a byte keeps accumulators apart: different accumulators with
/// the same byte, or the same accumulator with different bytes, end
/// different.
pub proof fn lemma_crc16_step_injective(c1: u16, b1: u8, c2: u16, b2: u8)
    requires
        (c1 == c2 && b1 != b2) || (c1 != c2 && b1 == b2),
    ensures
        crc16_step(c1, b1) != crc16_step(c2, b2),
{
    assert((c1 ^ ((b1 as u16) << 8)) != (c2 ^ ((b2 as u16) << 8))) by (bit_vector)
        requires
            (c1 == c2 && b1 != b2) || (c1 != c2 && b1 == b2),
    ;
    lemma_crc16_rounds_injective(c1 ^ ((b1 as u16) << 8), c2 ^ ((b2 as u16) << 8), 8);
}

/// The check detects any corruption of one byte: two equal-length
/// sequences that differ in exactly one position have different checks.
pub proof fn lemma_crc16_detects_byte_change(p: Seq<u8>, q: Seq<u8>, i: int)
    requires
        p.len() == q.len(),
        0 <= i < p.len(),
        p[i] != q[i],
        forall|j: int| 0 <= j < p.len() && j != i ==> p[j] == q[j],
    ensures
        crc16_of(p) != crc16_of(q),
    decreases p.len(),
{
    let n = p.len() as int;
    if i == n - 1 {
        assert(p.drop_last() =~= q.drop_last());
        lemma_crc16_step_injective(
            crc16_of(p.drop_last()),
            p.last(),
            crc16_of(q.drop_last()),
            q.last(),
        );
    } else {
        assert(p.last() == q.last());
        assert(p.drop_last()[i] == p[i] && q.drop_last()[i] == q[i]);
        assert forall|j: int| 0 <= j < p.drop_last().len() && j != i implies p.drop_last()[j]
            == q.drop_last()[j] by {
            assert(p.drop_last()[j] == p[j] && q.drop_last()[j] == q[j]);
        }
        lemma_crc16_detects_byte_change(p.drop_last(), q.drop_last(), i);
        lemma_crc16_step_injective(
            crc16_of(p.drop_last()),
            p.last(),
            crc16_of(q.drop_last()),
            q.last(),
        );
    }
}

/// Computes the cyclic redundancy check of `data`.
pub fn crc16(data: &Vec<u8>) -> (r: u16)
    ensures
        r == crc16_of(data@),
{
    let mut crc: u16 = 0;
    let mut i: usize = 0;
    while i < data.len()
        invariant
            i <= data.len(),
            crc == crc16_of(data@.subrange(0, i as int)),
        decreases data.len() - i,
    {
        let b: u8 = data[i];
        let start: u16 = crc ^ ((b as u16) << 8);
        let mut c: u16 = start;
        let mut j: usize = 0;
        while j < 8
            invariant
                j <= 8,
                c == crc16_rounds(start, j as nat),
        decreases 8 - j,
        {
            c = if c & 0x8000 != 0 {
                (c << 1) ^ 0x1021
            } else {
                c << 1
            };
            j = j + 1;
        }
        assert(c == crc16_step(crc, b));
        assert(data@.subrange(0, i as int + 1).drop_last() =~= data@.subrange(0, i as int));
        assert(data@.subrange(0, i as int + 1).last() == b);
        crc = c;
        i = i + 1;
    }
    assert(data@.subrange(0, data@.len() as int) =~= data@);
    crc
}

} // verus!
