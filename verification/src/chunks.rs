use vstd::prelude::*;

use crate::block::PAD_BYTE;

verus! {

/// Pads a short chunk up to the block size with the pad byte.
pub open spec fn pad_to(s: Seq<u8>, n: nat) -> Seq<u8> {
    if s.len() >= n {
        s
    } else {
        s + Seq::new((n - s.len()) as nat, |i: int| PAD_BYTE)
    }
}

/// The block size used for the final chunk of a transfer: the small
/// 128-byte block when the remainder fits in it, the large one
/// otherwise.
pub open spec fn chunk_target(rem: nat) -> nat {
    if rem <= 128 {
        128
    } else {
        1024
    }
}

/// How a sender cuts file content into block payloads: full 1024-byte
/// chunks while the remainder allows, then one final chunk padded up to
/// a block size. Empty content yields no chunk.
pub open spec fn chunks_of(c: Seq<u8>) -> Seq<Seq<u8>>
    decreases c.len(),
{
    if c.len() == 0 {
        Seq::empty()
    } else if c.len() >= 1024 {
        seq![c.take(1024)] + chunks_of(c.skip(1024))
    } else {
        seq![pad_to(c, chunk_target(c.len()))]
    }
}

/// The chunk count brackets the content length: each chunk carries up to
/// 1024 raw bytes and every chunk but the last carries exactly 1024.
pub proof fn lemma_chunks_of_len(c: Seq<u8>)
    ensures
        c.len() == 0 ==> chunks_of(c).len() == 0,
        c.len() > 0 ==> chunks_of(c).len() >= 1 && 1024 * (chunks_of(c).len() - 1) < c.len()
            <= 1024 * chunks_of(c).len(),
    decreases c.len(),
{
    if c.len() >= 1024 {
        lemma_chunks_of_len(c.skip(1024));
    }
}

/// Every chunk is a block payload: 128 or 1024 bytes long.
pub proof fn lemma_chunk_sizes(c: Seq<u8>, k: int)
    requires
        0 <= k < chunks_of(c).len(),
    ensures
        chunks_of(c)[k].len() == 128 || chunks_of(c)[k].len() == 1024,
    decreases c.len(),
{
    if c.len() >= 1024 {
        if k > 0 {
            lemma_chunk_sizes(c.skip(1024), k - 1);
        }
    }
}

/// The `k`-th chunk, written out over the content: the 1024 raw bytes at
/// offset `1024 k`, or, for the final chunk, the remainder padded to a
/// block size.
pub proof fn lemma_chunk_at(c: Seq<u8>, k: int)
    requires
        0 <= k,
        1024 * k < c.len(),
    ensures
        chunks_of(c)[k] == if c.len() - 1024 * k >= 1024 {
            c.subrange(1024 * k, 1024 * k + 1024)
        } else {
            pad_to(c.subrange(1024 * k, c.len() as int), chunk_target((c.len() - 1024 * k) as nat))
        },
    decreases k,
{
    lemma_chunks_of_len(c);
    if k == 0 {
        if c.len() >= 1024 {
            assert(c.take(1024) =~= c.subrange(0, 1024));
        } else {
            assert(c.subrange(0, c.len() as int) =~= c);
        }
    } else {
        assert(c.len() >= 1024);
        let rest = c.skip(1024);
        lemma_chunk_at(rest, k - 1);
        assert(chunks_of(c)[k] == chunks_of(rest)[k - 1]);
        if rest.len() - 1024 * (k - 1) >= 1024 {
            assert(rest.subrange(1024 * (k - 1), 1024 * (k - 1) + 1024) =~= c.subrange(
                1024 * k,
                1024 * k + 1024,
            ));
        } else {
            assert(rest.subrange(1024 * (k - 1), rest.len() as int) =~= c.subrange(
                1024 * k,
                c.len() as int,
            ));
        }
    }
}

/// Builds the `k`-th block payload of a transfer of `content`.
pub fn make_chunk(content: &Vec<u8>, k: usize) -> (r: Vec<u8>)
    requires
        1024 * (k as int) < content@.len(),
    ensures
        r@ == chunks_of(content@)[k as int],
        r@.len() == 128 || r@.len() == 1024,
{
    let total: usize = content.len();
    let offset: usize = 1024 * k;
    let remaining: usize = total - offset;
    let raw_end: usize = if remaining >= 1024 {
        offset + 1024
    } else {
        content.len()
    };
    let mut r: Vec<u8> = Vec::new();
    let mut i: usize = offset;
    while i < raw_end
        invariant
            offset <= i <= raw_end,
            raw_end <= content@.len(),
            r@ == content@.subrange(offset as int, i as int),
        decreases raw_end - i,
    {
        r.push(content[i]);
        proof {
            assert(content@.subrange(offset as int, i as int + 1) =~= content@.subrange(
                offset as int,
                i as int,
            ).push(content@[i as int]));
        }
        i = i + 1;
    }
    if remaining < 1024 {
        let target: usize = if remaining <= 128 {
            128
        } else {
            1024
        };
        let ghost raw = r@;
        let mut pads: usize = 0;
        while r.len() < target
            invariant
                r@ == raw + Seq::new(pads as nat, |q: int| PAD_BYTE),
                raw.len() + pads <= target,
                raw.len() == remaining,
                target == chunk_target(remaining as nat),
                raw == content@.subrange(offset as int, content@.len() as int),
            decreases target - r@.len(),
        {
            r.push(PAD_BYTE);
            proof {
                assert(raw + Seq::new(pads as nat + 1, |q: int| PAD_BYTE) =~= (raw + Seq::new(
                    pads as nat,
                    |q: int| PAD_BYTE,
                )).push(PAD_BYTE));
            }
            pads = pads + 1;
        }
        proof {
            lemma_chunk_at(content@, k as int);
            assert(r@ =~= pad_to(
                content@.subrange(offset as int, content@.len() as int),
                chunk_target(remaining as nat),
            ));
        }
    } else {
        proof {
            lemma_chunk_at(content@, k as int);
        }
    }
    proof {
        lemma_chunks_of_len(content@);
        lemma_chunk_sizes(content@, k as int);
    }
    r
}

/// How many bytes of a received payload the receiver keeps: all of them
/// when no size was declared; otherwise no more than what is still
/// missing from the declared size, so the padding of the final block is
/// stripped.
pub open spec fn trim_len(plen: nat, size: Option<u64>, received: u64) -> nat {
    match size {
        None => plen,
        Some(sz) => if received >= sz {
            0
        } else if plen <= sz - received {
            plen
        } else {
            (sz - received) as nat
        },
    }
}

/// The bytes the receiver emits for a payload: its prefix of the kept
/// length.
pub open spec fn trimmed(p: Seq<u8>, size: Option<u64>, received: u64) -> Seq<u8> {
    p.take(trim_len(p.len(), size, received) as int)
}

/// The bytes a receiver emits, in order, for a sequence of block
/// payloads against a declared size, having already emitted `received`
/// bytes.
pub open spec fn rx_concat(chunks: Seq<Seq<u8>>, sz: u64, received: u64) -> Seq<u8>
    decreases chunks.len(),
{
    if chunks.len() == 0 {
        Seq::empty()
    } else {
        let e = trimmed(chunks.first(), Some(sz), received);
        e + rx_concat(chunks.drop_first(), sz, (received + e.len()) as u64)
    }
}

/// Size-trimming round trip: when the declared size matches the content,
/// the receiver's emitted bytes, concatenated, are exactly the content —
/// the padding the sender added is stripped and nothing else is lost.
pub proof fn lemma_chunked_transfer_round_trip(c: Seq<u8>, sz: u64, received: u64)
    requires
        sz == received + c.len(),
    ensures
        rx_concat(chunks_of(c), sz, received) == c,
    decreases c.len(),
{
    if c.len() == 0 {
        assert(rx_concat(chunks_of(c), sz, received) =~= c);
    } else if c.len() >= 1024 {
        let chunks = chunks_of(c);
        let first = c.take(1024);
        assert(chunks.first() == first);
        let e = trimmed(first, Some(sz), received);
        assert(trim_len(first.len(), Some(sz), received) == 1024);
        assert(e =~= first);
        assert(chunks.drop_first() =~= chunks_of(c.skip(1024)));
        lemma_chunked_transfer_round_trip(c.skip(1024), sz, (received + 1024) as u64);
        assert(e + rx_concat(chunks.drop_first(), sz, (received + e.len()) as u64) =~= c);
    } else {
        let chunks = chunks_of(c);
        let padded = pad_to(c, chunk_target(c.len()));
        assert(chunks.first() == padded);
        let e = trimmed(padded, Some(sz), received);
        assert(trim_len(padded.len(), Some(sz), received) == c.len());
        assert(e =~= c);
        assert(chunks.drop_first().len() == 0);
        assert(rx_concat(chunks.drop_first(), sz, (received + e.len()) as u64) =~= Seq::<
            u8,
        >::empty());
        assert(e + rx_concat(chunks.drop_first(), sz, (received + e.len()) as u64) =~= c);
    }
}

} // verus!
