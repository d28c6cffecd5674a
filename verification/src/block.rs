use vstd::prelude::*;

use crate::crc::crc16;
use crate::crc::crc16_of;
use crate::error::TransferError;

verus! {

/// Start marker of a block with a 128-byte payload.
pub const SOH: u8 = 0x01;

/// Start marker of a block with a 1024-byte payload.
pub const STX: u8 = 0x02;

/// End-of-transmission marker, sent alone after the last data block.
pub const EOT: u8 = 0x04;

/// Positive acknowledgement of a block.
pub const ACK: u8 = 0x06;

/// Negative acknowledgement: the last block was corrupt, resend it.
pub const NAK: u8 = 0x15;

/// The receiver's "ready, use checksum mode C" handshake byte.
pub const CRC_READY: u8 = 0x43;

/// The byte used to pad a final short chunk up to the block size.
pub const PAD_BYTE: u8 = 0x1a;

/// Wire length of a block with a 128-byte payload: marker, sequence
/// number, its complement, payload, two check bytes.
pub const SHORT_FRAME: usize = 133;

/// Wire length of a block with a 1024-byte payload.
pub const LONG_FRAME: usize = 1029;

/// Retransmissions allowed per block before the transfer is abandoned.
pub const RETRY_BUDGET: u8 = 10;

/// Handshake attempts allowed before the two ends give up on each other.
pub const HANDSHAKE_ATTEMPTS: u8 = 10;

/// High byte of the 16-bit check.
pub open spec fn spec_crc_hi(c: u16) -> u8 {
    (c >> 8) as u8
}

/// Low byte of the 16-bit check.
pub open spec fn spec_crc_lo(c: u16) -> u8 {
    (c & 0xff) as u8
}

#[verifier::when_used_as_spec(spec_crc_hi)]
pub fn crc_hi(c: u16) -> (r: u8)
    ensures
        r == spec_crc_hi(c),
{
    (c >> 8) as u8
}

#[verifier::when_used_as_spec(spec_crc_lo)]
pub fn crc_lo(c: u16) -> (r: u8)
    ensures
        r == spec_crc_lo(c),
{
    (c & 0xff) as u8
}

/// The start marker that announces a payload of `n` bytes.
pub open spec fn marker_for(n: nat) -> u8 {
    if n == 128 {
        SOH
    } else {
        STX
    }
}

/// The wire bytes of a block: marker, sequence number, complement of the
/// sequence number, payload, and the two check bytes over the payload.
pub open spec fn block_bytes(seqno: u8, p: Seq<u8>) -> Seq<u8> {
    seq![marker_for(p.len()), seqno, (255 - seqno) as u8] + p + seq![
        spec_crc_hi(crc16_of(p)),
        spec_crc_lo(crc16_of(p)),
    ]
}

/// True when a frame is a well-formed block: a known marker with the
/// matching frame length, a sequence byte confirmed by its complement,
/// and check bytes that match the payload.
pub open spec fn is_well_formed_block(f: Seq<u8>) -> bool {
    &&& ((f.len() == 133 && f[0] == SOH) || (f.len() == 1029 && f[0] == STX))
    &&& f[2] == (255 - f[1]) as u8
    &&& f[f.len() - 2] == spec_crc_hi(crc16_of(f.subrange(3, f.len() - 2)))
    &&& f[f.len() - 1] == spec_crc_lo(crc16_of(f.subrange(3, f.len() - 2)))
}

/// The sequence number a well-formed block declares.
pub open spec fn block_seq(f: Seq<u8>) -> u8 {
    f[1]
}

/// The payload a well-formed block carries.
pub open spec fn block_payload(f: Seq<u8>) -> Seq<u8> {
    f.subrange(3, f.len() - 2)
}

/// Frames a payload as one block.
pub fn encode_block(seqno: u8, payload: &Vec<u8>) -> (r: Vec<u8>)
    requires
        payload@.len() == 128 || payload@.len() == 1024,
    ensures
        r@ == block_bytes(seqno, payload@),
{
    let mut r: Vec<u8> = Vec::new();
    if payload.len() == 128 {
        r.push(SOH);
    } else {
        r.push(STX);
    }
    r.push(seqno);
    r.push(255 - seqno);
    let mut i: usize = 0;
    while i < payload.len()
        invariant
            i <= payload@.len(),
            r@ == seq![marker_for(payload@.len()), seqno, (255 - seqno) as u8] + payload@.subrange(
                0,
                i as int,
            ),
        decreases payload@.len() - i,
    {
        r.push(payload[i]);
        proof {
            assert(seq![marker_for(payload@.len()), seqno, (255 - seqno) as u8]
                + payload@.subrange(0, i as int + 1) =~= (seq![
                marker_for(payload@.len()),
                seqno,
                (255 - seqno) as u8,
            ] + payload@.subrange(0, i as int)).push(payload@[i as int]));
        }
        i = i + 1;
    }
    let c: u16 = crc16(payload);
    r.push(crc_hi(c));
    r.push(crc_lo(c));
    proof {
        assert(payload@.subrange(0, payload@.len() as int) =~= payload@);
        assert(r@ =~= block_bytes(seqno, payload@));
    }
    r
}

/// A block framed from a payload is well formed and yields back the
/// sequence number and payload it was framed from.
pub proof fn lemma_block_round_trip(seqno: u8, p: Seq<u8>)
    requires
        p.len() == 128 || p.len() == 1024,
    ensures
        is_well_formed_block(block_bytes(seqno, p)),
        block_seq(block_bytes(seqno, p)) == seqno,
        block_payload(block_bytes(seqno, p)) == p,
{
    let f = block_bytes(seqno, p);
    assert(f.len() == p.len() + 5);
    assert(f.subrange(3, f.len() - 2) =~= p);
}

/// Corrupting one payload byte of a well-formed block always leaves a
/// frame that fails validation: the check bytes, unchanged, no longer
/// match the payload. A single bit flip is a case of this.
pub proof fn lemma_payload_corruption_rejected(f: Seq<u8>, g: Seq<u8>, i: int)
    requires
        is_well_formed_block(f),
        g.len() == f.len(),
        3 <= i < f.len() - 2,
        g[i] != f[i],
        forall|j: int| 0 <= j < f.len() && j != i ==> g[j] == f[j],
    ensures
        !is_well_formed_block(g),
{
    let pf = block_payload(f);
    let pg = block_payload(g);
    assert(pg[i - 3] != pf[i - 3]);
    assert forall|j: int| 0 <= j < pf.len() && j != i - 3 implies pg[j] == pf[j] by {
        assert(pf[j] == f[j + 3] && pg[j] == g[j + 3]);
    }
    crate::crc::lemma_crc16_detects_byte_change(pf, pg, i - 3);
    if is_well_formed_block(g) {
        let a = crc16_of(pf);
        let b = crc16_of(pg);
        assert(g[g.len() - 2] == f[f.len() - 2] && g[g.len() - 1] == f[f.len() - 1]);
        assert(spec_crc_hi(a) == spec_crc_hi(b) && spec_crc_lo(a) == spec_crc_lo(b));
        assert(a == b) by (bit_vector)
            requires
                ((a >> 8) as u8) == ((b >> 8) as u8),
                ((a & 0xff) as u8) == ((b & 0xff) as u8),
        ;
        assert(false);
    }
}

/// Validates a frame as a block; a well-formed block yields its sequence
/// number and payload, anything else is `CorruptBlock`.
pub fn check_block(frame: &Vec<u8>) -> (r: Result<(u8, Vec<u8>), TransferError>)
    ensures
        r is Ok <==> is_well_formed_block(frame@),
        r matches Ok(sp) ==> sp.0 == block_seq(frame@) && sp.1@ == block_payload(frame@),
        r matches Err(e) ==> e == TransferError::CorruptBlock,
{
    let n = frame.len();
    let framed: bool = if n == SHORT_FRAME {
        frame[0] == SOH
    } else if n == LONG_FRAME {
        frame[0] == STX
    } else {
        false
    };
    if !framed {
        return Err(TransferError::CorruptBlock);
    }
    if frame[2] != 255 - frame[1] {
        return Err(TransferError::CorruptBlock);
    }
    let mut p: Vec<u8> = Vec::new();
    let mut i: usize = 3;
    while i < n - 2
        invariant
            3 <= i <= n - 2,
            n == frame@.len(),
            n == 133 || n == 1029,
            p@ == frame@.subrange(3, i as int),
        decreases n - 2 - i,
    {
        p.push(frame[i]);
        proof {
            assert(frame@.subrange(3, i as int + 1) =~= frame@.subrange(3, i as int).push(
                frame@[i as int],
            ));
        }
        i = i + 1;
    }
    let c: u16 = crc16(&p);
    if frame[n - 2] != crc_hi(c) || frame[n - 1] != crc_lo(c) {
        return Err(TransferError::CorruptBlock);
    }
    Ok((frame[1], p))
}

/// The length a receiver should read after seeing `m` as the first byte
/// of a frame on the serial stream: the whole frame for a block marker,
/// just the marker itself for end-of-transmission, nothing known
/// otherwise.
pub fn frame_len_for_marker(m: u8) -> (r: Option<usize>)
    ensures
        m == SOH ==> r == Some(133usize),
        m == STX ==> r == Some(1029usize),
        m == EOT ==> r == Some(1usize),
        (m != SOH && m != STX && m != EOT) ==> r is None,
{
    if m == SOH {
        Some(SHORT_FRAME)
    } else if m == STX {
        Some(LONG_FRAME)
    } else if m == EOT {
        Some(1)
    } else {
        None
    }
}

} // verus!
