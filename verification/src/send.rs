use vstd::prelude::*;

use crate::block::ACK;
use crate::block::CRC_READY;
use crate::block::EOT;
use crate::block::RETRY_BUDGET;
use crate::block::HANDSHAKE_ATTEMPTS;
use crate::block::block_bytes;
use crate::block::block_payload;
use crate::block::block_seq;
use crate::block::encode_block;
use crate::block::is_well_formed_block;
use crate::block::lemma_block_round_trip;
use crate::chunks::chunks_of;
use crate::chunks::make_chunk;
use crate::error::TransferError;
use crate::header::header_name;
use crate::header::header_size;
use crate::header::make_header_payload;

verus! {

/// The sender's position in a transfer.
#[derive(Debug)]
pub enum TxPhase {
    /// Waiting, bounded, for the receiver's "ready" byte; nothing has
    /// been transmitted yet.
    Handshake { attempts_left: u8 },
    /// The header block is out; awaiting its acknowledgement.
    Header { retries_left: u8 },
    /// The data block with this chunk index is out; awaiting its
    /// acknowledgement.
    Data { index: usize, retries_left: u8 },
    /// The end-of-transmission marker is out; the file's data is fully
    /// delivered.
    EndMark { retries_left: u8 },
    /// The end-of-batch header is out; the file's data is fully
    /// delivered.
    BatchEnd { retries_left: u8 },
    /// The device acknowledged the whole session.
    DoneConfirmed,
    /// The data was delivered, but the closing exchange was never
    /// acknowledged — distinct from failure, the file arrived.
    DoneUnconfirmed,
    /// The transfer failed before the data was fully delivered.
    Failed { err: TransferError },
}

/// The sender half of the transfer engine: the file being offered and
/// the machine's position. Driven like the receiver: the driver feeds
/// each received byte (or a timeout) to [`tx_step`] and writes the
/// returned bytes to the serial stream.
pub struct Sender {
    pub filename: Vec<u8>,
    pub content: Vec<u8>,
    pub phase: TxPhase,
}

/// One thing the sender's driver observed: a byte of reply on the
/// serial stream, or the expiry of the current wait.
pub enum TxEvent {
    Byte(u8),
    Timeout,
}

/// What one step of the sender decides: the machine to continue with,
/// and the bytes to put on the serial stream.
pub struct TxStep {
    pub next: Sender,
    pub send: Vec<u8>,
}

/// The sequence number of the data block that carries chunk `k`: chunks
/// count from zero, block sequence numbers from one, modulo 256.
pub open spec fn seq_for(k: int) -> u8 {
    (((k % 256) + 1) % 256) as u8
}

/// The payload of the end-of-batch header: all zeros, declaring the
/// empty name that closes the batch.
pub open spec fn zero_header() -> Seq<u8> {
    Seq::new(128, |i: int| 0u8)
}

/// Well-formedness of a sender: a non-empty, zero-free name that fits
/// the header, a content length whose decimal fits the header, and a
/// chunk index that stays in range.
pub open spec fn sender_inv(s: Sender) -> bool {
    &&& 1 <= s.filename@.len() <= 100
    &&& forall|j: int| 0 <= j < s.filename@.len() ==> s.filename@[j] != 0
    &&& s.content@.len() < 10_000_000_000_000_000_000
    &&& match s.phase {
        TxPhase::Data { index, .. } => 1024 * (index as int) < s.content@.len(),
        _ => true,
    }
}

/// True when `sent` is a header block offering `s`'s file: block zero,
/// whose payload declares the filename and the exact content length.
pub open spec fn sends_header(s: Sender, sent: Seq<u8>) -> bool {
    &&& is_well_formed_block(sent)
    &&& sent.len() == 133
    &&& block_seq(sent) == 0
    &&& header_name(block_payload(sent)) == s.filename@
    &&& header_size(block_payload(sent)) == Some(s.content@.len() as int)
}

/// The sender's transition relation: what [`tx_step`] must decide for
/// every phase and event, as spec. In every case the file itself is
/// carried over unchanged.
pub open spec fn tx_step_ok(pre: Sender, ev: TxEvent, r: TxStep) -> bool {
    &&& r.next.filename@ == pre.filename@
    &&& r.next.content@ == pre.content@
    &&& match pre.phase {
        TxPhase::Handshake { attempts_left } => match ev {
            TxEvent::Byte(b) => if b == CRC_READY {
                &&& (r.next.phase matches TxPhase::Header { retries_left } && retries_left
                    == RETRY_BUDGET)
                &&& sends_header(pre, r.send@)
            } else {
                &&& (r.next.phase matches TxPhase::Handshake { attempts_left: a } && a
                    == attempts_left)
                &&& r.send@.len() == 0
            },
            TxEvent::Timeout => if attempts_left == 0 {
                &&& r.next.phase matches TxPhase::Failed { err: TransferError::HandshakeTimeout }
                &&& r.send@.len() == 0
            } else {
                &&& (r.next.phase matches TxPhase::Handshake { attempts_left: a } && a
                    == attempts_left - 1)
                &&& r.send@.len() == 0
            },
        },
        TxPhase::Header { retries_left } => if ev matches TxEvent::Byte(b) && b == ACK {
            if pre.content@.len() == 0 {
                &&& (r.next.phase matches TxPhase::EndMark { retries_left: rl } && rl
                    == RETRY_BUDGET)
                &&& r.send@ == seq![EOT]
            } else {
                &&& (r.next.phase matches TxPhase::Data { index, retries_left: rl } && index == 0
                    && rl == RETRY_BUDGET)
                &&& r.send@ == block_bytes(seq_for(0), chunks_of(pre.content@)[0])
            }
        } else {
            if retries_left == 0 {
                &&& r.next.phase matches TxPhase::Failed { err: TransferError::TransferAborted }
                &&& r.send@.len() == 0
            } else {
                &&& (r.next.phase matches TxPhase::Header { retries_left: rl } && rl
                    == retries_left - 1)
                &&& sends_header(pre, r.send@)
            }
        },
        TxPhase::Data { index, retries_left } => if ev matches TxEvent::Byte(b) && b == ACK {
            if 1024 * (index as int) + 1024 >= pre.content@.len() {
                &&& (r.next.phase matches TxPhase::EndMark { retries_left: rl } && rl
                    == RETRY_BUDGET)
                &&& r.send@ == seq![EOT]
            } else {
                &&& (r.next.phase matches TxPhase::Data { index: i2, retries_left: rl } && i2
                    == index + 1 && rl == RETRY_BUDGET)
                &&& r.send@ == block_bytes(
                    seq_for(index as int + 1),
                    chunks_of(pre.content@)[index as int + 1],
                )
            }
        } else {
            if retries_left == 0 {
                &&& r.next.phase matches TxPhase::Failed { err: TransferError::TransferAborted }
                &&& r.send@.len() == 0
            } else {
                &&& (r.next.phase matches TxPhase::Data { index: i2, retries_left: rl } && i2
                    == index && rl == retries_left - 1)
                &&& r.send@ == block_bytes(
                    seq_for(index as int),
                    chunks_of(pre.content@)[index as int],
                )
            }
        },
        TxPhase::EndMark { retries_left } => if ev matches TxEvent::Byte(b) && b == ACK {
            &&& (r.next.phase matches TxPhase::BatchEnd { retries_left: rl } && rl == RETRY_BUDGET)
            &&& r.send@ == block_bytes(0, zero_header())
        } else {
            if retries_left == 0 {
                &&& r.next.phase matches TxPhase::DoneUnconfirmed
                &&& r.send@.len() == 0
            } else {
                &&& (r.next.phase matches TxPhase::EndMark { retries_left: rl } && rl
                    == retries_left - 1)
                &&& r.send@ == seq![EOT]
            }
        },
        TxPhase::BatchEnd { retries_left } => if ev matches TxEvent::Byte(b) && b == ACK {
            &&& r.next.phase matches TxPhase::DoneConfirmed
            &&& r.send@.len() == 0
        } else {
            if retries_left == 0 {
                &&& r.next.phase matches TxPhase::DoneUnconfirmed
                &&& r.send@.len() == 0
            } else {
                &&& (r.next.phase matches TxPhase::BatchEnd { retries_left: rl } && rl
                    == retries_left - 1)
                &&& r.send@ == block_bytes(0, zero_header())
            }
        },
        TxPhase::DoneConfirmed => {
            &&& r.next.phase matches TxPhase::DoneConfirmed
            &&& r.send@.len() == 0
        },
        TxPhase::DoneUnconfirmed => {
            &&& r.next.phase matches TxPhase::DoneUnconfirmed
            &&& r.send@.len() == 0
        },
        TxPhase::Failed { err } => {
            &&& (r.next.phase matches TxPhase::Failed { err: e2 } && e2 == err)
            &&& r.send@.len() == 0
        },
    }
}

/// Before the receiver's ready byte is seen, the sender transmits
/// nothing; and when the bounded handshake window closes, the operation
/// fails with `HandshakeTimeout` — with no block ever put on the wire.
pub proof fn lemma_handshake_sends_nothing(pre: Sender, ev: TxEvent, r: TxStep)
    requires
        pre.phase matches TxPhase::Handshake { .. },
        !(ev matches TxEvent::Byte(b) && b == CRC_READY),
        tx_step_ok(pre, ev, r),
    ensures
        r.send@.len() == 0,
        match pre.phase {
            TxPhase::Handshake { attempts_left } => ev matches TxEvent::Timeout && attempts_left
                == 0 ==> (r.next.phase matches TxPhase::Failed {
                err: TransferError::HandshakeTimeout,
            }),
            _ => true,
        },
{
}

/// Makes a sender for one file, ready to await the receiver's
/// handshake.
pub fn tx_start(filename: Vec<u8>, content: Vec<u8>) -> (s: Sender)
    requires
        1 <= filename@.len() <= 100,
        forall|j: int| 0 <= j < filename@.len() ==> filename@[j] != 0,
        content@.len() < 10_000_000_000_000_000_000,
    ensures
        s.filename@ == filename@,
        s.content@ == content@,
        s.phase matches TxPhase::Handshake { attempts_left: a } && a == HANDSHAKE_ATTEMPTS,
        sender_inv(s),
{
    Sender { filename, content, phase: TxPhase::Handshake { attempts_left: HANDSHAKE_ATTEMPTS } }
}

/// Frames the header block that offers this sender's file.
fn build_header_block(filename: &Vec<u8>, content: &Vec<u8>) -> (r: Vec<u8>)
    requires
        1 <= filename@.len() <= 100,
        forall|j: int| 0 <= j < filename@.len() ==> filename@[j] != 0,
        content@.len() < 10_000_000_000_000_000_000,
    ensures
        is_well_formed_block(r@),
        r@.len() == 133,
        block_seq(r@) == 0,
        header_name(block_payload(r@)) == filename@,
        header_size(block_payload(r@)) == Some(content@.len() as int),
{
    let payload = make_header_payload(filename, content.len() as u64);
    let b = encode_block(0, &payload);
    proof {
        lemma_block_round_trip(0, payload@);
    }
    b
}

/// Frames the data block that carries chunk `index`.
fn build_data_block(content: &Vec<u8>, index: usize) -> (r: Vec<u8>)
    requires
        1024 * (index as int) < content@.len(),
    ensures
        r@ == block_bytes(seq_for(index as int), chunks_of(content@)[index as int]),
{
    let chunk = make_chunk(content, index);
    let m: usize = (index % 256 + 1) % 256;
    let seqno: u8 = m as u8;
    proof {
        assert(seqno == seq_for(index as int));
    }
    encode_block(seqno, &chunk)
}

/// Frames the end-of-batch header block.
fn build_batch_end_block() -> (r: Vec<u8>)
    ensures
        r@ == block_bytes(0, zero_header()),
{
    let mut payload: Vec<u8> = Vec::new();
    let mut i: usize = 0;
    while i < 128
        invariant
            i <= 128,
            payload@ == Seq::new(i as nat, |q: int| 0u8),
        decreases 128 - i,
    {
        payload.push(0);
        proof {
            assert(Seq::new(i as nat + 1, |q: int| 0u8) =~= Seq::new(i as nat, |q: int| 0u8).push(
                0u8,
            ));
        }
        i = i + 1;
    }
    proof {
        assert(payload@ =~= zero_header());
    }
    encode_block(0, &payload)
}

/// The single end-of-transmission marker byte.
fn build_end_mark() -> (r: Vec<u8>)
    ensures
        r@ == seq![EOT],
{
    let mut v: Vec<u8> = Vec::new();
    v.push(EOT);
    proof {
        assert(v@ =~= seq![EOT]);
    }
    v
}

/// One step of the sender: consumes the machine and one event, and
/// returns the machine to continue with and the bytes to transmit. The
/// decision is exactly [`tx_step_ok`].
pub fn tx_step(s: Sender, event: TxEvent) -> (r: TxStep)
    requires
        sender_inv(s),
    ensures
        tx_step_ok(s, event, r),
        sender_inv(r.next),
{
    let Sender { filename, content, phase } = s;
    match phase {
        TxPhase::Handshake { attempts_left } => match event {
            TxEvent::Byte(b) => {
                if b == CRC_READY {
                    let block = build_header_block(&filename, &content);
                    TxStep {
                        next: Sender {
                            filename,
                            content,
                            phase: TxPhase::Header { retries_left: RETRY_BUDGET },
                        },
                        send: block,
                    }
                } else {
                    TxStep {
                        next: Sender {
                            filename,
                            content,
                            phase: TxPhase::Handshake { attempts_left },
                        },
                        send: Vec::new(),
                    }
                }
            },
            TxEvent::Timeout => {
                if attempts_left == 0 {
                    TxStep {
                        next: Sender {
                            filename,
                            content,
                            phase: TxPhase::Failed { err: TransferError::HandshakeTimeout },
                        },
                        send: Vec::new(),
                    }
                } else {
                    TxStep {
                        next: Sender {
                            filename,
                            content,
                            phase: TxPhase::Handshake { attempts_left: attempts_left - 1 },
                        },
                        send: Vec::new(),
                    }
                }
            },
        },
        TxPhase::Header { retries_left } => {
            let acked: bool = match event {
                TxEvent::Byte(b) => b == ACK,
                TxEvent::Timeout => false,
            };
            if acked {
                if content.len() == 0 {
                    let mark = build_end_mark();
                    TxStep {
                        next: Sender {
                            filename,
                            content,
                            phase: TxPhase::EndMark { retries_left: RETRY_BUDGET },
                        },
                        send: mark,
                    }
                } else {
                    let block = build_data_block(&content, 0);
                    TxStep {
                        next: Sender {
                            filename,
                            content,
                            phase: TxPhase::Data { index: 0, retries_left: RETRY_BUDGET },
                        },
                        send: block,
                    }
                }
            } else if retries_left == 0 {
                TxStep {
                    next: Sender {
                        filename,
                        content,
                        phase: TxPhase::Failed { err: TransferError::TransferAborted },
                    },
                    send: Vec::new(),
                }
            } else {
                let block = build_header_block(&filename, &content);
                TxStep {
                    next: Sender {
                        filename,
                        content,
                        phase: TxPhase::Header { retries_left: retries_left - 1 },
                    },
                    send: block,
                }
            }
        },
        TxPhase::Data { index, retries_left } => {
            let acked: bool = match event {
                TxEvent::Byte(b) => b == ACK,
                TxEvent::Timeout => false,
            };
            if acked {
                let last: bool = content.len() - 1024 * index <= 1024;
                if last {
                    let mark = build_end_mark();
                    TxStep {
                        next: Sender {
                            filename,
                            content,
                            phase: TxPhase::EndMark { retries_left: RETRY_BUDGET },
                        },
                        send: mark,
                    }
                } else {
                    let block = build_data_block(&content, index + 1);
                    TxStep {
                        next: Sender {
                            filename,
                            content,
                            phase: TxPhase::Data { index: index + 1, retries_left: RETRY_BUDGET },
                        },
                        send: block,
                    }
                }
            } else if retries_left == 0 {
                TxStep {
                    next: Sender {
                        filename,
                        content,
                        phase: TxPhase::Failed { err: TransferError::TransferAborted },
                    },
                    send: Vec::new(),
                }
            } else {
                let block = build_data_block(&content, index);
                TxStep {
                    next: Sender {
                        filename,
                        content,
                        phase: TxPhase::Data { index, retries_left: retries_left - 1 },
                    },
                    send: block,
                }
            }
        },
        TxPhase::EndMark { retries_left } => {
            let acked: bool = match event {
                TxEvent::Byte(b) => b == ACK,
                TxEvent::Timeout => false,
            };
            if acked {
                let block = build_batch_end_block();
                TxStep {
                    next: Sender {
                        filename,
                        content,
                        phase: TxPhase::BatchEnd { retries_left: RETRY_BUDGET },
                    },
                    send: block,
                }
            } else if retries_left == 0 {
                TxStep {
                    next: Sender { filename, content, phase: TxPhase::DoneUnconfirmed },
                    send: Vec::new(),
                }
            } else {
                let mark = build_end_mark();
                TxStep {
                    next: Sender {
                        filename,
                        content,
                        phase: TxPhase::EndMark { retries_left: retries_left - 1 },
                    },
                    send: mark,
                }
            }
        },
        TxPhase::BatchEnd { retries_left } => {
            let acked: bool = match event {
                TxEvent::Byte(b) => b == ACK,
                TxEvent::Timeout => false,
            };
            if acked {
                TxStep {
                    next: Sender { filename, content, phase: TxPhase::DoneConfirmed },
                    send: Vec::new(),
                }
            } else if retries_left == 0 {
                TxStep {
                    next: Sender { filename, content, phase: TxPhase::DoneUnconfirmed },
                    send: Vec::new(),
                }
            } else {
                let block = build_batch_end_block();
                TxStep {
                    next: Sender {
                        filename,
                        content,
                        phase: TxPhase::BatchEnd { retries_left: retries_left - 1 },
                    },
                    send: block,
                }
            }
        },
        TxPhase::DoneConfirmed => TxStep {
            next: Sender { filename, content, phase: TxPhase::DoneConfirmed },
            send: Vec::new(),
        },
        TxPhase::DoneUnconfirmed => TxStep {
            next: Sender { filename, content, phase: TxPhase::DoneUnconfirmed },
            send: Vec::new(),
        },
        TxPhase::Failed { err } => TxStep {
            next: Sender { filename, content, phase: TxPhase::Failed { err } },
            send: Vec::new(),
        },
    }
}

} // verus!
