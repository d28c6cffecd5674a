use vstd::prelude::*;

use crate::block::ACK;
use crate::block::CRC_READY;
use crate::block::EOT;
use crate::block::NAK;
use crate::block::RETRY_BUDGET;
use crate::block::HANDSHAKE_ATTEMPTS;
use crate::block::block_payload;
use crate::block::block_seq;
use crate::block::check_block;
use crate::block::is_well_formed_block;
use crate::chunks::trim_len;
use crate::chunks::trimmed;
use crate::error::TransferError;
use crate::header::FileInfo;
use crate::header::header_name;
use crate::header::parse_header;
use crate::header::same_file;

verus! {

/// The receiver's position in a transfer. The machine is driven by a
/// loop outside the library: the driver reads the serial stream, hands
/// each complete frame (or a timeout) to [`rx_step`], sends the reply
/// byte it returns, and appends the emitted bytes to the output.
pub enum RxState {
    /// Repeating the "ready, use checksum mode C" byte until the first
    /// block arrives.
    Handshake { attempts_left: u8 },
    /// Awaiting the header block that opens the batch.
    Header { retries_left: u8 },
    /// Streaming data blocks of the named file.
    Data { info: FileInfo, expected_seq: u8, received: u64, retries_left: u8 },
    /// The end marker was acknowledged; awaiting the end-of-batch header.
    FinalHeader { info: FileInfo, retries_left: u8 },
    /// The transfer concluded; `None` means the batch was empty.
    Done { file: Option<FileInfo> },
    /// The transfer failed; no further frame changes this.
    Failed { err: TransferError },
}

/// One thing the driver observed: a complete inbound frame, or the
/// expiry of the current wait.
pub enum RxEvent {
    Frame(Vec<u8>),
    Timeout,
}

/// What one step of the receiver decides: the state to continue in, at
/// most one reply byte to put on the serial stream, and the payload
/// bytes delivered to the caller by this step.
pub struct RxStep {
    pub next: RxState,
    pub reply: Option<u8>,
    pub emit: Vec<u8>,
}

/// The sequence number that follows `s`, modulo 256.
pub open spec fn next_seq(s: u8) -> u8 {
    if s == 255 {
        0
    } else {
        (s + 1) as u8
    }
}

/// The sequence number that precedes `s`, modulo 256.
pub open spec fn prev_seq(s: u8) -> u8 {
    if s == 0 {
        255
    } else {
        (s - 1) as u8
    }
}

/// The byte count after an accepted block: counted against a declared
/// size, unused (and kept zero) when none was declared.
pub open spec fn received_after(size: Option<u64>, received: u64, elen: nat) -> u64 {
    match size {
        Some(sz) => (received + elen) as u64,
        None => 0,
    }
}

/// Option-wise agreement of two optional file descriptors.
pub open spec fn same_opt_file(a: Option<FileInfo>, b: Option<FileInfo>) -> bool {
    match (a, b) {
        (Option::None, Option::None) => true,
        (Option::Some(x), Option::Some(y)) => same_file(x, y),
        _ => false,
    }
}

/// Well-formedness of a receiver state: the byte count never passes a
/// declared size, stays zero without one, and a file in transfer has a
/// name.
pub open spec fn rx_state_inv(s: RxState) -> bool {
    match s {
        RxState::Data { info, received, .. } => {
            &&& match info.size {
                Some(sz) => received <= sz,
                None => received == 0,
            }
            &&& info.name@.len() > 0
        },
        _ => true,
    }
}

/// How the receiver treats a frame while it expects a header block: a
/// well-formed block numbered zero opens the batch (or, with an empty
/// name, ends it); anything else costs a retry and is answered with a
/// negative acknowledgement, until the budget is exhausted and the
/// transfer fails with `CorruptHeader`.
pub open spec fn header_frame_ok(f: Seq<u8>, retries: u8, r: RxStep) -> bool {
    if is_well_formed_block(f) && block_seq(f) == 0 {
        if header_name(block_payload(f)).len() == 0 {
            &&& r.next matches RxState::Done { file: Option::None }
            &&& r.reply == Some(ACK)
            &&& r.emit@.len() == 0
        } else {
            &&& (r.next matches RxState::Data { info, expected_seq, received, retries_left }
                && info.name@ == header_name(block_payload(f)) && (match info.size {
                Some(v) => crate::header::header_size(block_payload(f)) == Some(v as int),
                None => crate::header::header_size(block_payload(f)) is None,
            }) && expected_seq == 1 && received == 0 && retries_left == RETRY_BUDGET)
            &&& r.reply == Some(ACK)
            &&& r.emit@.len() == 0
        }
    } else {
        if retries == 0 {
            &&& r.next matches RxState::Failed { err: TransferError::CorruptHeader }
            &&& r.reply is None
            &&& r.emit@.len() == 0
        } else {
            &&& (r.next matches RxState::Header { retries_left } && retries_left == retries - 1)
            &&& r.reply == Some(NAK)
            &&& r.emit@.len() == 0
        }
    }
}

/// The receiver's transition relation: what [`rx_step`] must decide for
/// every state and event, as spec.
pub open spec fn rx_step_ok(pre: RxState, ev: RxEvent, r: RxStep) -> bool {
    match pre {
        RxState::Handshake { attempts_left } => match ev {
            RxEvent::Timeout => if attempts_left == 0 {
                &&& r.next matches RxState::Failed { err: TransferError::HandshakeTimeout }
                &&& r.reply is None
                &&& r.emit@.len() == 0
            } else {
                &&& (r.next matches RxState::Handshake { attempts_left: a } && a == attempts_left
                    - 1)
                &&& r.reply == Some(CRC_READY)
                &&& r.emit@.len() == 0
            },
            RxEvent::Frame(f) => header_frame_ok(f@, RETRY_BUDGET, r),
        },
        RxState::Header { retries_left } => match ev {
            RxEvent::Frame(f) => header_frame_ok(f@, retries_left, r),
            RxEvent::Timeout => if retries_left == 0 {
                &&& r.next matches RxState::Failed { err: TransferError::Timeout }
                &&& r.reply is None
                &&& r.emit@.len() == 0
            } else {
                &&& (r.next matches RxState::Header { retries_left: rl } && rl == retries_left - 1)
                &&& r.reply == Some(NAK)
                &&& r.emit@.len() == 0
            },
        },
        RxState::Data { info, expected_seq, received, retries_left } => match ev {
            RxEvent::Timeout => if retries_left == 0 {
                &&& r.next matches RxState::Failed { err: TransferError::Timeout }
                &&& r.reply is None
                &&& r.emit@.len() == 0
            } else {
                &&& (r.next matches RxState::Data {
                    info: i2,
                    expected_seq: e2,
                    received: c2,
                    retries_left: rl,
                } && same_file(i2, info) && e2 == expected_seq && c2 == received && rl
                    == retries_left - 1)
                &&& r.reply == Some(NAK)
                &&& r.emit@.len() == 0
            },
            RxEvent::Frame(f) => if f@.len() == 1 && f@[0] == EOT {
                &&& (r.next matches RxState::FinalHeader { info: i2, retries_left: rl }
                    && same_file(i2, info) && rl == RETRY_BUDGET)
                &&& r.reply == Some(ACK)
                &&& r.emit@.len() == 0
            } else if is_well_formed_block(f@) && block_seq(f@) == expected_seq {
                &&& r.emit@ == trimmed(block_payload(f@), info.size, received)
                &&& r.reply == Some(ACK)
                &&& (r.next matches RxState::Data {
                    info: i2,
                    expected_seq: e2,
                    received: c2,
                    retries_left: rl,
                } && same_file(i2, info) && e2 == next_seq(expected_seq) && c2 == received_after(
                    info.size,
                    received,
                    r.emit@.len(),
                ) && rl == RETRY_BUDGET)
            } else if is_well_formed_block(f@) && block_seq(f@) == prev_seq(expected_seq) {
                &&& r.reply == Some(ACK)
                &&& r.emit@.len() == 0
                &&& (r.next matches RxState::Data {
                    info: i2,
                    expected_seq: e2,
                    received: c2,
                    retries_left: rl,
                } && same_file(i2, info) && e2 == expected_seq && c2 == received && rl
                    == retries_left)
            } else {
                if retries_left == 0 {
                    &&& r.next matches RxState::Failed { err: TransferError::TransferAborted }
                    &&& r.reply is None
                    &&& r.emit@.len() == 0
                } else {
                    &&& (r.next matches RxState::Data {
                        info: i2,
                        expected_seq: e2,
                        received: c2,
                        retries_left: rl,
                    } && same_file(i2, info) && e2 == expected_seq && c2 == received && rl
                        == retries_left - 1)
                    &&& r.reply == Some(NAK)
                    &&& r.emit@.len() == 0
                }
            },
        },
        RxState::FinalHeader { info, retries_left } => match ev {
            RxEvent::Frame(f) => if is_well_formed_block(f@) && block_seq(f@) == 0 {
                if header_name(block_payload(f@)).len() == 0 {
                    &&& (r.next matches RxState::Done { file: oi } && oi matches Some(i2)
                        && same_file(i2, info))
                    &&& r.reply == Some(ACK)
                    &&& r.emit@.len() == 0
                } else {
                    // a second file in the batch is not supported: abort
                    &&& r.next matches RxState::Failed { err: TransferError::TransferAborted }
                    &&& r.reply is None
                    &&& r.emit@.len() == 0
                }
            } else {
                if retries_left == 0 {
                    &&& r.next matches RxState::Failed { err: TransferError::CorruptHeader }
                    &&& r.reply is None
                    &&& r.emit@.len() == 0
                } else {
                    &&& (r.next matches RxState::FinalHeader { info: i2, retries_left: rl }
                        && same_file(i2, info) && rl == retries_left - 1)
                    &&& r.reply == Some(NAK)
                    &&& r.emit@.len() == 0
                }
            },
            RxEvent::Timeout => if retries_left == 0 {
                &&& r.next matches RxState::Failed { err: TransferError::Timeout }
                &&& r.reply is None
                &&& r.emit@.len() == 0
            } else {
                &&& (r.next matches RxState::FinalHeader { info: i2, retries_left: rl }
                    && same_file(i2, info) && rl == retries_left - 1)
                &&& r.reply == Some(NAK)
                &&& r.emit@.len() == 0
            },
        },
        RxState::Done { file } => {
            &&& (r.next matches RxState::Done { file: oi } && same_opt_file(oi, file))
            &&& r.reply is None
            &&& r.emit@.len() == 0
        },
        RxState::Failed { err } => {
            &&& (r.next matches RxState::Failed { err: e2 } && e2 == err)
            &&& r.reply is None
            &&& r.emit@.len() == 0
        },
    }
}

/// Duplicate suppression: a data block delivered a second time under the
/// same sequence number is acknowledged again, but its payload is not
/// delivered again — each of the two steps answers with one
/// acknowledgement, and only the first emits bytes.
pub proof fn lemma_duplicate_block_suppressed(pre: RxState, f: Vec<u8>, r1: RxStep, r2: RxStep)
    requires
        pre matches RxState::Data { expected_seq, .. } && is_well_formed_block(f@) && block_seq(f@)
            == expected_seq,
        rx_step_ok(pre, RxEvent::Frame(f), r1),
        rx_step_ok(r1.next, RxEvent::Frame(f), r2),
    ensures
        r1.reply == Some(ACK),
        r2.reply == Some(ACK),
        r2.emit@.len() == 0,
{
}

/// Checksum corruption is always rejected: a frame that is not a
/// well-formed block draws exactly one negative acknowledgement and
/// delivers nothing, and the correct retransmission that follows is
/// accepted with its payload delivered, trimmed against the declared
/// size.
pub proof fn lemma_corrupt_block_rejected(
    pre: RxState,
    bad: Vec<u8>,
    good: Vec<u8>,
    r1: RxStep,
    r2: RxStep,
)
    requires
        pre matches RxState::Data { expected_seq, retries_left, .. } && retries_left > 0
            && is_well_formed_block(good@) && block_seq(good@) == expected_seq,
        !is_well_formed_block(bad@),
        !(bad@.len() == 1 && bad@[0] == EOT),
        rx_step_ok(pre, RxEvent::Frame(bad), r1),
        rx_step_ok(r1.next, RxEvent::Frame(good), r2),
    ensures
        r1.reply == Some(NAK),
        r1.emit@.len() == 0,
        r2.reply == Some(ACK),
        match pre {
            RxState::Data { info, received, .. } => r2.emit@ == trimmed(
                block_payload(good@),
                info.size,
                received,
            ),
            _ => true,
        },
{
}

/// A single corrupted payload byte — a bit flip included — is always
/// rejected: the frame that differs from a correct data block in one
/// payload position draws exactly one negative acknowledgement and
/// delivers nothing, and the correct retransmission is then accepted.
pub proof fn lemma_bit_flip_rejected(
    pre: RxState,
    good: Vec<u8>,
    bad: Vec<u8>,
    i: int,
    r1: RxStep,
    r2: RxStep,
)
    requires
        pre matches RxState::Data { expected_seq, retries_left, .. } && retries_left > 0
            && is_well_formed_block(good@) && block_seq(good@) == expected_seq,
        bad@.len() == good@.len(),
        3 <= i < good@.len() - 2,
        bad@[i] != good@[i],
        forall|j: int| 0 <= j < good@.len() && j != i ==> bad@[j] == good@[j],
        rx_step_ok(pre, RxEvent::Frame(bad), r1),
        rx_step_ok(r1.next, RxEvent::Frame(good), r2),
    ensures
        r1.reply == Some(NAK),
        r1.emit@.len() == 0,
        r2.reply == Some(ACK),
{
    crate::block::lemma_payload_corruption_rejected(good@, bad@, i);
    lemma_corrupt_block_rejected(pre, bad, good, r1, r2);
}

/// The retry budget is bounded: every corrupt frame in the data phase
/// either spends one retry (answered with a negative acknowledgement) or,
/// with the budget exhausted, ends the transfer in `TransferAborted` —
/// so a permanently corrupted block cannot loop forever.
pub proof fn lemma_retry_budget_bounds(pre: RxState, f: Vec<u8>, r: RxStep)
    requires
        pre matches RxState::Data { .. },
        !is_well_formed_block(f@),
        !(f@.len() == 1 && f@[0] == EOT),
        rx_step_ok(pre, RxEvent::Frame(f), r),
    ensures
        match pre {
            RxState::Data { retries_left: k, .. } => if k == 0 {
                r.next matches RxState::Failed { err: TransferError::TransferAborted }
            } else {
                (r.next matches RxState::Data { retries_left: rl, .. } && rl == k - 1) && r.reply
                    == Some(NAK)
            },
            _ => true,
        },
{
}

/// The receiver's first move: its initial state and the handshake byte
/// the driver must send right away.
pub fn rx_start() -> (r: (RxState, u8))
    ensures
        r.0 matches RxState::Handshake { attempts_left: a } && a == HANDSHAKE_ATTEMPTS,
        r.1 == CRC_READY,
        rx_state_inv(r.0),
{
    (RxState::Handshake { attempts_left: HANDSHAKE_ATTEMPTS }, CRC_READY)
}

/// Handles a frame received while a header block is expected.
fn header_frame_step(f: Vec<u8>, retries: u8) -> (r: RxStep)
    ensures
        header_frame_ok(f@, retries, r),
        rx_state_inv(r.next),
{
    match check_block(&f) {
        Ok((seqno, p)) => {
            if seqno == 0 {
                let info = parse_header(&p);
                if info.name.len() == 0 {
                    RxStep {
                        next: RxState::Done { file: None },
                        reply: Some(ACK),
                        emit: Vec::new(),
                    }
                } else {
                    RxStep {
                        next: RxState::Data {
                            info,
                            expected_seq: 1,
                            received: 0,
                            retries_left: RETRY_BUDGET,
                        },
                        reply: Some(ACK),
                        emit: Vec::new(),
                    }
                }
            } else {
                header_retry_step(retries)
            }
        },
        Err(_) => header_retry_step(retries),
    }
}

/// A corrupt or misnumbered header frame: spend a retry or fail.
fn header_retry_step(retries: u8) -> (r: RxStep)
    ensures
        retries == 0 ==> (r.next matches RxState::Failed { err: TransferError::CorruptHeader }),
        retries > 0 ==> (r.next matches RxState::Header { retries_left } && retries_left == retries
            - 1),
        retries == 0 ==> r.reply is None,
        retries > 0 ==> r.reply == Some(NAK),
        r.emit@.len() == 0,
        rx_state_inv(r.next),
{
    if retries == 0 {
        RxStep {
            next: RxState::Failed { err: TransferError::CorruptHeader },
            reply: None,
            emit: Vec::new(),
        }
    } else {
        RxStep {
            next: RxState::Header { retries_left: retries - 1 },
            reply: Some(NAK),
            emit: Vec::new(),
        }
    }
}

/// One step of the receiver: consumes the current state and one event,
/// and returns the state to continue in, the reply byte to send (if
/// any), and the bytes delivered to the caller by this step. The
/// decision is exactly [`rx_step_ok`].
pub fn rx_step(state: RxState, event: RxEvent) -> (r: RxStep)
    requires
        rx_state_inv(state),
    ensures
        rx_step_ok(state, event, r),
        rx_state_inv(r.next),
{
    match state {
        RxState::Handshake { attempts_left } => match event {
            RxEvent::Timeout => {
                if attempts_left == 0 {
                    RxStep {
                        next: RxState::Failed { err: TransferError::HandshakeTimeout },
                        reply: None,
                        emit: Vec::new(),
                    }
                } else {
                    RxStep {
                        next: RxState::Handshake { attempts_left: attempts_left - 1 },
                        reply: Some(CRC_READY),
                        emit: Vec::new(),
                    }
                }
            },
            RxEvent::Frame(f) => header_frame_step(f, RETRY_BUDGET),
        },
        RxState::Header { retries_left } => match event {
            RxEvent::Frame(f) => header_frame_step(f, retries_left),
            RxEvent::Timeout => {
                if retries_left == 0 {
                    RxStep {
                        next: RxState::Failed { err: TransferError::Timeout },
                        reply: None,
                        emit: Vec::new(),
                    }
                } else {
                    RxStep {
                        next: RxState::Header { retries_left: retries_left - 1 },
                        reply: Some(NAK),
                        emit: Vec::new(),
                    }
                }
            },
        },
        RxState::Data { info, expected_seq, received, retries_left } => match event {
            RxEvent::Timeout => {
                if retries_left == 0 {
                    RxStep {
                        next: RxState::Failed { err: TransferError::Timeout },
                        reply: None,
                        emit: Vec::new(),
                    }
                } else {
                    RxStep {
                        next: RxState::Data {
                            info,
                            expected_seq,
                            received,
                            retries_left: retries_left - 1,
                        },
                        reply: Some(NAK),
                        emit: Vec::new(),
                    }
                }
            },
            RxEvent::Frame(f) => {
                if f.len() == 1 && f[0] == EOT {
                    RxStep {
                        next: RxState::FinalHeader { info, retries_left: RETRY_BUDGET },
                        reply: Some(ACK),
                        emit: Vec::new(),
                    }
                } else {
                    match check_block(&f) {
                        Ok((seqno, p)) => {
                            if seqno == expected_seq {
                                let elen: usize = match info.size {
                                    None => p.len(),
                                    Some(sz) => {
                                        if received >= sz {
                                            0
                                        } else {
                                            let rem: u64 = sz - received;
                                            if (p.len() as u64) <= rem {
                                                p.len()
                                            } else {
                                                rem as usize
                                            }
                                        }
                                    },
                                };
                                let mut emit: Vec<u8> = Vec::new();
                                let mut j: usize = 0;
                                while j < elen
                                    invariant
                                        j <= elen <= p@.len(),
                                        emit@ == p@.subrange(0, j as int),
                                    decreases elen - j,
                                {
                                    emit.push(p[j]);
                                    proof {
                                        assert(p@.subrange(0, j as int + 1) =~= p@.subrange(
                                            0,
                                            j as int,
                                        ).push(p@[j as int]));
                                    }
                                    j = j + 1;
                                }
                                proof {
                                    assert(elen as nat == trim_len(p@.len(), info.size, received));
                                    assert(emit@ =~= trimmed(p@, info.size, received));
                                }
                                let new_received: u64 = match info.size {
                                    Some(_) => received + elen as u64,
                                    None => 0,
                                };
                                let nseq: u8 = if expected_seq == 255 {
                                    0
                                } else {
                                    expected_seq + 1
                                };
                                RxStep {
                                    next: RxState::Data {
                                        info,
                                        expected_seq: nseq,
                                        received: new_received,
                                        retries_left: RETRY_BUDGET,
                                    },
                                    reply: Some(ACK),
                                    emit,
                                }
                            } else {
                                let pseq: u8 = if expected_seq == 0 {
                                    255
                                } else {
                                    expected_seq - 1
                                };
                                if seqno == pseq {
                                    RxStep {
                                        next: RxState::Data {
                                            info,
                                            expected_seq,
                                            received,
                                            retries_left,
                                        },
                                        reply: Some(ACK),
                                        emit: Vec::new(),
                                    }
                                } else if retries_left == 0 {
                                    RxStep {
                                        next: RxState::Failed {
                                            err: TransferError::TransferAborted,
                                        },
                                        reply: None,
                                        emit: Vec::new(),
                                    }
                                } else {
                                    RxStep {
                                        next: RxState::Data {
                                            info,
                                            expected_seq,
                                            received,
                                            retries_left: retries_left - 1,
                                        },
                                        reply: Some(NAK),
                                        emit: Vec::new(),
                                    }
                                }
                            }
                        },
                        Err(_) => {
                            if retries_left == 0 {
                                RxStep {
                                    next: RxState::Failed { err: TransferError::TransferAborted },
                                    reply: None,
                                    emit: Vec::new(),
                                }
                            } else {
                                RxStep {
                                    next: RxState::Data {
                                        info,
                                        expected_seq,
                                        received,
                                        retries_left: retries_left - 1,
                                    },
                                    reply: Some(NAK),
                                    emit: Vec::new(),
                                }
                            }
                        },
                    }
                }
            },
        },
        RxState::FinalHeader { info, retries_left } => match event {
            RxEvent::Frame(f) => {
                match check_block(&f) {
                    Ok((seqno, p)) => {
                        if seqno == 0 {
                            let tail = parse_header(&p);
                            if tail.name.len() == 0 {
                                RxStep {
                                    next: RxState::Done { file: Some(info) },
                                    reply: Some(ACK),
                                    emit: Vec::new(),
                                }
                            } else {
                                RxStep {
                                    next: RxState::Failed { err: TransferError::TransferAborted },
                                    reply: None,
                                    emit: Vec::new(),
                                }
                            }
                        } else if retries_left == 0 {
                            RxStep {
                                next: RxState::Failed { err: TransferError::CorruptHeader },
                                reply: None,
                                emit: Vec::new(),
                            }
                        } else {
                            RxStep {
                                next: RxState::FinalHeader {
                                    info,
                                    retries_left: retries_left - 1,
                                },
                                reply: Some(NAK),
                                emit: Vec::new(),
                            }
                        }
                    },
                    Err(_) => {
                        if retries_left == 0 {
                            RxStep {
                                next: RxState::Failed { err: TransferError::CorruptHeader },
                                reply: None,
                                emit: Vec::new(),
                            }
                        } else {
                            RxStep {
                                next: RxState::FinalHeader { info, retries_left: retries_left - 1 },
                                reply: Some(NAK),
                                emit: Vec::new(),
                            }
                        }
                    },
                }
            },
            RxEvent::Timeout => {
                if retries_left == 0 {
                    RxStep {
                        next: RxState::Failed { err: TransferError::Timeout },
                        reply: None,
                        emit: Vec::new(),
                    }
                } else {
                    RxStep {
                        next: RxState::FinalHeader { info, retries_left: retries_left - 1 },
                        reply: Some(NAK),
                        emit: Vec::new(),
                    }
                }
            },
        },
        RxState::Done { file } => RxStep {
            next: RxState::Done { file },
            reply: None,
            emit: Vec::new(),
        },
        RxState::Failed { err } => RxStep {
            next: RxState::Failed { err },
            reply: None,
            emit: Vec::new(),
        },
    }
}

} // verus!
