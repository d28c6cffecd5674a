use vstd::prelude::*;

verus! {

/// Failures surfaced by the transport core.
///
/// The variants identify the phase in which an operation failed:
/// control-channel negotiation (`Timeout`, `UnexpectedMessageType`,
/// `FilenameMismatch`, `LinkError`), transfer handshake
/// (`HandshakeTimeout`), header receipt (`CorruptHeader`), and block
/// transfer (`CorruptBlock`, `TransferAborted`).
#[derive(Clone, Copy, Debug, PartialEq, Eq, Structural)]
pub enum TransferError {
    /// The underlying frame write or read failed; fatal to the operation.
    LinkError,
    /// No expected frame arrived within the configured window.
    Timeout,
    /// A control reply carried a type other than the expected one.
    UnexpectedMessageType,
    /// A control reply echoed a filename other than the one requested.
    FilenameMismatch,
    /// The header block was still corrupt after the retry budget ran out.
    CorruptHeader,
    /// A block failed its framing or checksum validation.
    CorruptBlock,
    /// A data block was still corrupt after the retry budget ran out.
    TransferAborted,
    /// The two ends never synchronised within the bounded handshake window.
    HandshakeTimeout,
}

} // verus!
