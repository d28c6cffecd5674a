use vstd::prelude::*;

use crate::error::TransferError;

verus! {

/// The closed set of control-message types exchanged over the control
/// sub-channel. The first four carry a filename as their body; `Idle`
/// carries an empty body.
#[derive(Clone, Copy, Debug, PartialEq, Eq, Structural)]
pub enum ControlMessageType {
    /// Ask the device to send the named file.
    RequestReturn,
    /// Ask the device to accept the named file.
    RequestSend,
    /// The device confirms it will send the named file.
    Returning,
    /// The device confirms it will accept the named file.
    Accept,
    /// The device signals that no transfer is in progress.
    Idle,
}

/// The wire byte of each control-message type.
pub open spec fn spec_type_byte(t: ControlMessageType) -> u8 {
    match t {
        ControlMessageType::RequestReturn => 1,
        ControlMessageType::RequestSend => 2,
        ControlMessageType::Returning => 3,
        ControlMessageType::Accept => 4,
        ControlMessageType::Idle => 5,
    }
}

/// The control-message type a wire byte stands for, if any.
pub open spec fn spec_byte_type(b: u8) -> Option<ControlMessageType> {
    if b == 1 {
        Some(ControlMessageType::RequestReturn)
    } else if b == 2 {
        Some(ControlMessageType::RequestSend)
    } else if b == 3 {
        Some(ControlMessageType::Returning)
    } else if b == 4 {
        Some(ControlMessageType::Accept)
    } else if b == 5 {
        Some(ControlMessageType::Idle)
    } else {
        None
    }
}

/// True when a frame decodes as a control message: it has a type byte and
/// that byte is one of the known types.
pub open spec fn is_ctl_frame(f: Seq<u8>) -> bool {
    f.len() >= 1 && spec_byte_type(f[0]) is Some
}

#[verifier::when_used_as_spec(spec_type_byte)]
pub fn type_byte(t: ControlMessageType) -> (r: u8)
    ensures
        r == spec_type_byte(t),
{
    match t {
        ControlMessageType::RequestReturn => 1,
        ControlMessageType::RequestSend => 2,
        ControlMessageType::Returning => 3,
        ControlMessageType::Accept => 4,
        ControlMessageType::Idle => 5,
    }
}

/// A control message: a type and the raw bytes of its body. The body is
/// opaque to this layer; callers interpret it according to the type.
pub struct RawControlMessage {
    pub msg_type: ControlMessageType,
    pub body: Vec<u8>,
}

impl RawControlMessage {
    /// Returns the body when the reply has the expected type, and
    /// `UnexpectedMessageType` otherwise.
    pub fn expect_ok(self, expected: ControlMessageType) -> (r: Result<Vec<u8>, TransferError>)
        ensures
            self.msg_type == expected ==> (r matches Ok(b) && b@ == self.body@),
            self.msg_type != expected ==> r == Err::<Vec<u8>, TransferError>(
                TransferError::UnexpectedMessageType,
            ),
    {
        if self.msg_type == expected {
            Ok(self.body)
        } else {
            Err(TransferError::UnexpectedMessageType)
        }
    }
}

/// Serializes a control message as one frame: the type byte followed by
/// the body bytes.
pub fn encode_ctl_message(msg: &RawControlMessage) -> (r: Vec<u8>)
    ensures
        r@ == seq![spec_type_byte(msg.msg_type)] + msg.body@,
{
    let mut r: Vec<u8> = Vec::new();
    r.push(type_byte(msg.msg_type));
    let mut i: usize = 0;
    while i < msg.body.len()
        invariant
            i <= msg.body@.len(),
            r@ == seq![spec_type_byte(msg.msg_type)] + msg.body@.subrange(0, i as int),
        decreases msg.body@.len() - i,
    {
        r.push(msg.body[i]);
        proof {
            assert(seq![spec_type_byte(msg.msg_type)] + msg.body@.subrange(0, i as int + 1)
                =~= (seq![spec_type_byte(msg.msg_type)] + msg.body@.subrange(0, i as int)).push(
                    msg.body@[i as int],
                ));
        }
        i = i + 1;
    }
    assert(msg.body@.subrange(0, msg.body@.len() as int) =~= msg.body@);
    r
}

/// Parses a frame as a control message: the first byte must be a known
/// type byte; the rest is the body. Returns `None` for an empty frame or
/// an unknown type byte — such a frame belongs to the serial stream.
pub fn decode_ctl_message(frame: &Vec<u8>) -> (r: Option<RawControlMessage>)
    ensures
        r is Some <==> is_ctl_frame(frame@),
        r matches Some(m) ==> spec_byte_type(frame@[0]) == Some(m.msg_type) && m.body@ == frame@
            .subrange(1, frame@.len() as int),
{
    if frame.len() == 0 {
        return None;
    }
    let b: u8 = frame[0];
    let msg_type: ControlMessageType = if b == 1 {
        ControlMessageType::RequestReturn
    } else if b == 2 {
        ControlMessageType::RequestSend
    } else if b == 3 {
        ControlMessageType::Returning
    } else if b == 4 {
        ControlMessageType::Accept
    } else if b == 5 {
        ControlMessageType::Idle
    } else {
        return None;
    };
    let mut body: Vec<u8> = Vec::new();
    let mut i: usize = 1;
    while i < frame.len()
        invariant
            1 <= i <= frame@.len(),
            body@ == frame@.subrange(1, i as int),
        decreases frame@.len() - i,
    {
        body.push(frame[i]);
        proof {
            assert(frame@.subrange(1, i as int + 1) =~= frame@.subrange(1, i as int).push(
                frame@[i as int],
            ));
        }
        i = i + 1;
    }
    Some(RawControlMessage { msg_type, body })
}

/// Compares two byte vectors for equal contents.
pub fn bytes_eq(a: &Vec<u8>, b: &Vec<u8>) -> (r: bool)
    ensures
        r <==> a@ == b@,
{
    if a.len() != b.len() {
        return false;
    }
    let mut i: usize = 0;
    while i < a.len()
        invariant
            i <= a@.len(),
            a@.len() == b@.len(),
            forall|j: int| 0 <= j < i ==> a@[j] == b@[j],
        decreases a@.len() - i,
    {
        if a[i] != b[i] {
            return false;
        }
        i = i + 1;
    }
    proof {
        assert(a@ =~= b@);
    }
    true
}

/// A reusable receive buffer for control replies: it owns the bytes of
/// the most recently received reply frame, so one allocation backs a
/// whole negotiation. Storing a new frame replaces the previous one.
pub struct CtlBuffer {
    pub bytes: Vec<u8>,
}

impl Default for CtlBuffer {
    /// An empty buffer, backing no message yet.
    fn default() -> (r: Self)
        ensures
            r.bytes@ == Seq::<u8>::empty(),
    {
        CtlBuffer { bytes: Vec::new() }
    }
}

impl CtlBuffer {
    /// Replaces the buffered frame with a newly received one.
    pub fn store(&mut self, frame: Vec<u8>)
        ensures
            final(self).bytes@ == frame@,
    {
        self.bytes = frame;
    }

    /// Parses the buffered frame as a control message.
    pub fn message(&self) -> (r: Option<RawControlMessage>)
        ensures
            r is Some <==> is_ctl_frame(self.bytes@),
            r matches Some(m) ==> spec_byte_type(self.bytes@[0]) == Some(m.msg_type) && m.body@
                == self.bytes@.subrange(1, self.bytes@.len() as int),
    {
        decode_ctl_message(&self.bytes)
    }
}

} // verus!
