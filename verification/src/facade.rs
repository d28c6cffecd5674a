use vstd::prelude::*;

use crate::ctl::ControlMessageType;
use crate::ctl::RawControlMessage;
use crate::ctl::bytes_eq;
use crate::ctl::encode_ctl_message;
use crate::ctl::spec_type_byte;
use crate::error::TransferError;

verus! {

/// The frame that asks the device to send the named file back.
pub fn request_return_frame(filename: Vec<u8>) -> (r: Vec<u8>)
    ensures
        r@ == seq![spec_type_byte(ControlMessageType::RequestReturn)] + filename@,
{
    encode_ctl_message(
        &RawControlMessage { msg_type: ControlMessageType::RequestReturn, body: filename },
    )
}

/// The frame that asks the device to accept the named file.
pub fn request_send_frame(filename: Vec<u8>) -> (r: Vec<u8>)
    ensures
        r@ == seq![spec_type_byte(ControlMessageType::RequestSend)] + filename@,
{
    encode_ctl_message(
        &RawControlMessage { msg_type: ControlMessageType::RequestSend, body: filename },
    )
}

/// Checks a control reply against the expected type and the filename the
/// request named. A reply of another type is `UnexpectedMessageType`; a
/// reply of the right type that echoes a different name answers a stale
/// or different request, and proceeding on it would act on the wrong
/// file, so it is `FilenameMismatch`.
pub fn check_echo_reply(
    reply: RawControlMessage,
    expected: ControlMessageType,
    filename: &Vec<u8>,
) -> (r: Result<(), TransferError>)
    ensures
        r is Ok <==> (reply.msg_type == expected && reply.body@ == filename@),
        reply.msg_type != expected ==> r == Err::<(), TransferError>(
            TransferError::UnexpectedMessageType,
        ),
        reply.msg_type == expected && reply.body@ != filename@ ==> r == Err::<(), TransferError>(
            TransferError::FilenameMismatch,
        ),
{
    match reply.expect_ok(expected) {
        Ok(body) => {
            if bytes_eq(&body, filename) {
                Ok(())
            } else {
                Err(TransferError::FilenameMismatch)
            }
        },
        Err(e) => Err(e),
    }
}

/// Checks the reply that opens a "return this file" transfer: the
/// device must confirm with `Returning` and echo the same name.
pub fn check_return_reply(reply: RawControlMessage, filename: &Vec<u8>) -> (r: Result<
    (),
    TransferError,
>)
    ensures
        r is Ok <==> (reply.msg_type == ControlMessageType::Returning && reply.body@ == filename@),
        reply.msg_type != ControlMessageType::Returning ==> r == Err::<(), TransferError>(
            TransferError::UnexpectedMessageType,
        ),
{
    check_echo_reply(reply, ControlMessageType::Returning, filename)
}

/// Checks the reply that opens a "send this file" transfer: the device
/// must confirm with `Accept` and echo the same name.
pub fn check_send_reply(reply: RawControlMessage, filename: &Vec<u8>) -> (r: Result<
    (),
    TransferError,
>)
    ensures
        r is Ok <==> (reply.msg_type == ControlMessageType::Accept && reply.body@ == filename@),
        reply.msg_type != ControlMessageType::Accept ==> r == Err::<(), TransferError>(
            TransferError::UnexpectedMessageType,
        ),
{
    check_echo_reply(reply, ControlMessageType::Accept, filename)
}

/// Checks the control message that concludes a transfer: the device
/// must have returned to idle.
pub fn check_idle_reply(reply: RawControlMessage) -> (r: Result<(), TransferError>)
    ensures
        r is Ok <==> reply.msg_type == ControlMessageType::Idle,
        r matches Err(e) ==> e == TransferError::UnexpectedMessageType,
{
    match reply.expect_ok(ControlMessageType::Idle) {
        Ok(_) => Ok(()),
        Err(e) => Err(e),
    }
}

} // verus!
