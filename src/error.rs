use vstd::prelude::*;

use crate::double::any_nan;
use crate::msg::{EgmSensor, FloatLeaves};

verus! {

/// Error indicating that a message was only partially transmitted.
#[derive(Clone, Copy, Debug, PartialEq, Eq, Structural)]
pub struct IncompleteTransmissionError {
    /// The number of bytes that were transmitted.
    pub transferred: usize,
    /// The total number of bytes that should have been transmitted.
    pub total: usize,
}

/// Check if a whole buffer was successfully transferred.
pub fn check_transfer(transferred: usize, total: usize) -> (r: Result<(), IncompleteTransmissionError>)
    ensures
        transferred == total <==> r is Ok,
        transferred != total ==> r == Err::<(), IncompleteTransmissionError>(
            IncompleteTransmissionError { transferred, total },
        ),
{
    if transferred == total {
        Ok(())
    } else {
        Err(IncompleteTransmissionError { transferred, total })
    }
}

/// Makes `std::io::Error` known to the verifier, as an opaque value that the
/// send and receive errors carry.
#[verifier::external_type_specification]
#[verifier::external_body]
pub struct ExIoError(std::io::Error);

/// Makes `prost::DecodeError` known to the verifier, as an opaque value that
/// the receive error carries.
#[verifier::external_type_specification]
#[verifier::external_body]
pub struct ExDecodeError(prost::DecodeError);

/// Makes `prost::EncodeError` known to the verifier, as an opaque value that
/// the send error carries.
#[verifier::external_type_specification]
#[verifier::external_body]
pub struct ExEncodeError(prost::EncodeError);

/// Error that may occur when receiving a message.
#[derive(Debug)]
pub enum ReceiveError {
    /// The transport failed.
    Io(std::io::Error),
    /// The datagram did not hold a well-formed message.
    Decode(prost::DecodeError),
}

/// Error that may occur when sending a message.
#[derive(Debug)]
pub enum SendError {
    /// The message failed validation.
    InvalidMessage(InvalidMessageError),
    /// The transport failed.
    Io(std::io::Error),
    /// The message could not be encoded.
    Encode(prost::EncodeError),
    /// Fewer bytes were sent than the encoded message holds.
    IncompleteTransmission(IncompleteTransmissionError),
}

/// Error indicating that a message is invalid.
#[derive(Clone, Copy, Debug, PartialEq, Eq, Structural)]
pub enum InvalidMessageError {
    /// The message being sent contains one or more NaN values.
    MessageHasNan,
}

impl InvalidMessageError {
    /// Check if an [`EgmSensor`] is invalid.
    pub fn check_sensor_msg(message: &EgmSensor) -> (r: Result<(), InvalidMessageError>)
        ensures
            r is Ok <==> !any_nan(message.float_leaves()),
            r is Err ==> r == Err::<(), InvalidMessageError>(InvalidMessageError::MessageHasNan),
    {
        if message.has_nan() {
            Err(InvalidMessageError::MessageHasNan)
        } else {
            Ok(())
        }
    }
}

impl From<std::io::Error> for ReceiveError {
    fn from(other: std::io::Error) -> (r: ReceiveError) {
        ReceiveError::Io(other)
    }
}

impl vstd::std_specs::convert::FromSpecImpl<std::io::Error> for ReceiveError {
    open spec fn obeys_from_spec() -> bool {
        true
    }

    open spec fn from_spec(other: std::io::Error) -> ReceiveError {
        ReceiveError::Io(other)
    }
}

impl From<prost::DecodeError> for ReceiveError {
    fn from(other: prost::DecodeError) -> (r: ReceiveError) {
        ReceiveError::Decode(other)
    }
}

impl vstd::std_specs::convert::FromSpecImpl<prost::DecodeError> for ReceiveError {
    open spec fn obeys_from_spec() -> bool {
        true
    }

    open spec fn from_spec(other: prost::DecodeError) -> ReceiveError {
        ReceiveError::Decode(other)
    }
}

impl From<InvalidMessageError> for SendError {
    fn from(other: InvalidMessageError) -> (r: SendError) {
        SendError::InvalidMessage(other)
    }
}

impl vstd::std_specs::convert::FromSpecImpl<InvalidMessageError> for SendError {
    open spec fn obeys_from_spec() -> bool {
        true
    }

    open spec fn from_spec(other: InvalidMessageError) -> SendError {
        SendError::InvalidMessage(other)
    }
}

impl From<std::io::Error> for SendError {
    fn from(other: std::io::Error) -> (r: SendError) {
        SendError::Io(other)
    }
}

impl vstd::std_specs::convert::FromSpecImpl<std::io::Error> for SendError {
    open spec fn obeys_from_spec() -> bool {
        true
    }

    open spec fn from_spec(other: std::io::Error) -> SendError {
        SendError::Io(other)
    }
}

impl From<prost::EncodeError> for SendError {
    fn from(other: prost::EncodeError) -> (r: SendError) {
        SendError::Encode(other)
    }
}

impl vstd::std_specs::convert::FromSpecImpl<prost::EncodeError> for SendError {
    open spec fn obeys_from_spec() -> bool {
        true
    }

    open spec fn from_spec(other: prost::EncodeError) -> SendError {
        SendError::Encode(other)
    }
}

impl From<IncompleteTransmissionError> for SendError {
    fn from(other: IncompleteTransmissionError) -> (r: SendError) {
        SendError::IncompleteTransmission(other)
    }
}

impl vstd::std_specs::convert::FromSpecImpl<IncompleteTransmissionError> for SendError {
    open spec fn obeys_from_spec() -> bool {
        true
    }

    open spec fn from_spec(other: IncompleteTransmissionError) -> SendError {
        SendError::IncompleteTransmission(other)
    }
}

} // verus!
