//! The error taxonomies: construction errors, decoding errors, and the
//! decoded bus error of an error frame.
use vstd::prelude::*;
use vstd::std_specs::convert::TryFromSpecImpl;
use std::convert::TryFrom;
use crate::canid::{word_is_error, CAN_ERR_MASK};
use crate::frame::{Frame, FrameView};

verus! {

/// Error that occurs when creating CAN frames
#[derive(Debug, Copy, Clone, PartialEq, Eq, Structural)]
pub enum ConstructionError {
    /// CAN ID was outside the range of valid IDs
    IDTooLarge,
    /// More than 8 bytes of payload data were passed in
    TooMuchData,
}

/// Error decoding a `CanError` from a frame.
#[derive(Debug, Copy, Clone, PartialEq, Eq, Structural)]
pub enum DecodingError {
    /// The supplied frame did not have the error bit set.
    NotAnError,
    /// The error type is not known and cannot be decoded.
    UnknownErrorType(u32),
    /// The error type indicated a need for additional information as `data`,
    /// but the `data` field was not long enough.
    NotEnoughData(u8),
    /// The error type `ControllerProblem` was indicated and additional
    /// information found, but not recognized.
    InvalidControllerProblem,
    /// The type of the ProtocolViolation was not valid
    InvalidViolationType,
    /// A location was specified for a ProtocolViolation, but the location
    /// was not valid.
    InvalidLocation,
    /// The supplied transceiver error was invalid.
    InvalidTransceiverError,
}

/// Why a transfer on a channel gave no frame.
#[derive(Debug, Copy, Clone, PartialEq, Eq, Structural)]
pub enum SocketError {
    /// A non-blocking channel could not complete the transfer right now.
    /// This is the signal to poll again, not a failure.
    WouldBlock,
    /// The transport moved this many bytes, not one whole frame.
    Truncated(usize),
    /// The transport failed, with this operating system error code.
    IOError(i32),
}

/// What went wrong in the controller.
#[derive(Debug, Copy, Clone, PartialEq, Eq, Structural)]
pub enum ControllerProblem {
    /// unspecified
    Unspecified,
    /// RX buffer overflow
    ReceiveBufferOverflow,
    /// TX buffer overflow
    TransmitBufferOverflow,
    /// reached warning level for RX errors
    ReceiveErrorWarning,
    /// reached warning level for TX errors
    TransmitErrorWarning,
    /// reached error passive status RX
    ReceiveErrorPassive,
    /// reached error passive status TX
    TransmitErrorPassive,
    /// recovered to error active state
    Active,
}

impl ControllerProblem {
    /// The meaning of sub-code `val`; a value outside the table has none.
    pub open spec fn decode(val: u8) -> Result<ControllerProblem, DecodingError> {
        if val == 0x00 {
            Ok(ControllerProblem::Unspecified)
        } else if val == 0x01 {
            Ok(ControllerProblem::ReceiveBufferOverflow)
        } else if val == 0x02 {
            Ok(ControllerProblem::TransmitBufferOverflow)
        } else if val == 0x04 {
            Ok(ControllerProblem::ReceiveErrorWarning)
        } else if val == 0x08 {
            Ok(ControllerProblem::TransmitErrorWarning)
        } else if val == 0x10 {
            Ok(ControllerProblem::ReceiveErrorPassive)
        } else if val == 0x20 {
            Ok(ControllerProblem::TransmitErrorPassive)
        } else if val == 0x40 {
            Ok(ControllerProblem::Active)
        } else {
            Err(DecodingError::InvalidControllerProblem)
        }
    }
}

impl TryFrom<u8> for ControllerProblem {
    type Error = DecodingError;

    /// Looks `val` up in the table of controller problems.
    fn try_from(val: u8) -> (r: Result<ControllerProblem, DecodingError>)
        ensures
            r == ControllerProblem::decode(val),
    {
        Ok(
            match val {
                0x00 => ControllerProblem::Unspecified,
                0x01 => ControllerProblem::ReceiveBufferOverflow,
                0x02 => ControllerProblem::TransmitBufferOverflow,
                0x04 => ControllerProblem::ReceiveErrorWarning,
                0x08 => ControllerProblem::TransmitErrorWarning,
                0x10 => ControllerProblem::ReceiveErrorPassive,
                0x20 => ControllerProblem::TransmitErrorPassive,
                0x40 => ControllerProblem::Active,
                _ => return Err(DecodingError::InvalidControllerProblem),
            },
        )
    }
}

impl TryFromSpecImpl<u8> for ControllerProblem {
    open spec fn obeys_try_from_spec() -> bool {
        true
    }

    open spec fn try_from_spec(val: u8) -> Result<ControllerProblem, DecodingError> {
        ControllerProblem::decode(val)
    }
}

/// The kind of a protocol violation.
#[derive(Debug, Copy, Clone, PartialEq, Eq, Structural)]
pub enum ViolationType {
    /// Unspecified Violation
    Unspecified,
    /// Single Bit Error
    SingleBitError,
    /// Frame formatting error
    FrameFormatError,
    /// Bit stuffing error
    BitStuffingError,
    /// A dominant bit was sent, but not received
    UnableToSendDominantBit,
    /// A recessive bit was sent, but not received
    UnableToSendRecessiveBit,
    /// Bus overloaded
    BusOverload,
    /// Bus is active (again)
    Active,
    /// Transmission Error
    TransmissionError,
}

impl ViolationType {
    /// The meaning of sub-code `val`; a value outside the table has none.
    pub open spec fn decode(val: u8) -> Result<ViolationType, DecodingError> {
        if val == 0x00 {
            Ok(ViolationType::Unspecified)
        } else if val == 0x01 {
            Ok(ViolationType::SingleBitError)
        } else if val == 0x02 {
            Ok(ViolationType::FrameFormatError)
        } else if val == 0x04 {
            Ok(ViolationType::BitStuffingError)
        } else if val == 0x08 {
            Ok(ViolationType::UnableToSendDominantBit)
        } else if val == 0x10 {
            Ok(ViolationType::UnableToSendRecessiveBit)
        } else if val == 0x20 {
            Ok(ViolationType::BusOverload)
        } else if val == 0x40 {
            Ok(ViolationType::Active)
        } else if val == 0x80 {
            Ok(ViolationType::TransmissionError)
        } else {
            Err(DecodingError::InvalidViolationType)
        }
    }
}

impl TryFrom<u8> for ViolationType {
    type Error = DecodingError;

    /// Looks `val` up in the table of violation types.
    fn try_from(val: u8) -> (r: Result<ViolationType, DecodingError>)
        ensures
            r == ViolationType::decode(val),
    {
        Ok(
            match val {
                0x00 => ViolationType::Unspecified,
                0x01 => ViolationType::SingleBitError,
                0x02 => ViolationType::FrameFormatError,
                0x04 => ViolationType::BitStuffingError,
                0x08 => ViolationType::UnableToSendDominantBit,
                0x10 => ViolationType::UnableToSendRecessiveBit,
                0x20 => ViolationType::BusOverload,
                0x40 => ViolationType::Active,
                0x80 => ViolationType::TransmissionError,
                _ => return Err(DecodingError::InvalidViolationType),
            },
        )
    }
}

impl TryFromSpecImpl<u8> for ViolationType {
    open spec fn obeys_try_from_spec() -> bool {
        true
    }

    open spec fn try_from_spec(val: u8) -> Result<ViolationType, DecodingError> {
        ViolationType::decode(val)
    }
}

/// Location
///
/// Describes where inside a received frame an error occurred.
#[derive(Debug, Copy, Clone, PartialEq, Eq, Structural)]
pub enum Location {
    /// Unspecified
    Unspecified,
    /// Start of frame.
    StartOfFrame,
    /// ID bits 28-21 (SFF: 10-3)
    Id2821,
    /// ID bits 20-18 (SFF: 2-0)
    Id2018,
    /// substitute RTR (SFF: RTR)
    SubstituteRtr,
    /// extension of identifier
    IdentifierExtension,
    /// ID bits 17-13
    Id1713,
    /// ID bits 12-5
    Id1205,
    /// ID bits 4-0
    Id0400,
    /// RTR bit
    Rtr,
    /// Reserved bit 1
    Reserved1,
    /// Reserved bit 0
    Reserved0,
    /// Data length
    DataLengthCode,
    /// Data section
    DataSection,
    /// CRC sequence
    CrcSequence,
    /// CRC delimiter
    CrcDelimiter,
    /// ACK slot
    AckSlot,
    /// ACK delimiter
    AckDelimiter,
    /// End-of-frame
    EndOfFrame,
    /// Intermission (between frames)
    Intermission,
}

impl Location {
    /// The meaning of sub-code `val`; a value outside the table has none.
    pub open spec fn decode(val: u8) -> Result<Location, DecodingError> {
        if val == 0x00 {
            Ok(Location::Unspecified)
        } else if val == 0x03 {
            Ok(Location::StartOfFrame)
        } else if val == 0x02 {
            Ok(Location::Id2821)
        } else if val == 0x06 {
            Ok(Location::Id2018)
        } else if val == 0x04 {
            Ok(Location::SubstituteRtr)
        } else if val == 0x05 {
            Ok(Location::IdentifierExtension)
        } else if val == 0x07 {
            Ok(Location::Id1713)
        } else if val == 0x0F {
            Ok(Location::Id1205)
        } else if val == 0x0E {
            Ok(Location::Id0400)
        } else if val == 0x0C {
            Ok(Location::Rtr)
        } else if val == 0x0D {
            Ok(Location::Reserved1)
        } else if val == 0x09 {
            Ok(Location::Reserved0)
        } else if val == 0x0B {
            Ok(Location::DataLengthCode)
        } else if val == 0x0A {
            Ok(Location::DataSection)
        } else if val == 0x08 {
            Ok(Location::CrcSequence)
        } else if val == 0x18 {
            Ok(Location::CrcDelimiter)
        } else if val == 0x19 {
            Ok(Location::AckSlot)
        } else if val == 0x1B {
            Ok(Location::AckDelimiter)
        } else if val == 0x1A {
            Ok(Location::EndOfFrame)
        } else if val == 0x12 {
            Ok(Location::Intermission)
        } else {
            Err(DecodingError::InvalidLocation)
        }
    }
}

impl TryFrom<u8> for Location {
    type Error = DecodingError;

    /// Looks `val` up in the table of frame locations.
    fn try_from(val: u8) -> (r: Result<Location, DecodingError>)
        ensures
            r == Location::decode(val),
    {
        Ok(
            match val {
                0x00 => Location::Unspecified,
                0x03 => Location::StartOfFrame,
                0x02 => Location::Id2821,
                0x06 => Location::Id2018,
                0x04 => Location::SubstituteRtr,
                0x05 => Location::IdentifierExtension,
                0x07 => Location::Id1713,
                0x0F => Location::Id1205,
                0x0E => Location::Id0400,
                0x0C => Location::Rtr,
                0x0D => Location::Reserved1,
                0x09 => Location::Reserved0,
                0x0B => Location::DataLengthCode,
                0x0A => Location::DataSection,
                0x08 => Location::CrcSequence,
                0x18 => Location::CrcDelimiter,
                0x19 => Location::AckSlot,
                0x1B => Location::AckDelimiter,
                0x1A => Location::EndOfFrame,
                0x12 => Location::Intermission,
                _ => return Err(DecodingError::InvalidLocation),
            },
        )
    }
}

impl TryFromSpecImpl<u8> for Location {
    open spec fn obeys_try_from_spec() -> bool {
        true
    }

    open spec fn try_from_spec(val: u8) -> Result<Location, DecodingError> {
        Location::decode(val)
    }
}

/// What the transceiver reports about the bus wires.
#[derive(Debug, Copy, Clone, PartialEq, Eq, Structural)]
pub enum TransceiverError {
    /// unspecified
    Unspecified,
    /// CAN-high wire is not connected
    CanHighNoWire,
    /// CAN-high wire is shorted to the battery voltage
    CanHighShortToBat,
    /// CAN-high wire is shorted to the supply voltage
    CanHighShortToVcc,
    /// CAN-high wire is shorted to ground
    CanHighShortToGnd,
    /// CAN-low wire is not connected
    CanLowNoWire,
    /// CAN-low wire is shorted to the battery voltage
    CanLowShortToBat,
    /// CAN-low wire is shorted to the supply voltage
    CanLowShortToVcc,
    /// CAN-low wire is shorted to ground
    CanLowShortToGnd,
    /// CAN-low wire is shorted to CAN-high
    CanLowShortToCanHigh,
}

impl TransceiverError {
    /// The meaning of sub-code `val`; a value outside the table has none.
    pub open spec fn decode(val: u8) -> Result<TransceiverError, DecodingError> {
        if val == 0x00 {
            Ok(TransceiverError::Unspecified)
        } else if val == 0x04 {
            Ok(TransceiverError::CanHighNoWire)
        } else if val == 0x05 {
            Ok(TransceiverError::CanHighShortToBat)
        } else if val == 0x06 {
            Ok(TransceiverError::CanHighShortToVcc)
        } else if val == 0x07 {
            Ok(TransceiverError::CanHighShortToGnd)
        } else if val == 0x40 {
            Ok(TransceiverError::CanLowNoWire)
        } else if val == 0x50 {
            Ok(TransceiverError::CanLowShortToBat)
        } else if val == 0x60 {
            Ok(TransceiverError::CanLowShortToVcc)
        } else if val == 0x70 {
            Ok(TransceiverError::CanLowShortToGnd)
        } else if val == 0x80 {
            Ok(TransceiverError::CanLowShortToCanHigh)
        } else {
            Err(DecodingError::InvalidTransceiverError)
        }
    }
}

impl TryFrom<u8> for TransceiverError {
    type Error = DecodingError;

    /// Looks `val` up in the table of transceiver errors.
    fn try_from(val: u8) -> (r: Result<TransceiverError, DecodingError>)
        ensures
            r == TransceiverError::decode(val),
    {
        Ok(
            match val {
                0x00 => TransceiverError::Unspecified,
                0x04 => TransceiverError::CanHighNoWire,
                0x05 => TransceiverError::CanHighShortToBat,
                0x06 => TransceiverError::CanHighShortToVcc,
                0x07 => TransceiverError::CanHighShortToGnd,
                0x40 => TransceiverError::CanLowNoWire,
                0x50 => TransceiverError::CanLowShortToBat,
                0x60 => TransceiverError::CanLowShortToVcc,
                0x70 => TransceiverError::CanLowShortToGnd,
                0x80 => TransceiverError::CanLowShortToCanHigh,
                _ => return Err(DecodingError::InvalidTransceiverError),
            },
        )
    }
}

impl TryFromSpecImpl<u8> for TransceiverError {
    open spec fn obeys_try_from_spec() -> bool {
        true
    }

    open spec fn try_from_spec(val: u8) -> Result<TransceiverError, DecodingError> {
        TransceiverError::decode(val)
    }
}

/// The decoded meaning of an error frame.
#[derive(Debug, Copy, Clone, PartialEq, Eq, Structural)]
pub enum CanError {
    /// TX timeout (by netdevice driver)
    TransmitTimeout,
    /// Arbitration was lost. Contains the number after which arbitration was
    /// lost or 0 if unspecified
    LostArbitration(u8),
    /// Controller problem, see `ControllerProblem`
    ControllerProblem(ControllerProblem),
    /// Protocol violation at the specified `Location`.
    ProtocolViolation {
        /// what was violated
        vtype: ViolationType,
        /// where in the frame
        location: Location,
    },
    /// Transceiver Error.
    TransceiverError,
    /// No ACK received for current CAN frame.
    NoAck,
    /// Bus off (due to too many detected errors)
    BusOff,
    /// Bus error (due to too many detected errors)
    BusError,
    /// The bus has been restarted
    Restarted,
    /// Unknown, possibly invalid, error
    Unknown(u32),
}


/// Byte `idx` of the payload, or `NotEnoughData(idx)` where the payload is
/// too short to hold it.
pub open spec fn payload_byte(frame: FrameView, idx: u8) -> Result<u8, DecodingError> {
    if idx < frame.payload_len() {
        Ok(frame.data[idx as int])
    } else {
        Err(DecodingError::NotEnoughData(idx))
    }
}

/// The controller problem that payload byte 1 names.
pub open spec fn decode_controller_problem(frame: FrameView) -> Result<CanError, DecodingError> {
    match payload_byte(frame, 1) {
        Err(e) => Err(e),
        Ok(b) => match ControllerProblem::decode(b) {
            Err(e) => Err(e),
            Ok(p) => Ok(CanError::ControllerProblem(p)),
        },
    }
}

/// The protocol violation that payload bytes 2 (kind) and 3 (location)
/// name. The kind is read and judged before the location.
pub open spec fn decode_protocol_violation(frame: FrameView) -> Result<CanError, DecodingError> {
    match payload_byte(frame, 2) {
        Err(e) => Err(e),
        Ok(t) => match ViolationType::decode(t) {
            Err(e) => Err(e),
            Ok(vtype) => match payload_byte(frame, 3) {
                Err(e) => Err(e),
                Ok(l) => match Location::decode(l) {
                    Err(e) => Err(e),
                    Ok(location) => Ok(CanError::ProtocolViolation { vtype, location }),
                },
            },
        },
    }
}

/// What a frame means as an error report. A frame without the
/// error flag is no error; otherwise the 29 error class bits select the
/// class by their exact value, and any other value is unknown.
pub open spec fn decode_error(frame: FrameView) -> Result<CanError, DecodingError> {
    let class = frame.id & CAN_ERR_MASK;
    if !word_is_error(frame.id) {
        Err(DecodingError::NotAnError)
    } else if class == 0x0000_0001 {
        Ok(CanError::TransmitTimeout)
    } else if class == 0x0000_0002 {
        match payload_byte(frame, 0) {
            Err(e) => Err(e),
            Ok(b) => Ok(CanError::LostArbitration(b)),
        }
    } else if class == 0x0000_0004 {
        decode_controller_problem(frame)
    } else if class == 0x0000_0008 {
        decode_protocol_violation(frame)
    } else if class == 0x0000_0010 {
        Ok(CanError::TransceiverError)
    } else if class == 0x0000_0020 {
        Ok(CanError::NoAck)
    } else if class == 0x0000_0040 {
        Ok(CanError::BusOff)
    } else if class == 0x0000_0080 {
        Ok(CanError::BusError)
    } else if class == 0x0000_0100 {
        Ok(CanError::Restarted)
    } else {
        Err(DecodingError::UnknownErrorType(class))
    }
}

/// Helper function to retrieve a specific byte of frame data or returning an
/// `Err(..)` otherwise.
pub fn get_data(frame: &Frame, idx: u8) -> (r: Result<u8, DecodingError>)
    ensures
        r == payload_byte(frame@, idx),
{
    let data = frame.data();
    proof {
        frame.lemma_view_shape();
    }
    if (idx as usize) < data.len() {
        assert(data@[idx as int] == frame@.data[idx as int]);
        Ok(data[idx as usize])
    } else {
        Err(DecodingError::NotEnoughData(idx))
    }
}

impl CanError {
    /// Decodes the error that an error frame reports.
    ///
    /// Fails with `NotAnError` when the frame's error flag is clear, whatever
    /// else it holds; with `UnknownErrorType` when the class bits are none of
    /// the nine known patterns; with `NotEnoughData` when the payload lacks a
    /// byte that the class needs; and with the table's own error when such a
    /// byte has no meaning.
    pub fn from_frame(frame: &Frame) -> (r: Result<CanError, DecodingError>)
        ensures
            r == decode_error(frame@),
            !frame.spec_is_error() ==> r == Err::<CanError, DecodingError>(
                DecodingError::NotAnError,
            ),
    {
        if !frame.is_error() {
            return Err(DecodingError::NotAnError);
        }
        match frame.err() {
            0x0000_0001 => Ok(CanError::TransmitTimeout),
            0x0000_0002 => match get_data(frame, 0) {
                Err(e) => Err(e),
                Ok(b) => Ok(CanError::LostArbitration(b)),
            },
            0x0000_0004 => {
                let b = match get_data(frame, 1) {
                    Err(e) => return Err(e),
                    Ok(b) => b,
                };
                match ControllerProblem::try_from(b) {
                    Err(e) => Err(e),
                    Ok(p) => Ok(CanError::ControllerProblem(p)),
                }
            },
            0x0000_0008 => {
                let t = match get_data(frame, 2) {
                    Err(e) => return Err(e),
                    Ok(t) => t,
                };
                let vtype = match ViolationType::try_from(t) {
                    Err(e) => return Err(e),
                    Ok(v) => v,
                };
                let l = match get_data(frame, 3) {
                    Err(e) => return Err(e),
                    Ok(l) => l,
                };
                match Location::try_from(l) {
                    Err(e) => Err(e),
                    Ok(location) => Ok(CanError::ProtocolViolation { vtype, location }),
                }
            },
            0x0000_0010 => Ok(CanError::TransceiverError),
            0x0000_0020 => Ok(CanError::NoAck),
            0x0000_0040 => Ok(CanError::BusOff),
            0x0000_0080 => Ok(CanError::BusError),
            0x0000_0100 => Ok(CanError::Restarted),
            e => Err(DecodingError::UnknownErrorType(e)),
        }
    }
}

/// Access to the controller-specific part of an error frame's payload.
pub trait ControllerSpecificErrorInformation {
    /// The controller-specific bytes, where the value holds any.
    spec fn ctrl_err(&self) -> Option<Seq<u8>>;

    /// The controller-specific bytes, where the value holds any.
    fn get_ctrl_err(&self) -> (r: Option<&[u8]>)
        ensures
            match r {
                Some(bytes) => self.ctrl_err() == Some(bytes@),
                None => self.ctrl_err() is None,
            },
    ;
}

} // verus!
