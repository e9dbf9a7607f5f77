use vstd::prelude::*;

verus! {

/// A field constraint that could not be read.
#[derive(Debug, Clone, Copy, PartialEq, Eq, Structural)]
pub enum ConstraintError {
    /// A range does not have the form `start-end`.
    InvalidRangeFormat,
    /// The start of a range is not a number of the field's type.
    InvalidStart,
    /// The end of a range is not a number of the field's type.
    InvalidEnd,
    /// The start of a range is greater than its end.
    StartAfterEnd,
    /// A single value is not a number of the field's type.
    InvalidValue,
    /// A port is not a number in `0..=65535`.
    InvalidPort,
    /// A payload size is not a number in `0..=65535`.
    InvalidDataSize,
    /// An address or network is not in dotted-quad (`/prefix`) form.
    InvalidNetwork,
    /// An address is not in dotted-quad form.
    InvalidAddress,
}

/// Settings that are missing or contradict each other.
#[derive(Debug, Clone, Copy, PartialEq, Eq, Structural)]
pub enum ConfigError {
    /// No protocol was selected.
    NoProtocol,
    /// More than one protocol was selected.
    ConflictingProtocols,
    /// Raw IP mode was selected without a protocol number.
    MissingProtocolNumber,
    /// Flood mode and an interval were both given.
    FloodWithInterval,
    /// A constraint holds a range whose start is after its end, or a network
    /// whose prefix is longer than 32 bits.
    MalformedConstraint,
    /// The largest payload allowed would not fit in one IPv4 datagram.
    PayloadTooLarge,
}

} // verus!
