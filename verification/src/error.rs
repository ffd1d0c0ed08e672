//! Decode failures.

use vstd::prelude::*;

verus! {

/// The three families of decode failure.
#[derive(Clone, Copy, Debug, PartialEq, Eq, Structural)]
pub enum ErrorKind {
    /// A tag outside the set expected at that place.
    InvalidTag,
    /// A field that does not have its mandated size.
    InvalidLength,
    /// A value outside the field's domain.
    InvalidValue,
}

/// Why an element could not be decoded.
#[derive(Clone, Copy, Debug, PartialEq, Eq, Structural)]
pub enum DecodeError {
    /// A version number other than 0, 1 or 3.
    VersionValue,
    /// A tag that is registered for no variable kind.
    VariableTag,
    /// A tag that is registered for no PDU kind.
    PduTag,
    /// An IP address that is not four octets long.
    AddressLength,
    /// Message flags that are not one octet long.
    FlagsLength,
    /// Message flags with one of the five reserved bits set.
    FlagsReserved,
    /// Message flags whose two low bits name no security level.
    FlagsSecurityLevel,
    /// A security model other than the user-based one.
    SecurityModelValue,
    /// A v3 payload that is neither a sequence nor an octet string.
    PayloadTag,
    /// A field of fixed type that carries another tag.
    FieldTag,
    /// Content of another shape than the tag calls for.
    FieldContent,
    /// A sequence with missing or surplus fields.
    FieldCount,
}

impl DecodeError {
    /// The family a failure belongs to.
    pub open spec fn spec_kind(self) -> ErrorKind {
        match self {
            DecodeError::VariableTag | DecodeError::PduTag | DecodeError::PayloadTag
            | DecodeError::FieldTag => ErrorKind::InvalidTag,
            DecodeError::AddressLength | DecodeError::FlagsLength
            | DecodeError::FieldCount => ErrorKind::InvalidLength,
            DecodeError::VersionValue | DecodeError::FlagsReserved
            | DecodeError::FlagsSecurityLevel | DecodeError::SecurityModelValue
            | DecodeError::FieldContent => ErrorKind::InvalidValue,
        }
    }

    /// The text that describes a failure.
    pub open spec fn spec_message(self) -> Seq<char> {
        match self {
            DecodeError::VersionValue => "Version value must be within [0, 3]"@,
            DecodeError::VariableTag => "expected Variable related tag"@,
            DecodeError::PduTag => "expected PDU related tag"@,
            DecodeError::AddressLength => "IP address must be encoded in 4 bytes"@,
            DecodeError::FlagsLength => "message flags must be encoded in 1 byte"@,
            DecodeError::FlagsReserved => "bits 3-7 are reserved and should be zero"@,
            DecodeError::FlagsSecurityLevel => "invalid security level flag set"@,
            DecodeError::SecurityModelValue => "security model should be UserBasedSecurityModel (3)"@,
            DecodeError::PayloadTag => "SNMP V3 PDU must be either ScopedPdu or CryptedPdu"@,
            DecodeError::FieldTag => "unexpected tag"@,
            DecodeError::FieldContent => "content does not fit the tag"@,
            DecodeError::FieldCount => "sequence has missing or surplus fields"@,
        }
    }

    /// The family a failure belongs to.
    pub fn kind(&self) -> (k: ErrorKind)
        ensures
            k == self.spec_kind(),
    {
        match self {
            DecodeError::VariableTag | DecodeError::PduTag | DecodeError::PayloadTag
            | DecodeError::FieldTag => ErrorKind::InvalidTag,
            DecodeError::AddressLength | DecodeError::FlagsLength
            | DecodeError::FieldCount => ErrorKind::InvalidLength,
            DecodeError::VersionValue | DecodeError::FlagsReserved
            | DecodeError::FlagsSecurityLevel | DecodeError::SecurityModelValue
            | DecodeError::FieldContent => ErrorKind::InvalidValue,
        }
    }

    /// The text that describes a failure.
    pub fn message(&self) -> (s: &'static str)
        ensures
            s@ == self.spec_message(),
    {
        match self {
            DecodeError::VersionValue => "Version value must be within [0, 3]",
            DecodeError::VariableTag => "expected Variable related tag",
            DecodeError::PduTag => "expected PDU related tag",
            DecodeError::AddressLength => "IP address must be encoded in 4 bytes",
            DecodeError::FlagsLength => "message flags must be encoded in 1 byte",
            DecodeError::FlagsReserved => "bits 3-7 are reserved and should be zero",
            DecodeError::FlagsSecurityLevel => "invalid security level flag set",
            DecodeError::SecurityModelValue => "security model should be UserBasedSecurityModel (3)",
            DecodeError::PayloadTag => "SNMP V3 PDU must be either ScopedPdu or CryptedPdu",
            DecodeError::FieldTag => "unexpected tag",
            DecodeError::FieldContent => "content does not fit the tag",
            DecodeError::FieldCount => "sequence has missing or surplus fields",
        }
    }
}

} // verus!
