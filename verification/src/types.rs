//! The scalar values of the protocol and how each travels as an element.

use vstd::prelude::*;
use vstd::string::StringSliceAdditionalSpecFns;
use crate::element::{Element, ElementView, OctetString};
use crate::error::DecodeError;

verus! {

/// Protocol version of a message.
#[derive(Debug, PartialEq, Eq, PartialOrd, Ord, Copy, Clone, Structural)]
pub enum Version {
    Version1,
    Version2,
    Version3,
}

impl Version {
    /// The number that stands for a version on the wire.
    pub open spec fn spec_number(self) -> u8 {
        match self {
            Version::Version1 => 0,
            Version::Version2 => 1,
            Version::Version3 => 3,
        }
    }

    /// The version a wire number stands for; 2 and everything above 3 stand
    /// for none.
    pub open spec fn spec_from_number(n: u8) -> Result<Version, DecodeError> {
        if n == 0 {
            Ok(Version::Version1)
        } else if n == 1 {
            Ok(Version::Version2)
        } else if n == 3 {
            Ok(Version::Version3)
        } else {
            Err(DecodeError::VersionValue)
        }
    }

    /// The element a version travels as.
    pub open spec fn spec_element(self) -> ElementView {
        ElementView::of_u8(self.spec_number())
    }

    /// The version an element stands for.
    pub open spec fn spec_from_element(e: ElementView) -> Result<Version, DecodeError> {
        match e.as_u8() {
            Ok(n) => Self::spec_from_number(n),
            Err(x) => Err(x),
        }
    }

    /// The conventional name of a version.
    pub open spec fn spec_name(self) -> Seq<char> {
        match self {
            Version::Version1 => "v1"@,
            Version::Version2 => "v2c"@,
            Version::Version3 => "v3"@,
        }
    }

    /// The number that stands for this version on the wire.
    pub fn number(self) -> (n: u8)
        ensures
            n == self.spec_number(),
    {
        match self {
            Version::Version1 => 0,
            Version::Version2 => 1,
            Version::Version3 => 3,
        }
    }

    /// Reads a version from its wire number.
    pub fn from_number(n: u8) -> (r: Result<Version, DecodeError>)
        ensures
            r == Self::spec_from_number(n),
    {
        match n {
            0 => Ok(Version::Version1),
            1 => Ok(Version::Version2),
            3 => Ok(Version::Version3),
            _ => Err(DecodeError::VersionValue),
        }
    }

    /// The conventional name of this version.
    pub fn name(&self) -> (s: &'static str)
        ensures
            s@ == self.spec_name(),
    {
        match self {
            Version::Version1 => "v1",
            Version::Version2 => "v2c",
            Version::Version3 => "v3",
        }
    }

    /// Encodes this version.
    pub fn to_element(&self) -> (e: Element)
        ensures
            e@ == self.spec_element(),
    {
        Element::from_u8(self.number())
    }

    /// Decodes a version.
    pub fn from_element(e: &Element) -> (r: Result<Version, DecodeError>)
        ensures
            r == Self::spec_from_element(e@),
    {
        let n = e.read_u8()?;
        Version::from_number(n)
    }

    /// Decoding an encoded version gives it back.
    pub proof fn lemma_round_trip(v: Version)
        ensures
            Self::spec_from_number(v.spec_number()) == Ok::<Version, DecodeError>(v),
            Self::spec_from_element(v.spec_element()) == Ok::<Version, DecodeError>(v),
    {
    }

    /// A decoded version encodes to the element it came from.
    pub proof fn lemma_decode_exact(e: ElementView)
        requires
            Self::spec_from_element(e) is Ok,
        ensures
            Self::spec_from_element(e).unwrap().spec_element() == e,
    {
    }

    /// A number stands for a version exactly if it is 0, 1 or 3.
    pub proof fn lemma_valid_numbers(n: u8)
        ensures
            Self::spec_from_number(n) is Ok <==> (n == 0 || n == 1 || n == 3),
            Self::spec_from_number(n) is Ok ==> Self::spec_from_number(n).unwrap().spec_number()
                == n,
    {
    }
}

/// Community string of a v1 or v2c message.
#[derive(Debug, PartialEq, Eq, PartialOrd, Ord, Clone)]
pub struct Community(pub OctetString);

impl Community {
    /// The community made of the UTF-8 octets of a string.
    pub fn new(community: &str) -> (c: Community)
        ensures
            c.0@ == community.spec_bytes(),
    {
        Community(OctetString::from_str(community))
    }
}

/// Identifier that ties a response to its request.
#[derive(Debug, PartialEq, Eq, PartialOrd, Ord, Copy, Clone, Structural)]
pub struct RequestID(pub u32);

/// Status code of a response.
#[derive(Debug, PartialEq, Eq, PartialOrd, Ord, Copy, Clone, Structural)]
pub struct ErrorStatus(pub u32);

/// One-based position of the binding an error refers to.
#[derive(Debug, PartialEq, Eq, PartialOrd, Ord, Copy, Clone, Structural)]
pub struct ErrorIndex(pub u32);

impl From<u32> for RequestID {
    fn from(v: u32) -> (r: RequestID) {
        RequestID(v)
    }
}

impl vstd::std_specs::convert::FromSpecImpl<u32> for RequestID {
    open spec fn obeys_from_spec() -> bool {
        true
    }

    open spec fn from_spec(v: u32) -> RequestID {
        RequestID(v)
    }
}

impl From<RequestID> for u32 {
    fn from(v: RequestID) -> (r: u32) {
        v.0
    }
}

impl vstd::std_specs::convert::FromSpecImpl<RequestID> for u32 {
    open spec fn obeys_from_spec() -> bool {
        true
    }

    open spec fn from_spec(v: RequestID) -> u32 {
        v.0
    }
}

impl From<u32> for ErrorStatus {
    fn from(v: u32) -> (r: ErrorStatus) {
        ErrorStatus(v)
    }
}

impl vstd::std_specs::convert::FromSpecImpl<u32> for ErrorStatus {
    open spec fn obeys_from_spec() -> bool {
        true
    }

    open spec fn from_spec(v: u32) -> ErrorStatus {
        ErrorStatus(v)
    }
}

impl From<ErrorStatus> for u32 {
    fn from(v: ErrorStatus) -> (r: u32) {
        v.0
    }
}

impl vstd::std_specs::convert::FromSpecImpl<ErrorStatus> for u32 {
    open spec fn obeys_from_spec() -> bool {
        true
    }

    open spec fn from_spec(v: ErrorStatus) -> u32 {
        v.0
    }
}

impl From<u32> for ErrorIndex {
    fn from(v: u32) -> (r: ErrorIndex) {
        ErrorIndex(v)
    }
}

impl vstd::std_specs::convert::FromSpecImpl<u32> for ErrorIndex {
    open spec fn obeys_from_spec() -> bool {
        true
    }

    open spec fn from_spec(v: u32) -> ErrorIndex {
        ErrorIndex(v)
    }
}

impl From<ErrorIndex> for u32 {
    fn from(v: ErrorIndex) -> (r: u32) {
        v.0
    }
}

impl vstd::std_specs::convert::FromSpecImpl<ErrorIndex> for u32 {
    open spec fn obeys_from_spec() -> bool {
        true
    }

    open spec fn from_spec(v: ErrorIndex) -> u32 {
        v.0
    }
}

impl RequestID {
    /// Wraps a number as a request identifier.
    pub fn new(v: u32) -> (r: RequestID)
        ensures
            r.0 == v,
    {
        RequestID(v)
    }

    /// The number inside.
    pub fn value(&self) -> (v: u32)
        ensures
            v == self.0,
    {
        self.0
    }
}

impl ErrorIndex {
    /// Wraps a number as an error index.
    pub fn new(v: u32) -> (r: ErrorIndex)
        ensures
            r.0 == v,
    {
        ErrorIndex(v)
    }

    /// The number inside.
    pub fn value(&self) -> (v: u32)
        ensures
            v == self.0,
    {
        self.0
    }
}

impl ErrorStatus {
    /// The name of a status code: codes 0 to 18 have one of their own, every
    /// other code is "otherError".
    pub open spec fn spec_name(self) -> Seq<char> {
        let c = self.0;
        if c == 0 {
            "noError"@
        } else if c == 1 {
            "tooBig"@
        } else if c == 2 {
            "noSuchName"@
        } else if c == 3 {
            "badValue"@
        } else if c == 4 {
            "readOnly"@
        } else if c == 5 {
            "genErr"@
        } else if c == 6 {
            "noAccess"@
        } else if c == 7 {
            "wrongType"@
        } else if c == 8 {
            "wrongLength"@
        } else if c == 9 {
            "wrongEncoding"@
        } else if c == 10 {
            "wrongValue"@
        } else if c == 11 {
            "noCreation"@
        } else if c == 12 {
            "inconsistentValue"@
        } else if c == 13 {
            "resourceUnavailable"@
        } else if c == 14 {
            "commitFailed"@
        } else if c == 15 {
            "undoFailed"@
        } else if c == 16 {
            "authorizationError"@
        } else if c == 17 {
            "notWritable"@
        } else if c == 18 {
            "inconsistentName"@
        } else {
            "otherError"@
        }
    }

    /// Wraps a number as a status code.
    pub fn new(v: u32) -> (r: ErrorStatus)
        ensures
            r.0 == v,
    {
        ErrorStatus(v)
    }

    /// The number inside.
    pub fn value(&self) -> (v: u32)
        ensures
            v == self.0,
    {
        self.0
    }

    /// The name of this status code.
    pub fn name(&self) -> (s: &'static str)
        ensures
            s@ == self.spec_name(),
    {
        match self.0 {
            0 => "noError",
            1 => "tooBig",
            2 => "noSuchName",
            3 => "badValue",
            4 => "readOnly",
            5 => "genErr",
            6 => "noAccess",
            7 => "wrongType",
            8 => "wrongLength",
            9 => "wrongEncoding",
            10 => "wrongValue",
            11 => "noCreation",
            12 => "inconsistentValue",
            13 => "resourceUnavailable",
            14 => "commitFailed",
            15 => "undoFailed",
            16 => "authorizationError",
            17 => "notWritable",
            18 => "inconsistentName",
            _ => "otherError",
        }
    }
}

/// Identifier of a v3 message.
#[derive(Debug, PartialEq, Eq, PartialOrd, Ord, Copy, Clone, Structural)]
pub struct MessageID(pub u32);

/// Largest message the sender accepts.
#[derive(Debug, PartialEq, Eq, PartialOrd, Ord, Copy, Clone, Structural)]
pub struct MaxSize(pub u32);

/// Whether a message is authenticated and whether it is encrypted.
#[derive(Debug, PartialEq, Eq, PartialOrd, Ord, Copy, Clone, Structural)]
pub enum SecurityLevel {
    NoAuthNoPriv,
    AuthNoPriv,
    AuthPriv,
}

impl SecurityLevel {
    /// The two-bit number of a level.
    pub open spec fn spec_number(self) -> u8 {
        match self {
            SecurityLevel::NoAuthNoPriv => 0,
            SecurityLevel::AuthNoPriv => 1,
            SecurityLevel::AuthPriv => 3,
        }
    }

    /// The two-bit number of this level.
    pub fn number(self) -> (n: u8)
        ensures
            n == self.spec_number(),
    {
        match self {
            SecurityLevel::NoAuthNoPriv => 0,
            SecurityLevel::AuthNoPriv => 1,
            SecurityLevel::AuthPriv => 3,
        }
    }
}

/// The control octet of a v3 message.
#[derive(Debug, PartialEq, Eq, PartialOrd, Ord, Copy, Clone, Structural)]
pub struct MessageFlags {
    pub reportable: bool,
    pub security_level: SecurityLevel,
}

impl MessageFlags {
    /// The packed octet: 4 for `reportable`, plus the number of the level.
    pub open spec fn spec_octet(self) -> u8 {
        if self.reportable {
            (4 + self.security_level.spec_number()) as u8
        } else {
            self.security_level.spec_number()
        }
    }

    /// The flags that a string of octets stands for. It must be one octet,
    /// below 8, whose two low bits are not 2.
    pub open spec fn spec_from_octets(bytes: Seq<u8>) -> Result<MessageFlags, DecodeError> {
        if bytes.len() != 1 {
            Err(DecodeError::FlagsLength)
        } else if bytes[0] >= 8 {
            Err(DecodeError::FlagsReserved)
        } else {
            let reportable = bytes[0] >= 4;
            let level = bytes[0] % 4;
            if level == 0 {
                Ok(MessageFlags { reportable, security_level: SecurityLevel::NoAuthNoPriv })
            } else if level == 1 {
                Ok(MessageFlags { reportable, security_level: SecurityLevel::AuthNoPriv })
            } else if level == 3 {
                Ok(MessageFlags { reportable, security_level: SecurityLevel::AuthPriv })
            } else {
                Err(DecodeError::FlagsSecurityLevel)
            }
        }
    }

    /// The element the flags travel as: an OCTET STRING of one octet.
    pub open spec fn spec_element(self) -> ElementView {
        ElementView::of_octets(seq![self.spec_octet()])
    }

    /// The flags an element stands for.
    pub open spec fn spec_from_element(e: ElementView) -> Result<MessageFlags, DecodeError> {
        match e.as_octets() {
            Ok(bytes) => Self::spec_from_octets(bytes),
            Err(x) => Err(x),
        }
    }

    /// Packs the flags into one octet: bit 2 is `reportable`, bits 0 and 1
    /// hold the security level, the five upper bits are zero.
    pub fn octet(&self) -> (b: u8)
        ensures
            b == self.spec_octet(),
            b & 0xf8 == 0,
    {
        let reportable: u8 = if self.reportable { 0x04 } else { 0x00 };
        let level: u8 = self.security_level.number();
        proof {
            assert(0x04u8 | 0u8 == 4u8 && 0x04u8 | 1u8 == 5u8 && 0x04u8 | 3u8 == 7u8) by (bit_vector);
            assert(0u8 | 0u8 == 0u8 && 0u8 | 1u8 == 1u8 && 0u8 | 3u8 == 3u8) by (bit_vector);
            assert(forall|x: u8| x < 8 ==> #[trigger] (x & 0xf8) == 0) by (bit_vector);
        }
        reportable | level
    }

    /// Unpacks the flags from the octets of their field.
    pub fn from_octets(bytes: &[u8]) -> (r: Result<MessageFlags, DecodeError>)
        ensures
            r == Self::spec_from_octets(bytes@),
    {
        if bytes.len() != 1 {
            return Err(DecodeError::FlagsLength);
        }
        let v: u8 = bytes[0];
        proof {
            assert((v & 0xf8 != 0) == (v >= 8)) by (bit_vector);
            assert(v < 8 ==> ((v & 0x04 == 0x04) == (v >= 4))) by (bit_vector);
            assert(v & 0x03 == v % 4) by (bit_vector);
        }
        if v & 0xf8 != 0 {
            return Err(DecodeError::FlagsReserved);
        }
        let reportable: bool = v & 0x04 == 0x04;
        let security_level = match v & 0x03 {
            0x00 => SecurityLevel::NoAuthNoPriv,
            0x01 => SecurityLevel::AuthNoPriv,
            0x03 => SecurityLevel::AuthPriv,
            _ => {
                return Err(DecodeError::FlagsSecurityLevel);
            },
        };
        Ok(MessageFlags { reportable, security_level })
    }

    /// Encodes the flags.
    pub fn to_element(&self) -> (e: Element)
        ensures
            e@ == self.spec_element(),
    {
        let mut bytes: Vec<u8> = Vec::new();
        bytes.push(self.octet());
        proof {
            assert(bytes@ =~= seq![self.spec_octet()]);
        }
        Element::from_octets(&bytes)
    }

    /// Decodes the flags.
    pub fn from_element(e: &Element) -> (r: Result<MessageFlags, DecodeError>)
        ensures
            r == Self::spec_from_element(e@),
    {
        let bytes = e.read_octets()?;
        MessageFlags::from_octets(bytes.as_slice())
    }

    /// Unpacking packed flags gives them back.
    pub proof fn lemma_round_trip(f: MessageFlags)
        ensures
            Self::spec_from_octets(seq![f.spec_octet()]) == Ok::<MessageFlags, DecodeError>(f),
            Self::spec_from_element(f.spec_element()) == Ok::<MessageFlags, DecodeError>(f),
    {
    }

    /// Decoded flags encode to the element they came from.
    pub proof fn lemma_decode_exact(e: ElementView)
        requires
            Self::spec_from_element(e) is Ok,
        ensures
            Self::spec_from_element(e).unwrap().spec_element() == e,
    {
        let bytes = e.content->Bytes_0;
        assert(seq![bytes[0]] =~= bytes);
    }

    /// Flags that unpack from one octet pack into that octet again.
    pub proof fn lemma_unpack_exact(b: u8)
        ensures
            Self::spec_from_octets(seq![b]) is Ok ==> Self::spec_from_octets(
                seq![b],
            ).unwrap().spec_octet() == b,
            Self::spec_from_octets(seq![b]) is Ok <==> (b < 8 && b % 4 != 2),
    {
    }
}

/// The security subsystem that protects a v3 message.
#[derive(Debug, PartialEq, Eq, PartialOrd, Ord, Copy, Clone, Structural)]
pub enum SecurityModel {
    UserBasedSecurityModel,
}

impl SecurityModel {
    /// The number that stands for a model on the wire.
    pub open spec fn spec_number(self) -> u8 {
        3
    }

    /// The model a wire number stands for: 3 is the only one.
    pub open spec fn spec_from_number(n: u8) -> Result<SecurityModel, DecodeError> {
        if n == 3 {
            Ok(SecurityModel::UserBasedSecurityModel)
        } else {
            Err(DecodeError::SecurityModelValue)
        }
    }

    /// The element a model travels as.
    pub open spec fn spec_element(self) -> ElementView {
        ElementView::of_u8(self.spec_number())
    }

    /// The model an element stands for.
    pub open spec fn spec_from_element(e: ElementView) -> Result<SecurityModel, DecodeError> {
        match e.as_u8() {
            Ok(n) => Self::spec_from_number(n),
            Err(x) => Err(x),
        }
    }

    /// The number that stands for this model on the wire.
    pub fn number(self) -> (n: u8)
        ensures
            n == self.spec_number(),
    {
        match self {
            SecurityModel::UserBasedSecurityModel => 3,
        }
    }

    /// Reads a model from its wire number.
    pub fn from_number(n: u8) -> (r: Result<SecurityModel, DecodeError>)
        ensures
            r == Self::spec_from_number(n),
    {
        match n {
            3 => Ok(SecurityModel::UserBasedSecurityModel),
            _ => Err(DecodeError::SecurityModelValue),
        }
    }

    /// Encodes this model.
    pub fn to_element(&self) -> (e: Element)
        ensures
            e@ == self.spec_element(),
    {
        Element::from_u8(self.number())
    }

    /// Decodes a model.
    pub fn from_element(e: &Element) -> (r: Result<SecurityModel, DecodeError>)
        ensures
            r == Self::spec_from_element(e@),
    {
        let n = e.read_u8()?;
        SecurityModel::from_number(n)
    }

    /// A decoded model encodes to the element it came from.
    pub proof fn lemma_decode_exact(e: ElementView)
        requires
            Self::spec_from_element(e) is Ok,
        ensures
            Self::spec_from_element(e).unwrap().spec_element() == e,
    {
    }

    /// Decoding an encoded model gives it back.
    pub proof fn lemma_round_trip(m: SecurityModel)
        ensures
            Self::spec_from_element(m.spec_element()) == Ok::<SecurityModel, DecodeError>(m),
    {
    }
}

/// Authentication parameters of the user-based security model.
#[derive(Debug, PartialEq, Eq, PartialOrd, Ord, Clone)]
pub struct AuthenticationParameter(pub OctetString);

/// Privacy parameters of the user-based security model.
#[derive(Debug, PartialEq, Eq, PartialOrd, Ord, Clone)]
pub struct PrivacyParameter(pub OctetString);

/// Identifier of an authoritative engine.
#[derive(Debug, PartialEq, Eq, PartialOrd, Ord, Clone)]
pub struct EngineID(pub OctetString);

/// Seconds since the engine last started.
#[derive(Debug, PartialEq, Eq, PartialOrd, Ord, Copy, Clone, Structural)]
pub struct EngineTime(pub u32);

/// How often the engine has started.
#[derive(Debug, PartialEq, Eq, PartialOrd, Ord, Copy, Clone, Structural)]
pub struct EngineBootCount(pub u32);

/// Name of the user on whose behalf a message travels.
#[derive(Debug, PartialEq, Eq, PartialOrd, Ord, Clone)]
pub struct UserName(pub OctetString);

/// Identifier of the engine that holds a context.
#[derive(Debug, PartialEq, Eq, PartialOrd, Ord, Clone)]
pub struct ContextEngineID(pub OctetString);

/// Name of a context.
#[derive(Debug, PartialEq, Eq, PartialOrd, Ord, Clone)]
pub struct ContextName(pub OctetString);

} // verus!
