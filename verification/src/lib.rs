//! Message-layer codec for SNMP v1, v2c and v3.
//!
//! The crate maps the protocol's values (typed variables, variable bindings,
//! PDUs and the two message envelopes) onto trees of tagged ASN.1 elements and
//! back. Turning such a tree into bytes is the job of a BER/DER primitive
//! codec and happens outside this crate.
//!
//! * [`tag`] holds the registry of tags and what each announces.
//! * [`element`] holds the element trees and the readers of plain fields.
//! * [`types`] holds the scalar values: versions, status codes, message flags.
//! * [`variable`], [`pdu`] and [`v3`] hold the composite values, each with the
//!   element it travels as and the value an element stands for.
//! * [`layout`] tells a reader, tag by tag, what to read next.
//! * [`error`] holds the failures of decoding.
//!
//! Every value type has a mathematical view. For each, encoding is specified
//! by a function from views to element views, decoding by a function from
//! element views to a result, and decoding an encoding is proved to give the
//! value back.

pub mod tag;
pub mod error;
pub mod element;
pub mod types;
pub mod variable;
pub mod pdu;
pub mod v3;
pub mod layout;

pub use element::{
    BitString, Content, ContentView, Element, ElementView, ObjectIdentifier, OctetString,
};
pub use error::{DecodeError, ErrorKind};
pub use layout::{Reading, ReadingView, Shape};
pub use pdu::{
    InnerPdu, InnerPduView, PacketV2, PacketV2View, Pdu, PduView, RequestType, ResponseType,
};
pub use tag::{
    ContentKind, ContentType, PayloadKind, PduKind, Tag, TagClass, VariableKind,
};
pub use types::{
    AuthenticationParameter, Community, ContextEngineID, ContextName, EngineBootCount, EngineID,
    EngineTime, ErrorIndex, ErrorStatus, MaxSize, MessageFlags, MessageID, PrivacyParameter,
    RequestID, SecurityLevel, SecurityModel, UserName, Version,
};
pub use v3::{
    PacketV3, PacketV3View, PduV3, PduV3View, ScopedPdu, ScopedPduView, SecurityParameter,
    SecurityParameterView,
};
pub use variable::{VarBind, VarBindList, VarBindView, Variable, VariableView};
