//! The v3 message envelope, its security parameters and its payload.

use vstd::prelude::*;
use crate::element::{elements_view, Element, ElementView, OctetString};
use crate::error::DecodeError;
use crate::pdu::{lemma_pdu_decode_exact, lemma_pdu_round_trip, Pdu, PduView};
use crate::tag::{PayloadKind, Tag};
use crate::variable::VarBindView;
use crate::types::{
    AuthenticationParameter, ContextEngineID, ContextName, EngineBootCount, EngineID, EngineTime,
    MaxSize, MessageFlags, MessageID, PrivacyParameter, SecurityModel, UserName, Version,
};

verus! {

/// The parameters of the user-based security model.
#[derive(Debug, PartialEq, Eq, PartialOrd, Ord, Clone)]
pub struct SecurityParameter {
    pub engine_id: EngineID,
    pub engine_boots: EngineBootCount,
    pub engine_time: EngineTime,
    pub user_name: UserName,
    pub auth_parameters: AuthenticationParameter,
    pub privacy_parameters: PrivacyParameter,
}

/// The mathematical value of a [`SecurityParameter`].
pub ghost struct SecurityParameterView {
    pub engine_id: Seq<u8>,
    pub engine_boots: u32,
    pub engine_time: u32,
    pub user_name: Seq<u8>,
    pub auth_parameters: Seq<u8>,
    pub privacy_parameters: Seq<u8>,
}

impl View for SecurityParameter {
    type V = SecurityParameterView;

    open spec fn view(&self) -> SecurityParameterView {
        SecurityParameterView {
            engine_id: self.engine_id.0@,
            engine_boots: self.engine_boots.0,
            engine_time: self.engine_time.0,
            user_name: self.user_name.0@,
            auth_parameters: self.auth_parameters.0@,
            privacy_parameters: self.privacy_parameters.0@,
        }
    }
}

impl SecurityParameterView {
    /// The element the parameters travel as: a sequence of six fields.
    pub open spec fn element(self) -> ElementView {
        ElementView::of_fields(
            seq![
                ElementView::of_octets(self.engine_id),
                ElementView::of_u32(self.engine_boots),
                ElementView::of_u32(self.engine_time),
                ElementView::of_octets(self.user_name),
                ElementView::of_octets(self.auth_parameters),
                ElementView::of_octets(self.privacy_parameters),
            ],
        )
    }

    /// The parameters an element stands for.
    pub open spec fn from_element(e: ElementView) -> Result<SecurityParameterView, DecodeError> {
        match e.as_fields(6) {
            Err(x) => Err(x),
            Ok(fields) => match fields[0].as_octets() {
                Err(x) => Err(x),
                Ok(engine_id) => match fields[1].as_u32() {
                    Err(x) => Err(x),
                    Ok(engine_boots) => match fields[2].as_u32() {
                        Err(x) => Err(x),
                        Ok(engine_time) => match fields[3].as_octets() {
                            Err(x) => Err(x),
                            Ok(user_name) => match fields[4].as_octets() {
                                Err(x) => Err(x),
                                Ok(auth_parameters) => match fields[5].as_octets() {
                                    Err(x) => Err(x),
                                    Ok(privacy_parameters) => Ok(
                                        SecurityParameterView {
                                            engine_id,
                                            engine_boots,
                                            engine_time,
                                            user_name,
                                            auth_parameters,
                                            privacy_parameters,
                                        },
                                    ),
                                },
                            },
                        },
                    },
                },
            },
        }
    }
}

/// Decoding encoded security parameters gives them back.
pub proof fn lemma_security_parameter_round_trip(p: SecurityParameterView)
    ensures
        SecurityParameterView::from_element(p.element()) == Ok::<
            SecurityParameterView,
            DecodeError,
        >(p),
{
}

/// Decoded security parameters encode to the element they came from.
pub proof fn lemma_security_parameter_decode_exact(e: ElementView)
    requires
        SecurityParameterView::from_element(e) is Ok,
    ensures
        SecurityParameterView::from_element(e).unwrap().element() == e,
{
    let fields = e.content->Sequence_0;
    assert(SecurityParameterView::from_element(e).unwrap().element().content->Sequence_0
        =~= fields);
}

impl SecurityParameter {
    /// Encodes the parameters.
    pub fn to_element(&self) -> (e: Element)
        ensures
            e@ == self@.element(),
    {
        let mut fields: Vec<Element> = Vec::new();
        fields.push(Element::from_octets(&self.engine_id.0.bytes));
        fields.push(Element::from_u32(self.engine_boots.0));
        fields.push(Element::from_u32(self.engine_time.0));
        fields.push(Element::from_octets(&self.user_name.0.bytes));
        fields.push(Element::from_octets(&self.auth_parameters.0.bytes));
        fields.push(Element::from_octets(&self.privacy_parameters.0.bytes));
        proof {
            assert(elements_view(fields@) =~= self@.element().content->Sequence_0);
        }
        Element::from_fields(fields)
    }

    /// Decodes the parameters.
    pub fn from_element(e: &Element) -> (r: Result<SecurityParameter, DecodeError>)
        ensures
            match r {
                Ok(p) => SecurityParameterView::from_element(e@) == Ok::<
                    SecurityParameterView,
                    DecodeError,
                >(p@),
                Err(x) => SecurityParameterView::from_element(e@) == Err::<
                    SecurityParameterView,
                    DecodeError,
                >(x),
            },
    {
        let fields = e.read_fields(6)?;
        let engine_id = fields[0].read_octets()?;
        let engine_boots = fields[1].read_u32()?;
        let engine_time = fields[2].read_u32()?;
        let user_name = fields[3].read_octets()?;
        let auth_parameters = fields[4].read_octets()?;
        let privacy_parameters = fields[5].read_octets()?;
        Ok(
            SecurityParameter {
                engine_id: EngineID(OctetString::new(engine_id)),
                engine_boots: EngineBootCount(engine_boots),
                engine_time: EngineTime(engine_time),
                user_name: UserName(OctetString::new(user_name)),
                auth_parameters: AuthenticationParameter(OctetString::new(auth_parameters)),
                privacy_parameters: PrivacyParameter(OctetString::new(privacy_parameters)),
            },
        )
    }
}

/// A PDU with the context it belongs to.
#[derive(Debug, PartialEq, Eq, PartialOrd, Ord, Clone)]
pub struct ScopedPdu {
    pub context_engine_id: ContextEngineID,
    pub context_name: ContextName,
    pub pdu: Pdu,
}

/// The mathematical value of a [`ScopedPdu`].
pub ghost struct ScopedPduView {
    pub context_engine_id: Seq<u8>,
    pub context_name: Seq<u8>,
    pub pdu: PduView,
}

impl View for ScopedPdu {
    type V = ScopedPduView;

    open spec fn view(&self) -> ScopedPduView {
        ScopedPduView {
            context_engine_id: self.context_engine_id.0@,
            context_name: self.context_name.0@,
            pdu: self.pdu@,
        }
    }
}

impl ScopedPduView {
    /// The element a scoped PDU travels as: a sequence of three fields.
    pub open spec fn element(self) -> ElementView {
        ElementView::of_fields(
            seq![
                ElementView::of_octets(self.context_engine_id),
                ElementView::of_octets(self.context_name),
                self.pdu.element(),
            ],
        )
    }

    /// The scoped PDU an element stands for.
    pub open spec fn from_element(e: ElementView) -> Result<ScopedPduView, DecodeError> {
        match e.as_fields(3) {
            Err(x) => Err(x),
            Ok(fields) => match fields[0].as_octets() {
                Err(x) => Err(x),
                Ok(context_engine_id) => match fields[1].as_octets() {
                    Err(x) => Err(x),
                    Ok(context_name) => match PduView::from_element(fields[2]) {
                        Err(x) => Err(x),
                        Ok(pdu) => Ok(ScopedPduView { context_engine_id, context_name, pdu }),
                    },
                },
            },
        }
    }
}

/// Decoding an encoded scoped PDU gives it back.
pub proof fn lemma_scoped_pdu_round_trip(p: ScopedPduView)
    ensures
        ScopedPduView::from_element(p.element()) == Ok::<ScopedPduView, DecodeError>(p),
{
    lemma_pdu_round_trip(p.pdu);
}

/// A decoded scoped PDU encodes to the element it came from.
pub proof fn lemma_scoped_pdu_decode_exact(e: ElementView)
    requires
        ScopedPduView::from_element(e) is Ok,
    ensures
        ScopedPduView::from_element(e).unwrap().element() == e,
{
    let fields = e.content->Sequence_0;
    lemma_pdu_decode_exact(fields[2]);
    assert(ScopedPduView::from_element(e).unwrap().element().content->Sequence_0 =~= fields);
}

impl ScopedPdu {
    /// Encodes the scoped PDU.
    pub fn to_element(&self) -> (e: Element)
        ensures
            e@ == self@.element(),
    {
        let mut fields: Vec<Element> = Vec::new();
        fields.push(Element::from_octets(&self.context_engine_id.0.bytes));
        fields.push(Element::from_octets(&self.context_name.0.bytes));
        fields.push(self.pdu.to_element());
        proof {
            assert(elements_view(fields@) =~= self@.element().content->Sequence_0);
        }
        Element::from_fields(fields)
    }

    /// Decodes a scoped PDU.
    pub fn from_element(e: &Element) -> (r: Result<ScopedPdu, DecodeError>)
        ensures
            match r {
                Ok(p) => ScopedPduView::from_element(e@) == Ok::<ScopedPduView, DecodeError>(p@),
                Err(x) => ScopedPduView::from_element(e@) == Err::<ScopedPduView, DecodeError>(x),
            },
    {
        let fields = e.read_fields(3)?;
        let context_engine_id = fields[0].read_octets()?;
        let context_name = fields[1].read_octets()?;
        let pdu = Pdu::from_element(&fields[2])?;
        Ok(
            ScopedPdu {
                context_engine_id: ContextEngineID(OctetString::new(context_engine_id)),
                context_name: ContextName(OctetString::new(context_name)),
                pdu,
            },
        )
    }
}

/// The payload of a v3 message: in the clear, or encrypted.
#[derive(Debug, PartialEq, Eq, PartialOrd, Ord, Clone)]
pub enum PduV3 {
    Scoped(ScopedPdu),
    Crypted(OctetString),
}

/// The mathematical value of a [`PduV3`].
pub ghost enum PduV3View {
    Scoped(ScopedPduView),
    Crypted(Seq<u8>),
}

impl View for PduV3 {
    type V = PduV3View;

    open spec fn view(&self) -> PduV3View {
        match self {
            PduV3::Scoped(p) => PduV3View::Scoped(p@),
            PduV3::Crypted(bytes) => PduV3View::Crypted(bytes@),
        }
    }
}

impl PduV3View {
    /// The form of a payload.
    pub open spec fn kind(self) -> PayloadKind {
        match self {
            PduV3View::Scoped(_) => PayloadKind::Scoped,
            PduV3View::Crypted(_) => PayloadKind::Crypted,
        }
    }

    /// The element a payload travels as: the scoped PDU's sequence, or the
    /// ciphertext as an octet string.
    pub open spec fn element(self) -> ElementView {
        match self {
            PduV3View::Scoped(p) => p.element(),
            PduV3View::Crypted(bytes) => ElementView::of_octets(bytes),
        }
    }

    /// The payload an element stands for. The tag alone decides: a sequence
    /// is a scoped PDU, an octet string is ciphertext, which is kept as it
    /// is; no other tag is accepted.
    pub open spec fn from_element(e: ElementView) -> Result<PduV3View, DecodeError> {
        match PayloadKind::spec_from_tag(e.tag) {
            Some(PayloadKind::Scoped) => match ScopedPduView::from_element(e) {
                Err(x) => Err(x),
                Ok(p) => Ok(PduV3View::Scoped(p)),
            },
            Some(PayloadKind::Crypted) => match e.as_octets() {
                Err(x) => Err(x),
                Ok(bytes) => Ok(PduV3View::Crypted(bytes)),
            },
            None => Err(DecodeError::PayloadTag),
        }
    }
}

/// Decoding an encoded payload gives it back.
pub proof fn lemma_pdu_v3_round_trip(p: PduV3View)
    ensures
        PduV3View::from_element(p.element()) == Ok::<PduV3View, DecodeError>(p),
{
    match p {
        PduV3View::Scoped(s) => {
            lemma_scoped_pdu_round_trip(s);
        },
        PduV3View::Crypted(_) => {},
    }
}

/// A decoded payload encodes to the element it came from.
pub proof fn lemma_pdu_v3_decode_exact(e: ElementView)
    requires
        PduV3View::from_element(e) is Ok,
    ensures
        PduV3View::from_element(e).unwrap().element() == e,
{
    if PayloadKind::spec_from_tag(e.tag) == Some(PayloadKind::Scoped) {
        lemma_scoped_pdu_decode_exact(e);
    }
}

/// The tag alone selects the variant: a payload that decodes has the form
/// its tag announces, an octet string decodes to its own octets, and a tag
/// that announces no form is refused.
pub proof fn lemma_pdu_v3_choice(e: ElementView)
    ensures
        PduV3View::from_element(e) is Ok ==> PayloadKind::spec_from_tag(e.tag) == Some(
            PduV3View::from_element(e).unwrap().kind(),
        ),
        PduV3View::from_element(e) is Ok ==> PduV3View::from_element(e).unwrap().kind().spec_tag()
            == e.tag,
        e.tag == Tag::octet_string() && e.content is Bytes ==> PduV3View::from_element(e) == Ok::<
            PduV3View,
            DecodeError,
        >(PduV3View::Crypted(e.content->Bytes_0)),
        PayloadKind::spec_from_tag(e.tag) is None <==> PduV3View::from_element(e) == Err::<
            PduV3View,
            DecodeError,
        >(DecodeError::PayloadTag),
{
    if PayloadKind::spec_from_tag(e.tag) == Some(PayloadKind::Scoped) {
        if let Ok(fields) = e.as_fields(3) {
            if let Ok(list) = fields[2].content.fields(4) {
                if let Ok(items) = list[3].as_list() {
                    lemma_bindings_errors(items);
                }
            }
        }
    }
}

/// A list of bindings never fails for the payload's tag.
proof fn lemma_bindings_errors(items: Seq<ElementView>)
    ensures
        VarBindView::from_list_elements(items) != Err::<Seq<VarBindView>, DecodeError>(
            DecodeError::PayloadTag,
        ),
    decreases items.len(),
{
    if items.len() > 0 {
        lemma_bindings_errors(items.drop_last());
    }
}

impl PduV3 {
    /// The form of this payload.
    pub fn kind(&self) -> (k: PayloadKind)
        ensures
            k == self@.kind(),
    {
        match self {
            PduV3::Scoped(_) => PayloadKind::Scoped,
            PduV3::Crypted(_) => PayloadKind::Crypted,
        }
    }

    /// Encodes the payload.
    pub fn to_element(&self) -> (e: Element)
        ensures
            e@ == self@.element(),
    {
        match self {
            PduV3::Scoped(scoped) => scoped.to_element(),
            PduV3::Crypted(crypted) => Element::from_octets(&crypted.bytes),
        }
    }

    /// Decodes a payload by the tag of its element.
    pub fn from_element(e: &Element) -> (r: Result<PduV3, DecodeError>)
        ensures
            match r {
                Ok(p) => PduV3View::from_element(e@) == Ok::<PduV3View, DecodeError>(p@),
                Err(x) => PduV3View::from_element(e@) == Err::<PduV3View, DecodeError>(x),
            },
    {
        match PayloadKind::from_tag(&e.tag) {
            Some(PayloadKind::Scoped) => {
                let scoped = ScopedPdu::from_element(e)?;
                Ok(PduV3::Scoped(scoped))
            },
            Some(PayloadKind::Crypted) => {
                let bytes = e.read_octets()?;
                Ok(PduV3::Crypted(OctetString::new(bytes)))
            },
            None => Err(DecodeError::PayloadTag),
        }
    }
}

/// A v3 message.
#[derive(Debug, PartialEq, Eq, PartialOrd, Ord, Clone)]
pub struct PacketV3 {
    pub version: Version,
    pub msg_id: MessageID,
    pub max_size: MaxSize,
    pub flags: MessageFlags,
    pub security_model: SecurityModel,
    pub security_parameters: SecurityParameter,
    pub pdu: PduV3,
}

/// The mathematical value of a [`PacketV3`].
pub ghost struct PacketV3View {
    pub version: Version,
    pub msg_id: u32,
    pub max_size: u32,
    pub flags: MessageFlags,
    pub security_model: SecurityModel,
    pub security_parameters: SecurityParameterView,
    pub pdu: PduV3View,
}

impl View for PacketV3 {
    type V = PacketV3View;

    open spec fn view(&self) -> PacketV3View {
        PacketV3View {
            version: self.version,
            msg_id: self.msg_id.0,
            max_size: self.max_size.0,
            flags: self.flags,
            security_model: self.security_model,
            security_parameters: self.security_parameters@,
            pdu: self.pdu@,
        }
    }
}

impl PacketV3View {
    /// The element a message travels as: a sequence of seven fields.
    pub open spec fn element(self) -> ElementView {
        ElementView::of_fields(
            seq![
                self.version.spec_element(),
                ElementView::of_u32(self.msg_id),
                ElementView::of_u32(self.max_size),
                self.flags.spec_element(),
                self.security_model.spec_element(),
                self.security_parameters.element(),
                self.pdu.element(),
            ],
        )
    }

    /// The message an element stands for. The fields are read in order and
    /// the first that fails decides the error.
    pub open spec fn from_element(e: ElementView) -> Result<PacketV3View, DecodeError> {
        match e.as_fields(7) {
            Err(x) => Err(x),
            Ok(fields) => match Version::spec_from_element(fields[0]) {
                Err(x) => Err(x),
                Ok(version) => match fields[1].as_u32() {
                    Err(x) => Err(x),
                    Ok(msg_id) => match fields[2].as_u32() {
                        Err(x) => Err(x),
                        Ok(max_size) => match MessageFlags::spec_from_element(fields[3]) {
                            Err(x) => Err(x),
                            Ok(flags) => Self::from_tail(
                                version,
                                msg_id,
                                max_size,
                                flags,
                                fields[4],
                                fields[5],
                                fields[6],
                            ),
                        },
                    },
                },
            },
        }
    }

    /// The message that the first four fields, already read, and the
    /// elements of the last three stand for.
    pub open spec fn from_tail(
        version: Version,
        msg_id: u32,
        max_size: u32,
        flags: MessageFlags,
        model: ElementView,
        parameters: ElementView,
        payload: ElementView,
    ) -> Result<PacketV3View, DecodeError> {
        match SecurityModel::spec_from_element(model) {
            Err(x) => Err(x),
            Ok(security_model) => match SecurityParameterView::from_element(parameters) {
                Err(x) => Err(x),
                Ok(security_parameters) => match PduV3View::from_element(payload) {
                    Err(x) => Err(x),
                    Ok(pdu) => Ok(
                        PacketV3View {
                            version,
                            msg_id,
                            max_size,
                            flags,
                            security_model,
                            security_parameters,
                            pdu,
                        },
                    ),
                },
            },
        }
    }
}

/// Decoding an encoded v3 message gives it back.
pub proof fn lemma_packet_v3_round_trip(p: PacketV3View)
    ensures
        PacketV3View::from_element(p.element()) == Ok::<PacketV3View, DecodeError>(p),
{
    Version::lemma_round_trip(p.version);
    MessageFlags::lemma_round_trip(p.flags);
    SecurityModel::lemma_round_trip(p.security_model);
    lemma_security_parameter_round_trip(p.security_parameters);
    lemma_pdu_v3_round_trip(p.pdu);
}

/// A decoded v3 message encodes to the element it came from.
pub proof fn lemma_packet_v3_decode_exact(e: ElementView)
    requires
        PacketV3View::from_element(e) is Ok,
    ensures
        PacketV3View::from_element(e).unwrap().element() == e,
{
    let fields = e.content->Sequence_0;
    Version::lemma_decode_exact(fields[0]);
    MessageFlags::lemma_decode_exact(fields[3]);
    SecurityModel::lemma_decode_exact(fields[4]);
    lemma_security_parameter_decode_exact(fields[5]);
    lemma_pdu_v3_decode_exact(fields[6]);
    assert(PacketV3View::from_element(e).unwrap().element().content->Sequence_0 =~= fields);
}

impl PacketV3 {
    /// Encodes this message.
    pub fn to_element(&self) -> (e: Element)
        ensures
            e@ == self@.element(),
    {
        let mut fields: Vec<Element> = Vec::new();
        fields.push(self.version.to_element());
        fields.push(Element::from_u32(self.msg_id.0));
        fields.push(Element::from_u32(self.max_size.0));
        fields.push(self.flags.to_element());
        fields.push(self.security_model.to_element());
        fields.push(self.security_parameters.to_element());
        fields.push(self.pdu.to_element());
        proof {
            assert(elements_view(fields@) =~= self@.element().content->Sequence_0);
        }
        Element::from_fields(fields)
    }

    /// Decodes a message.
    pub fn from_element(e: &Element) -> (r: Result<PacketV3, DecodeError>)
        ensures
            match r {
                Ok(p) => PacketV3View::from_element(e@) == Ok::<PacketV3View, DecodeError>(p@),
                Err(x) => PacketV3View::from_element(e@) == Err::<PacketV3View, DecodeError>(x),
            },
    {
        let fields = e.read_fields(7)?;
        let version = Version::from_element(&fields[0])?;
        let msg_id = fields[1].read_u32()?;
        let max_size = fields[2].read_u32()?;
        let flags = MessageFlags::from_element(&fields[3])?;
        let security_model = SecurityModel::from_element(&fields[4])?;
        let security_parameters = SecurityParameter::from_element(&fields[5])?;
        let pdu = PduV3::from_element(&fields[6])?;
        Ok(
            PacketV3 {
                version,
                msg_id: MessageID(msg_id),
                max_size: MaxSize(max_size),
                flags,
                security_model,
                security_parameters,
                pdu,
            },
        )
    }
}

} // verus!
