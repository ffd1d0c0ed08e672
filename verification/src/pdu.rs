//! PDUs and the v1/v2c message envelope.

use vstd::prelude::*;
use crate::element::{
    elements_view, lemma_sequence_view, Content, ContentView, Element, ElementView, OctetString,
};
use crate::error::DecodeError;
use crate::tag::{ContentType, PduKind, Tag, TagClass};
use crate::types::{Community, ErrorIndex, ErrorStatus, RequestID, Version};
use crate::variable::{
    bindings_view, lemma_bindings_decode_exact, lemma_bindings_round_trip, VarBind, VarBindList,
    VarBindView,
};

verus! {

/// What every PDU carries, request or response.
#[derive(Debug, PartialEq, Eq, PartialOrd, Ord, Clone)]
pub struct InnerPdu {
    request_id: RequestID,
    error_status: ErrorStatus,
    error_index: ErrorIndex,
    variable_bindings: VarBindList,
}

/// The mathematical value of an [`InnerPdu`].
pub ghost struct InnerPduView {
    pub request_id: u32,
    pub error_status: u32,
    pub error_index: u32,
    pub variable_bindings: Seq<VarBindView>,
}

impl View for InnerPdu {
    type V = InnerPduView;

    closed spec fn view(&self) -> InnerPduView {
        InnerPduView {
            request_id: self.request_id.0,
            error_status: self.error_status.0,
            error_index: self.error_index.0,
            variable_bindings: bindings_view(self.variable_bindings@),
        }
    }
}

impl InnerPduView {
    /// The four fields a PDU travels as, in their fixed order.
    pub open spec fn content(self) -> ContentView {
        ContentView::Sequence(
            seq![
                ElementView::of_u32(self.request_id),
                ElementView::of_u32(self.error_status),
                ElementView::of_u32(self.error_index),
                ElementView::of_fields(VarBindView::list_elements(self.variable_bindings)),
            ],
        )
    }

    /// The plain sequence a PDU travels as when no kind is attached.
    pub open spec fn element(self) -> ElementView {
        ElementView { tag: Tag::sequence(), content: self.content() }
    }

    /// The PDU that a content stands for: exactly four fields, the last a
    /// sequence of any number of bindings.
    pub open spec fn from_content(content: ContentView) -> Result<InnerPduView, DecodeError> {
        match content.fields(4) {
            Err(x) => Err(x),
            Ok(fields) => match fields[0].as_u32() {
                Err(x) => Err(x),
                Ok(request_id) => match fields[1].as_u32() {
                    Err(x) => Err(x),
                    Ok(error_status) => match fields[2].as_u32() {
                        Err(x) => Err(x),
                        Ok(error_index) => match Self::bindings_from_element(fields[3]) {
                            Err(x) => Err(x),
                            Ok(variable_bindings) => Ok(
                                InnerPduView {
                                    request_id,
                                    error_status,
                                    error_index,
                                    variable_bindings,
                                },
                            ),
                        },
                    },
                },
            },
        }
    }

    /// The bindings that a sequence element stands for.
    pub open spec fn bindings_from_element(e: ElementView) -> Result<
        Seq<VarBindView>,
        DecodeError,
    > {
        match e.as_list() {
            Err(x) => Err(x),
            Ok(items) => VarBindView::from_list_elements(items),
        }
    }

    /// The PDU that a plain sequence stands for.
    pub open spec fn from_element(e: ElementView) -> Result<InnerPduView, DecodeError> {
        if e.tag != Tag::sequence() {
            Err(DecodeError::FieldTag)
        } else {
            Self::from_content(e.content)
        }
    }
}

/// Decoding an encoded PDU body gives it back.
pub proof fn lemma_inner_pdu_round_trip(p: InnerPduView)
    ensures
        InnerPduView::from_content(p.content()) == Ok::<InnerPduView, DecodeError>(p),
        InnerPduView::from_element(p.element()) == Ok::<InnerPduView, DecodeError>(p),
{
    lemma_bindings_round_trip(p.variable_bindings);
}

/// A decoded PDU body encodes to the content it came from.
pub proof fn lemma_inner_pdu_decode_exact(content: ContentView)
    requires
        InnerPduView::from_content(content) is Ok,
    ensures
        InnerPduView::from_content(content).unwrap().content() == content,
{
    let fields = content->Sequence_0;
    lemma_bindings_decode_exact(fields[3].content->Sequence_0);
    assert(InnerPduView::from_content(content).unwrap().content()->Sequence_0 =~= fields);
}

impl InnerPdu {
    /// A PDU body of the given fields.
    pub fn new(request_id: u32, error_status: u32, error_index: u32, bindings: VarBindList) -> (p:
        InnerPdu)
        ensures
            p@ == (InnerPduView {
                request_id,
                error_status,
                error_index,
                variable_bindings: bindings_view(bindings@),
            }),
            *p.spec_binds() == bindings,
    {
        InnerPdu {
            request_id: RequestID::new(request_id),
            error_status: ErrorStatus::new(error_status),
            error_index: ErrorIndex::new(error_index),
            variable_bindings: bindings,
        }
    }

    /// The list of bindings, in specifications.
    pub closed spec fn spec_binds(&self) -> &VarBindList {
        &self.variable_bindings
    }

    /// The bindings' values are those of the list of bindings.
    pub proof fn lemma_binds_view(&self)
        ensures
            self@.variable_bindings == bindings_view(self.spec_binds()@),
    {
    }

    /// The request identifier.
    pub fn request_id(&self) -> (v: u32)
        ensures
            v == self@.request_id,
    {
        self.request_id.0
    }

    /// Replaces the request identifier and nothing else.
    pub fn set_request_id(&mut self, value: u32)
        ensures
            final(self)@ == (InnerPduView { request_id: value, ..old(self)@ }),
            final(self).spec_binds() == old(self).spec_binds(),
    {
        self.request_id = RequestID(value);
    }

    /// The status code.
    pub fn error_status(&self) -> (v: u32)
        ensures
            v == self@.error_status,
    {
        self.error_status.0
    }

    /// Replaces the status code and nothing else.
    pub fn set_error_status(&mut self, value: u32)
        ensures
            final(self)@ == (InnerPduView { error_status: value, ..old(self)@ }),
            final(self).spec_binds() == old(self).spec_binds(),
    {
        self.error_status = ErrorStatus(value);
    }

    /// The error index.
    pub fn error_index(&self) -> (v: u32)
        ensures
            v == self@.error_index,
    {
        self.error_index.0
    }

    /// Replaces the error index and nothing else.
    pub fn set_error_index(&mut self, value: u32)
        ensures
            final(self)@ == (InnerPduView { error_index: value, ..old(self)@ }),
            final(self).spec_binds() == old(self).spec_binds(),
    {
        self.error_index = ErrorIndex(value);
    }

    /// The list of bindings.
    pub fn binds(&self) -> (list: &VarBindList)
        ensures
            list == self.spec_binds(),
            bindings_view(list@) == self@.variable_bindings,
    {
        &self.variable_bindings
    }

    /// Lends the list of bindings for change; nothing else changes.
    pub fn binds_mut(&mut self) -> (list: &mut VarBindList)
        ensures
            *list == *old(self).spec_binds(),
            *final(self).spec_binds() == *final(list),
            final(self)@ == (InnerPduView {
                variable_bindings: bindings_view(final(list)@),
                ..old(self)@
            }),
    {
        &mut self.variable_bindings
    }

    /// Replaces the list of bindings and nothing else.
    pub fn set_binds(&mut self, value: VarBindList)
        ensures
            final(self)@ == (InnerPduView {
                variable_bindings: bindings_view(value@),
                ..old(self)@
            }),
            *final(self).spec_binds() == value,
    {
        self.variable_bindings = value;
    }

    /// Gives up the PDU for its list of bindings.
    pub fn into_binds(self) -> (list: VarBindList)
        ensures
            list == *self.spec_binds(),
            bindings_view(list@) == self@.variable_bindings,
    {
        self.variable_bindings
    }

    /// Encodes the four fields.
    pub fn to_content(&self) -> (c: Content)
        ensures
            c@ == self@.content(),
    {
        let mut fields: Vec<Element> = Vec::new();
        fields.push(Element::from_u32(self.request_id.0));
        fields.push(Element::from_u32(self.error_status.0));
        fields.push(Element::from_u32(self.error_index.0));
        fields.push(Element::from_fields(VarBind::list_to_elements(&self.variable_bindings)));
        proof {
            lemma_sequence_view(fields);
            assert(elements_view(fields@) =~= self@.content()->Sequence_0);
        }
        Content::Sequence(fields)
    }

    /// Encodes the PDU body as a plain sequence.
    pub fn to_element(&self) -> (e: Element)
        ensures
            e@ == self@.element(),
    {
        Element {
            tag: Tag::new(TagClass::Universal, 16, ContentType::Constructed),
            content: self.to_content(),
        }
    }

    /// Decodes the four fields.
    pub fn from_content(content: &Content) -> (r: Result<InnerPdu, DecodeError>)
        ensures
            match r {
                Ok(p) => InnerPduView::from_content(content@) == Ok::<InnerPduView, DecodeError>(
                    p@,
                ),
                Err(x) => InnerPduView::from_content(content@) == Err::<InnerPduView, DecodeError>(
                    x,
                ),
            },
    {
        let fields = content.read_fields(4)?;
        let request_id = fields[0].read_u32()?;
        let error_status = fields[1].read_u32()?;
        let error_index = fields[2].read_u32()?;
        let items = fields[3].read_fields_any()?;
        let bindings = VarBind::list_from_elements(items)?;
        Ok(InnerPdu::new(request_id, error_status, error_index, bindings))
    }

    /// Decodes a PDU body from a plain sequence.
    pub fn from_element(e: &Element) -> (r: Result<InnerPdu, DecodeError>)
        ensures
            match r {
                Ok(p) => InnerPduView::from_element(e@) == Ok::<InnerPduView, DecodeError>(p@),
                Err(x) => InnerPduView::from_element(e@) == Err::<InnerPduView, DecodeError>(x),
            },
    {
        if !e.tag.same(&Tag::new(TagClass::Universal, 16, ContentType::Constructed)) {
            return Err(DecodeError::FieldTag);
        }
        InnerPdu::from_content(&e.content)
    }
}

/// The kinds of request.
#[derive(Debug, PartialEq, Eq, PartialOrd, Ord, Copy, Clone, Structural)]
pub enum RequestType {
    Get,
    GetNext,
    SetValue,
    GetBulk,
}

/// The kinds of response.
#[derive(Debug, PartialEq, Eq, PartialOrd, Ord, Copy, Clone, Structural)]
pub enum ResponseType {
    GetResponse,
    Report,
}

impl RequestType {
    /// The PDU kind that carries a request of this type.
    pub open spec fn spec_kind(self) -> PduKind {
        match self {
            RequestType::Get => PduKind::GetRequest,
            RequestType::GetNext => PduKind::GetNextRequest,
            RequestType::SetValue => PduKind::SetRequest,
            RequestType::GetBulk => PduKind::GetBulkRequest,
        }
    }

    /// The request type of a PDU kind, if it is a request.
    pub open spec fn of_kind(kind: PduKind) -> Option<RequestType> {
        match kind {
            PduKind::GetRequest => Some(RequestType::Get),
            PduKind::GetNextRequest => Some(RequestType::GetNext),
            PduKind::SetRequest => Some(RequestType::SetValue),
            PduKind::GetBulkRequest => Some(RequestType::GetBulk),
            _ => None,
        }
    }
}

impl ResponseType {
    /// The PDU kind that carries a response of this type.
    pub open spec fn spec_kind(self) -> PduKind {
        match self {
            ResponseType::GetResponse => PduKind::GetResponse,
            ResponseType::Report => PduKind::Report,
        }
    }

    /// The response type of a PDU kind, if it is a response.
    pub open spec fn of_kind(kind: PduKind) -> Option<ResponseType> {
        match kind {
            PduKind::GetResponse => Some(ResponseType::GetResponse),
            PduKind::Report => Some(ResponseType::Report),
            _ => None,
        }
    }
}

/// Every kind is a request, a response or a notification, and only one of
/// them: the notifications, inform and trap, are neither of the other two.
pub proof fn lemma_classification(kind: PduKind)
    ensures
        !(RequestType::of_kind(kind) is Some && ResponseType::of_kind(kind) is Some),
        (RequestType::of_kind(kind) is None && ResponseType::of_kind(kind) is None) <==> (kind
            == PduKind::Inform || kind == PduKind::Trap),
        RequestType::of_kind(kind) is Some ==> RequestType::of_kind(kind).unwrap().spec_kind()
            == kind,
        ResponseType::of_kind(kind) is Some ==> ResponseType::of_kind(kind).unwrap().spec_kind()
            == kind,
{
}

/// A request, a response or a notification.
#[derive(Debug, PartialEq, Eq, PartialOrd, Ord, Clone)]
pub enum Pdu {
    GetRequest(InnerPdu),
    GetNextRequest(InnerPdu),
    GetResponse(InnerPdu),
    SetRequest(InnerPdu),
    GetBulkRequest(InnerPdu),
    Inform(InnerPdu),
    Trap(InnerPdu),
    Report(InnerPdu),
}

/// The mathematical value of a [`Pdu`]: its kind and what it carries.
pub ghost struct PduView {
    pub kind: PduKind,
    pub inner: InnerPduView,
}

impl View for Pdu {
    type V = PduView;

    open spec fn view(&self) -> PduView {
        match self {
            Pdu::GetRequest(p) => PduView { kind: PduKind::GetRequest, inner: p@ },
            Pdu::GetNextRequest(p) => PduView { kind: PduKind::GetNextRequest, inner: p@ },
            Pdu::GetResponse(p) => PduView { kind: PduKind::GetResponse, inner: p@ },
            Pdu::SetRequest(p) => PduView { kind: PduKind::SetRequest, inner: p@ },
            Pdu::GetBulkRequest(p) => PduView { kind: PduKind::GetBulkRequest, inner: p@ },
            Pdu::Inform(p) => PduView { kind: PduKind::Inform, inner: p@ },
            Pdu::Trap(p) => PduView { kind: PduKind::Trap, inner: p@ },
            Pdu::Report(p) => PduView { kind: PduKind::Report, inner: p@ },
        }
    }
}

impl PduView {
    /// The element a PDU travels as: the four fields under the context tag
    /// of its kind, which takes the place of the sequence tag.
    pub open spec fn element(self) -> ElementView {
        ElementView { tag: self.kind.spec_tag(), content: self.inner.content() }
    }

    /// The PDU an element stands for: the tag selects the kind, and a tag
    /// that is registered for none is refused before the content is read.
    pub open spec fn from_element(e: ElementView) -> Result<PduView, DecodeError> {
        match PduKind::spec_from_tag(e.tag) {
            None => Err(DecodeError::PduTag),
            Some(kind) => match InnerPduView::from_content(e.content) {
                Err(x) => Err(x),
                Ok(inner) => Ok(PduView { kind, inner }),
            },
        }
    }
}

/// Decoding an encoded PDU gives it back.
pub proof fn lemma_pdu_round_trip(p: PduView)
    ensures
        PduView::from_element(p.element()) == Ok::<PduView, DecodeError>(p),
{
    PduKind::lemma_tag_lookup(p.kind);
    lemma_inner_pdu_round_trip(p.inner);
}

/// A decoded PDU encodes to the element it came from.
pub proof fn lemma_pdu_decode_exact(e: ElementView)
    requires
        PduView::from_element(e) is Ok,
    ensures
        PduView::from_element(e).unwrap().element() == e,
{
    PduKind::lemma_lookup_exact(e.tag, PduKind::spec_from_tag(e.tag).unwrap());
    lemma_inner_pdu_decode_exact(e.content);
}

impl Pdu {
    /// A PDU of the given kind around a body.
    pub fn of_kind(kind: PduKind, inner: InnerPdu) -> (p: Pdu)
        ensures
            p@ == (PduView { kind, inner: inner@ }),
    {
        match kind {
            PduKind::GetRequest => Pdu::GetRequest(inner),
            PduKind::GetNextRequest => Pdu::GetNextRequest(inner),
            PduKind::GetResponse => Pdu::GetResponse(inner),
            PduKind::SetRequest => Pdu::SetRequest(inner),
            PduKind::GetBulkRequest => Pdu::GetBulkRequest(inner),
            PduKind::Inform => Pdu::Inform(inner),
            PduKind::Trap => Pdu::Trap(inner),
            PduKind::Report => Pdu::Report(inner),
        }
    }

    /// A request of the given type and fields.
    pub fn new_request(
        request_type: RequestType,
        request_id: u32,
        error_status: u32,
        error_index: u32,
        var_binds: VarBindList,
    ) -> (p: Pdu)
        ensures
            p@ == (PduView {
                kind: request_type.spec_kind(),
                inner: InnerPduView {
                    request_id,
                    error_status,
                    error_index,
                    variable_bindings: bindings_view(var_binds@),
                },
            }),
    {
        let pdu = InnerPdu::new(request_id, error_status, error_index, var_binds);
        match request_type {
            RequestType::Get => Pdu::GetRequest(pdu),
            RequestType::GetNext => Pdu::GetNextRequest(pdu),
            RequestType::SetValue => Pdu::SetRequest(pdu),
            RequestType::GetBulk => Pdu::GetBulkRequest(pdu),
        }
    }

    /// A request of the given type with all numbers zero and no bindings.
    pub fn new_empty_request(request_type: RequestType) -> (p: Pdu)
        ensures
            p@ == (PduView {
                kind: request_type.spec_kind(),
                inner: InnerPduView {
                    request_id: 0,
                    error_status: 0,
                    error_index: 0,
                    variable_bindings: Seq::empty(),
                },
            }),
    {
        let binds: VarBindList = Vec::new();
        proof {
            assert(bindings_view(binds@) =~= Seq::empty());
        }
        Pdu::new_request(request_type, 0, 0, 0, binds)
    }

    /// The kind of this PDU.
    pub fn kind(&self) -> (k: PduKind)
        ensures
            k == self@.kind,
    {
        match self {
            Pdu::GetRequest(_) => PduKind::GetRequest,
            Pdu::GetNextRequest(_) => PduKind::GetNextRequest,
            Pdu::GetResponse(_) => PduKind::GetResponse,
            Pdu::SetRequest(_) => PduKind::SetRequest,
            Pdu::GetBulkRequest(_) => PduKind::GetBulkRequest,
            Pdu::Inform(_) => PduKind::Inform,
            Pdu::Trap(_) => PduKind::Trap,
            Pdu::Report(_) => PduKind::Report,
        }
    }

    /// What this PDU carries.
    pub fn inner(&self) -> (p: &InnerPdu)
        ensures
            p@ == self@.inner,
    {
        match self {
            Pdu::GetRequest(p) => p,
            Pdu::GetNextRequest(p) => p,
            Pdu::GetResponse(p) => p,
            Pdu::SetRequest(p) => p,
            Pdu::GetBulkRequest(p) => p,
            Pdu::Inform(p) => p,
            Pdu::Trap(p) => p,
            Pdu::Report(p) => p,
        }
    }

    /// The request type, if this is a request.
    pub fn request_type(&self) -> (t: Option<RequestType>)
        ensures
            t == RequestType::of_kind(self@.kind),
    {
        match self {
            Pdu::GetRequest(_) => Some(RequestType::Get),
            Pdu::GetNextRequest(_) => Some(RequestType::GetNext),
            Pdu::SetRequest(_) => Some(RequestType::SetValue),
            Pdu::GetBulkRequest(_) => Some(RequestType::GetBulk),
            _ => None,
        }
    }

    /// The response type, if this is a response.
    pub fn response_type(&self) -> (t: Option<ResponseType>)
        ensures
            t == ResponseType::of_kind(self@.kind),
    {
        match self {
            Pdu::GetResponse(_) => Some(ResponseType::GetResponse),
            Pdu::Report(_) => Some(ResponseType::Report),
            _ => None,
        }
    }

    /// Whether this is one of the four requests.
    pub fn is_request_type(&self) -> (b: bool)
        ensures
            b == RequestType::of_kind(self@.kind) is Some,
            b == (self@.kind == PduKind::GetRequest || self@.kind == PduKind::GetNextRequest
                || self@.kind == PduKind::SetRequest || self@.kind == PduKind::GetBulkRequest),
    {
        self.request_type().is_some()
    }

    /// Whether this is one of the two responses.
    pub fn is_response_type(&self) -> (b: bool)
        ensures
            b == ResponseType::of_kind(self@.kind) is Some,
            b == (self@.kind == PduKind::GetResponse || self@.kind == PduKind::Report),
    {
        self.response_type().is_some()
    }

    /// Encodes this PDU under the context tag of its kind.
    pub fn to_element(&self) -> (e: Element)
        ensures
            e@ == self@.element(),
    {
        Element { tag: self.kind().tag(), content: self.inner().to_content() }
    }

    /// Decodes a PDU: the tag is read first and selects the variant.
    pub fn from_element(e: &Element) -> (r: Result<Pdu, DecodeError>)
        ensures
            match r {
                Ok(p) => PduView::from_element(e@) == Ok::<PduView, DecodeError>(p@),
                Err(x) => PduView::from_element(e@) == Err::<PduView, DecodeError>(x),
            },
    {
        let kind = match PduKind::from_tag(&e.tag) {
            Some(kind) => kind,
            None => {
                return Err(DecodeError::PduTag);
            },
        };
        let inner = InnerPdu::from_content(&e.content)?;
        Ok(Pdu::of_kind(kind, inner))
    }
}

/// A v1 or v2c message.
#[derive(Debug, PartialEq, Eq, PartialOrd, Ord, Clone)]
pub struct PacketV2 {
    version: Version,
    community: Community,
    pdu: Pdu,
}

/// The mathematical value of a [`PacketV2`].
pub ghost struct PacketV2View {
    pub version: Version,
    pub community: Seq<u8>,
    pub pdu: PduView,
}

impl View for PacketV2 {
    type V = PacketV2View;

    closed spec fn view(&self) -> PacketV2View {
        PacketV2View { version: self.version, community: self.community.0@, pdu: self.pdu@ }
    }
}

impl PacketV2View {
    /// The element a message travels as: the sequence of version, community
    /// and PDU.
    pub open spec fn element(self) -> ElementView {
        ElementView::of_fields(
            seq![
                self.version.spec_element(),
                ElementView::of_octets(self.community),
                self.pdu.element(),
            ],
        )
    }

    /// The message an element stands for. Every valid version is accepted.
    pub open spec fn from_element(e: ElementView) -> Result<PacketV2View, DecodeError> {
        match e.as_fields(3) {
            Err(x) => Err(x),
            Ok(fields) => match Version::spec_from_element(fields[0]) {
                Err(x) => Err(x),
                Ok(version) => match fields[1].as_octets() {
                    Err(x) => Err(x),
                    Ok(community) => match PduView::from_element(fields[2]) {
                        Err(x) => Err(x),
                        Ok(pdu) => Ok(PacketV2View { version, community, pdu }),
                    },
                },
            },
        }
    }
}

/// Decoding an encoded message gives it back.
pub proof fn lemma_packet_v2_round_trip(p: PacketV2View)
    ensures
        PacketV2View::from_element(p.element()) == Ok::<PacketV2View, DecodeError>(p),
{
    Version::lemma_round_trip(p.version);
    lemma_pdu_round_trip(p.pdu);
}

/// A decoded message encodes to the element it came from.
pub proof fn lemma_packet_v2_decode_exact(e: ElementView)
    requires
        PacketV2View::from_element(e) is Ok,
    ensures
        PacketV2View::from_element(e).unwrap().element() == e,
{
    let fields = e.content->Sequence_0;
    Version::lemma_decode_exact(fields[0]);
    lemma_pdu_decode_exact(fields[2]);
    assert(PacketV2View::from_element(e).unwrap().element().content->Sequence_0 =~= fields);
}

impl PacketV2 {
    /// A message of the given parts.
    pub fn new(version: Version, community: Community, pdu: Pdu) -> (p: PacketV2)
        ensures
            p@ == (PacketV2View { version, community: community.0@, pdu: pdu@ }),
            *p.spec_community() == community,
            *p.spec_pdu() == pdu,
    {
        PacketV2 { version, community, pdu }
    }

    /// The community, in specifications.
    pub closed spec fn spec_community(&self) -> &Community {
        &self.community
    }

    /// The PDU, in specifications.
    pub closed spec fn spec_pdu(&self) -> &Pdu {
        &self.pdu
    }

    /// The version.
    pub fn version(&self) -> (v: Version)
        ensures
            v == self@.version,
    {
        self.version
    }

    /// Replaces the version and nothing else.
    pub fn set_version(&mut self, value: Version)
        ensures
            final(self)@ == (PacketV2View { version: value, ..old(self)@ }),
            final(self).spec_community() == old(self).spec_community(),
            final(self).spec_pdu() == old(self).spec_pdu(),
    {
        self.version = value;
    }

    /// The community.
    pub fn community(&self) -> (c: &Community)
        ensures
            c == self.spec_community(),
            c.0@ == self@.community,
    {
        &self.community
    }

    /// Replaces the community and nothing else.
    pub fn set_community(&mut self, value: Community)
        ensures
            final(self)@ == (PacketV2View { community: value.0@, ..old(self)@ }),
            *final(self).spec_community() == value,
            final(self).spec_pdu() == old(self).spec_pdu(),
    {
        self.community = value;
    }

    /// The PDU.
    pub fn pdu(&self) -> (p: &Pdu)
        ensures
            p == self.spec_pdu(),
            p@ == self@.pdu,
    {
        &self.pdu
    }

    /// Lends the PDU for change; nothing else changes.
    pub fn pdu_mut(&mut self) -> (p: &mut Pdu)
        ensures
            *p == *old(self).spec_pdu(),
            *final(self).spec_pdu() == *final(p),
            final(self).spec_community() == old(self).spec_community(),
            final(self)@ == (PacketV2View { pdu: final(p)@, ..old(self)@ }),
    {
        &mut self.pdu
    }

    /// Replaces the PDU and nothing else.
    pub fn set_pdu(&mut self, value: Pdu)
        ensures
            final(self)@ == (PacketV2View { pdu: value@, ..old(self)@ }),
            final(self).spec_community() == old(self).spec_community(),
            *final(self).spec_pdu() == value,
    {
        self.pdu = value;
    }

    /// Gives up the message for its PDU.
    pub fn into_pdu(self) -> (p: Pdu)
        ensures
            p == *self.spec_pdu(),
            p@ == self@.pdu,
    {
        self.pdu
    }

    /// Encodes this message.
    pub fn to_element(&self) -> (e: Element)
        ensures
            e@ == self@.element(),
    {
        let mut fields: Vec<Element> = Vec::new();
        fields.push(self.version.to_element());
        fields.push(Element::from_octets(&self.community.0.bytes));
        fields.push(self.pdu.to_element());
        proof {
            assert(elements_view(fields@) =~= self@.element().content->Sequence_0);
        }
        Element::from_fields(fields)
    }

    /// Decodes a message.
    pub fn from_element(e: &Element) -> (r: Result<PacketV2, DecodeError>)
        ensures
            match r {
                Ok(p) => PacketV2View::from_element(e@) == Ok::<PacketV2View, DecodeError>(p@),
                Err(x) => PacketV2View::from_element(e@) == Err::<PacketV2View, DecodeError>(x),
            },
    {
        let fields = e.read_fields(3)?;
        let version = Version::from_element(&fields[0])?;
        let community = fields[1].read_octets()?;
        let pdu = Pdu::from_element(&fields[2])?;
        Ok(PacketV2::new(version, Community(OctetString::new(community)), pdu))
    }
}

} // verus!
