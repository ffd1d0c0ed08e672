//! The layout of a message: what stands at each place, and what to read
//! there once the tag is known.

use vstd::prelude::*;
use crate::element::{ContentView, ElementView};
use crate::error::DecodeError;
use crate::pdu::{lemma_packet_v2_round_trip, InnerPduView, PacketV2View, PduView};
use crate::tag::{
    ContentKind, ContentType, PayloadKind, PduKind, Tag, TagClass, VariableKind,
};
use crate::types::{MessageFlags, SecurityModel, Version};
use crate::v3::{
    lemma_packet_v3_round_trip, PacketV3View, PduV3View, ScopedPduView, SecurityParameterView,
};
use crate::variable::{lemma_bindings_decode_each, VarBindView, VariableView};

verus! {

/// A place in a message.
#[derive(Clone, Copy, Debug, PartialEq, Eq, Structural)]
pub enum Shape {
    /// An INTEGER that holds an 8-bit number.
    Number8,
    /// An INTEGER that holds an unsigned 32-bit number.
    Number32,
    /// An OCTET STRING.
    Octets,
    /// An OBJECT IDENTIFIER.
    Identifier,
    /// The value of a variable, under any of the registered tags.
    Value,
    /// A name and a value.
    Binding,
    /// Any number of bindings.
    Bindings,
    /// A PDU, under any of the registered tags.
    Pdu,
    /// The security parameters of a v3 message.
    Parameters,
    /// The payload of a v3 message, scoped or encrypted.
    Payload,
    /// A v1 or v2c message.
    MessageV2,
    /// A v3 message.
    MessageV3,
}

/// What to read under a tag.
#[derive(Debug, PartialEq, Eq)]
pub enum Reading {
    /// One primitive of the given kind.
    Primitive(ContentKind),
    /// A sequence of exactly these fields, in this order.
    Fields(Vec<Shape>),
    /// A sequence of any number of items of one shape.
    Items(Shape),
}

/// The mathematical value of a [`Reading`].
pub ghost enum ReadingView {
    Primitive(ContentKind),
    Fields(Seq<Shape>),
    Items(Shape),
}

impl View for Reading {
    type V = ReadingView;

    open spec fn view(&self) -> ReadingView {
        match self {
            Reading::Primitive(kind) => ReadingView::Primitive(*kind),
            Reading::Fields(fields) => ReadingView::Fields(fields@),
            Reading::Items(item) => ReadingView::Items(*item),
        }
    }
}

impl DecodeError {
    /// Whether a failure is one of layout: a tag that may not stand at its
    /// place, content of another kind than the tag calls for, or a sequence
    /// of the wrong number of fields.
    pub open spec fn is_layout(self) -> bool {
        match self {
            DecodeError::VariableTag | DecodeError::PduTag | DecodeError::PayloadTag
            | DecodeError::FieldTag | DecodeError::FieldContent | DecodeError::FieldCount => true,
            _ => false,
        }
    }
}

impl Shape {
    /// The fields of a PDU.
    pub open spec fn pdu_fields() -> Seq<Shape> {
        seq![Shape::Number32, Shape::Number32, Shape::Number32, Shape::Bindings]
    }

    /// The fields of a scoped PDU.
    pub open spec fn scoped_fields() -> Seq<Shape> {
        seq![Shape::Octets, Shape::Octets, Shape::Pdu]
    }

    /// The fields of the security parameters.
    pub open spec fn parameter_fields() -> Seq<Shape> {
        seq![
            Shape::Octets,
            Shape::Number32,
            Shape::Number32,
            Shape::Octets,
            Shape::Octets,
            Shape::Octets,
        ]
    }

    /// The fields of a v1 or v2c message.
    pub open spec fn message_v2_fields() -> Seq<Shape> {
        seq![Shape::Number8, Shape::Octets, Shape::Pdu]
    }

    /// The fields of a v3 message.
    pub open spec fn message_v3_fields() -> Seq<Shape> {
        seq![
            Shape::Number8,
            Shape::Number32,
            Shape::Number32,
            Shape::Octets,
            Shape::Number8,
            Shape::Parameters,
            Shape::Payload,
        ]
    }

    /// What a tag found at a place calls for, or why it may not stand there.
    pub open spec fn spec_reading(self, tag: Tag) -> Result<ReadingView, DecodeError> {
        match self {
            Shape::Number8 => Self::under(tag, Tag::integer(), ReadingView::Primitive(ContentKind::U8)),
            Shape::Number32 => Self::under(
                tag,
                Tag::integer(),
                ReadingView::Primitive(ContentKind::U32),
            ),
            Shape::Octets => Self::under(
                tag,
                Tag::octet_string(),
                ReadingView::Primitive(ContentKind::Bytes),
            ),
            Shape::Identifier => Self::under(
                tag,
                Tag::object_identifier(),
                ReadingView::Primitive(ContentKind::Oid),
            ),
            Shape::Value => match VariableKind::spec_from_tag(tag) {
                Some(kind) => Ok(ReadingView::Primitive(kind.spec_content_kind())),
                None => Err(DecodeError::VariableTag),
            },
            Shape::Binding => Self::under(
                tag,
                Tag::sequence(),
                ReadingView::Fields(seq![Shape::Identifier, Shape::Value]),
            ),
            Shape::Bindings => Self::under(tag, Tag::sequence(), ReadingView::Items(Shape::Binding)),
            Shape::Pdu => match PduKind::spec_from_tag(tag) {
                Some(_) => Ok(ReadingView::Fields(Self::pdu_fields())),
                None => Err(DecodeError::PduTag),
            },
            Shape::Parameters => Self::under(
                tag,
                Tag::sequence(),
                ReadingView::Fields(Self::parameter_fields()),
            ),
            Shape::Payload => match PayloadKind::spec_from_tag(tag) {
                Some(PayloadKind::Scoped) => Ok(ReadingView::Fields(Self::scoped_fields())),
                Some(PayloadKind::Crypted) => Ok(ReadingView::Primitive(ContentKind::Bytes)),
                None => Err(DecodeError::PayloadTag),
            },
            Shape::MessageV2 => Self::under(
                tag,
                Tag::sequence(),
                ReadingView::Fields(Self::message_v2_fields()),
            ),
            Shape::MessageV3 => Self::under(
                tag,
                Tag::sequence(),
                ReadingView::Fields(Self::message_v3_fields()),
            ),
        }
    }

    /// The reading for a place that admits one tag only.
    pub open spec fn under(found: Tag, wanted: Tag, reading: ReadingView) -> Result<
        ReadingView,
        DecodeError,
    > {
        if found == wanted {
            Ok(reading)
        } else {
            Err(DecodeError::FieldTag)
        }
    }

    /// Whether an element has the layout of a place: its tag may stand
    /// there, and its content is what that tag calls for, all the way down.
    pub open spec fn admits(self, e: ElementView) -> bool
        decreases e,
    {
        match self.spec_reading(e.tag) {
            Err(_) => false,
            Ok(ReadingView::Primitive(kind)) => e.content.kind() == kind,
            Ok(ReadingView::Fields(fields)) => match e.content {
                ContentView::Sequence(items) => {
                    &&& items.len() == fields.len()
                    &&& forall|i: int|
                        0 <= i < items.len() ==> (#[trigger] fields[i]).admits(items[i])
                },
                _ => false,
            },
            Ok(ReadingView::Items(item)) => match e.content {
                ContentView::Sequence(items) => forall|i: int|
                    0 <= i < items.len() ==> item.admits(#[trigger] items[i]),
                _ => false,
            },
        }
    }
}

impl Shape {
    /// The reading for a place that admits one tag only.
    fn read_under(found: &Tag, wanted: Tag, reading: Reading) -> (r: Result<Reading, DecodeError>)
        ensures
            match r {
                Ok(x) => Self::under(*found, wanted, reading@) == Ok::<ReadingView, DecodeError>(
                    x@,
                ),
                Err(x) => Self::under(*found, wanted, reading@) == Err::<ReadingView, DecodeError>(
                    x,
                ),
            },
    {
        if found.same(&wanted) {
            Ok(reading)
        } else {
            Err(DecodeError::FieldTag)
        }
    }

    /// Tells what to read under a tag found at this place, or why the tag
    /// may not stand there.
    pub fn reading(self, tag: &Tag) -> (r: Result<Reading, DecodeError>)
        ensures
            match r {
                Ok(x) => self.spec_reading(*tag) == Ok::<ReadingView, DecodeError>(x@),
                Err(x) => self.spec_reading(*tag) == Err::<ReadingView, DecodeError>(x),
            },
    {
        let integer = Tag::new(TagClass::Universal, 2, ContentType::Primitive);
        let sequence = Tag::new(TagClass::Universal, 16, ContentType::Constructed);
        match self {
            Shape::Number8 => Self::read_under(tag, integer, Reading::Primitive(ContentKind::U8)),
            Shape::Number32 => Self::read_under(tag, integer, Reading::Primitive(ContentKind::U32)),
            Shape::Octets => Self::read_under(
                tag,
                Tag::new(TagClass::Universal, 4, ContentType::Primitive),
                Reading::Primitive(ContentKind::Bytes),
            ),
            Shape::Identifier => Self::read_under(
                tag,
                Tag::new(TagClass::Universal, 6, ContentType::Primitive),
                Reading::Primitive(ContentKind::Oid),
            ),
            Shape::Value => match VariableKind::from_tag(tag) {
                Some(kind) => Ok(Reading::Primitive(kind.content_kind())),
                None => Err(DecodeError::VariableTag),
            },
            Shape::Binding => {
                let fields = vec![Shape::Identifier, Shape::Value];
                proof {
                    assert(fields@ =~= seq![Shape::Identifier, Shape::Value]);
                }
                Self::read_under(tag, sequence, Reading::Fields(fields))
            },
            Shape::Bindings => Self::read_under(tag, sequence, Reading::Items(Shape::Binding)),
            Shape::Pdu => match PduKind::from_tag(tag) {
                Some(_) => {
                    let fields = vec![
                        Shape::Number32,
                        Shape::Number32,
                        Shape::Number32,
                        Shape::Bindings,
                    ];
                    proof {
                        assert(fields@ =~= Self::pdu_fields());
                    }
                    Ok(Reading::Fields(fields))
                },
                None => Err(DecodeError::PduTag),
            },
            Shape::Parameters => {
                let fields = vec![
                    Shape::Octets,
                    Shape::Number32,
                    Shape::Number32,
                    Shape::Octets,
                    Shape::Octets,
                    Shape::Octets,
                ];
                proof {
                    assert(fields@ =~= Self::parameter_fields());
                }
                Self::read_under(tag, sequence, Reading::Fields(fields))
            },
            Shape::Payload => match PayloadKind::from_tag(tag) {
                Some(PayloadKind::Scoped) => {
                    let fields = vec![Shape::Octets, Shape::Octets, Shape::Pdu];
                    proof {
                        assert(fields@ =~= Self::scoped_fields());
                    }
                    Ok(Reading::Fields(fields))
                },
                Some(PayloadKind::Crypted) => Ok(Reading::Primitive(ContentKind::Bytes)),
                None => Err(DecodeError::PayloadTag),
            },
            Shape::MessageV2 => {
                let fields = vec![Shape::Number8, Shape::Octets, Shape::Pdu];
                proof {
                    assert(fields@ =~= Self::message_v2_fields());
                }
                Self::read_under(tag, sequence, Reading::Fields(fields))
            },
            Shape::MessageV3 => {
                let fields = vec![
                    Shape::Number8,
                    Shape::Number32,
                    Shape::Number32,
                    Shape::Octets,
                    Shape::Number8,
                    Shape::Parameters,
                    Shape::Payload,
                ];
                proof {
                    assert(fields@ =~= Self::message_v3_fields());
                }
                Self::read_under(tag, sequence, Reading::Fields(fields))
            },
        }
    }
}

/// Whether a decoding met no failure of layout: it succeeded, or failed for
/// a value only.
pub open spec fn no_layout_failure<T>(r: Result<T, DecodeError>) -> bool {
    match r {
        Ok(_) => true,
        Err(x) => !x.is_layout(),
    }
}

/// At the four plain places, an element has the layout exactly if it can be
/// read there, and reading fails for the layout only.
pub proof fn lemma_plain_layout(e: ElementView)
    ensures
        Shape::Number8.admits(e) <==> e.as_u8() is Ok,
        Shape::Number32.admits(e) <==> e.as_u32() is Ok,
        Shape::Octets.admits(e) <==> e.as_octets() is Ok,
        Shape::Identifier.admits(e) <==> e.as_oid() is Ok,
        no_layout_failure(e.as_u8()) <==> e.as_u8() is Ok,
        no_layout_failure(e.as_u32()) <==> e.as_u32() is Ok,
        no_layout_failure(e.as_octets()) <==> e.as_octets() is Ok,
        no_layout_failure(e.as_oid()) <==> e.as_oid() is Ok,
{
}

/// A value decodes only from an element of its layout, and an element of
/// that layout fails for a value at most.
pub proof fn lemma_value_layout(e: ElementView)
    ensures
        VariableView::from_element(e) is Ok ==> Shape::Value.admits(e),
        Shape::Value.admits(e) ==> no_layout_failure(VariableView::from_element(e)),
{
}

/// A binding decodes only from an element of its layout, and an element of
/// that layout fails for a value at most.
pub proof fn lemma_binding_layout(e: ElementView)
    ensures
        VarBindView::from_element(e) is Ok ==> Shape::Binding.admits(e),
        Shape::Binding.admits(e) ==> no_layout_failure(VarBindView::from_element(e)),
{
    let fields = seq![Shape::Identifier, Shape::Value];
    if e.tag == Tag::sequence() && e.content is Sequence && e.content->Sequence_0.len() == 2 {
        let items = e.content->Sequence_0;
        lemma_plain_layout(items[0]);
        lemma_value_layout(items[1]);
        if VarBindView::from_element(e) is Ok {
            assert forall|i: int| 0 <= i < items.len() implies (#[trigger] fields[i]).admits(
                items[i],
            ) by {}
        }
        if Shape::Binding.admits(e) {
            assert(fields[0].admits(items[0]));
            assert(fields[1].admits(items[1]));
        }
    }
}

/// A list of bindings decodes only from elements of the binding layout, and
/// elements of that layout fail for a value at most.
pub proof fn lemma_bindings_layout(items: Seq<ElementView>)
    ensures
        VarBindView::from_list_elements(items) is Ok ==> forall|i: int|
            0 <= i < items.len() ==> Shape::Binding.admits(#[trigger] items[i]),
        (forall|i: int| 0 <= i < items.len() ==> Shape::Binding.admits(#[trigger] items[i]))
            ==> no_layout_failure(VarBindView::from_list_elements(items)),
    decreases items.len(),
{
    lemma_bindings_decode_each(items);
    if VarBindView::from_list_elements(items) is Ok {
        assert forall|i: int| 0 <= i < items.len() implies Shape::Binding.admits(
            #[trigger] items[i],
        ) by {
            assert(VarBindView::from_element(items[i]) is Ok);
            lemma_binding_layout(items[i]);
        }
    }
    if items.len() > 0 && (forall|i: int|
        0 <= i < items.len() ==> Shape::Binding.admits(#[trigger] items[i])) {
        let front = items.drop_last();
        assert forall|i: int| 0 <= i < front.len() implies Shape::Binding.admits(
            #[trigger] front[i],
        ) by {
            assert(front[i] == items[i]);
        }
        lemma_bindings_layout(front);
        assert(Shape::Binding.admits(items[items.len() - 1]));
        lemma_binding_layout(items.last());
    }
}

/// A PDU decodes only from an element of its layout, and an element of that
/// layout fails for a value at most.
pub proof fn lemma_pdu_layout(e: ElementView)
    ensures
        PduView::from_element(e) is Ok ==> Shape::Pdu.admits(e),
        Shape::Pdu.admits(e) ==> no_layout_failure(PduView::from_element(e)),
{
    let fields = Shape::pdu_fields();
    if PduKind::spec_from_tag(e.tag) is Some && e.content is Sequence
        && e.content->Sequence_0.len() == 4 {
        let items = e.content->Sequence_0;
        lemma_plain_layout(items[0]);
        lemma_plain_layout(items[1]);
        lemma_plain_layout(items[2]);
        lemma_list_layout(items[3]);
        if PduView::from_element(e) is Ok {
            assert(InnerPduView::from_content(e.content) is Ok);
            assert forall|i: int| 0 <= i < items.len() implies (#[trigger] fields[i]).admits(
                items[i],
            ) by {}
        }
        if Shape::Pdu.admits(e) {
            assert(fields[0].admits(items[0]));
            assert(fields[1].admits(items[1]));
            assert(fields[2].admits(items[2]));
            assert(fields[3].admits(items[3]));
        }
    }
}

/// The list inside a PDU decodes only from an element of its layout, and an
/// element of that layout fails for a value at most.
proof fn lemma_list_layout(e: ElementView)
    ensures
        InnerPduView::bindings_from_element(e) is Ok ==> Shape::Bindings.admits(e),
        Shape::Bindings.admits(e) ==> no_layout_failure(InnerPduView::bindings_from_element(e)),
{
    if e.tag == Tag::sequence() && e.content is Sequence {
        lemma_bindings_layout(e.content->Sequence_0);
    }
}

/// A v1 or v2c message decodes only from an element of its layout, and an
/// element of that layout fails for a value at most.
pub proof fn lemma_message_v2_layout(e: ElementView)
    ensures
        PacketV2View::from_element(e) is Ok ==> Shape::MessageV2.admits(e),
        Shape::MessageV2.admits(e) ==> no_layout_failure(PacketV2View::from_element(e)),
{
    let fields = Shape::message_v2_fields();
    if e.tag == Tag::sequence() && e.content is Sequence && e.content->Sequence_0.len() == 3 {
        let items = e.content->Sequence_0;
        lemma_plain_layout(items[0]);
        lemma_plain_layout(items[1]);
        lemma_pdu_layout(items[2]);
        if PacketV2View::from_element(e) is Ok {
            assert forall|i: int| 0 <= i < items.len() implies (#[trigger] fields[i]).admits(
                items[i],
            ) by {}
        }
        if Shape::MessageV2.admits(e) {
            assert(fields[0].admits(items[0]));
            assert(fields[1].admits(items[1]));
            assert(fields[2].admits(items[2]));
        }
    }
}

/// Security parameters decode exactly from the elements of their layout.
pub proof fn lemma_parameters_layout(e: ElementView)
    ensures
        SecurityParameterView::from_element(e) is Ok <==> Shape::Parameters.admits(e),
        Shape::Parameters.admits(e) ==> no_layout_failure(SecurityParameterView::from_element(e)),
{
    let fields = Shape::parameter_fields();
    if e.tag == Tag::sequence() && e.content is Sequence && e.content->Sequence_0.len() == 6 {
        let items = e.content->Sequence_0;
        lemma_plain_layout(items[0]);
        lemma_plain_layout(items[1]);
        lemma_plain_layout(items[2]);
        lemma_plain_layout(items[3]);
        lemma_plain_layout(items[4]);
        lemma_plain_layout(items[5]);
        if SecurityParameterView::from_element(e) is Ok {
            assert forall|i: int| 0 <= i < items.len() implies (#[trigger] fields[i]).admits(
                items[i],
            ) by {}
        }
        if Shape::Parameters.admits(e) {
            assert(fields[0].admits(items[0]));
            assert(fields[1].admits(items[1]));
            assert(fields[2].admits(items[2]));
            assert(fields[3].admits(items[3]));
            assert(fields[4].admits(items[4]));
            assert(fields[5].admits(items[5]));
        }
    }
}

/// A payload decodes only from an element of its layout, and an element of
/// that layout fails for a value at most.
pub proof fn lemma_payload_layout(e: ElementView)
    ensures
        PduV3View::from_element(e) is Ok ==> Shape::Payload.admits(e),
        Shape::Payload.admits(e) ==> no_layout_failure(PduV3View::from_element(e)),
{
    let fields = Shape::scoped_fields();
    if e.tag == Tag::sequence() && e.content is Sequence && e.content->Sequence_0.len() == 3 {
        let items = e.content->Sequence_0;
        lemma_plain_layout(items[0]);
        lemma_plain_layout(items[1]);
        lemma_pdu_layout(items[2]);
        if PduV3View::from_element(e) is Ok {
            assert(ScopedPduView::from_element(e) is Ok);
            assert forall|i: int| 0 <= i < items.len() implies (#[trigger] fields[i]).admits(
                items[i],
            ) by {}
        }
        if Shape::Payload.admits(e) {
            assert(fields[0].admits(items[0]));
            assert(fields[1].admits(items[1]));
            assert(fields[2].admits(items[2]));
        }
    }
}

/// A v3 message decodes only from an element of its layout, and an element
/// of that layout fails for a value at most.
pub proof fn lemma_message_v3_layout(e: ElementView)
    ensures
        PacketV3View::from_element(e) is Ok ==> Shape::MessageV3.admits(e),
        Shape::MessageV3.admits(e) ==> no_layout_failure(PacketV3View::from_element(e)),
{
    let fields = Shape::message_v3_fields();
    if e.tag == Tag::sequence() && e.content is Sequence && e.content->Sequence_0.len() == 7 {
        let items = e.content->Sequence_0;
        lemma_plain_layout(items[0]);
        lemma_plain_layout(items[1]);
        lemma_plain_layout(items[2]);
        lemma_plain_layout(items[3]);
        lemma_plain_layout(items[4]);
        lemma_parameters_layout(items[5]);
        lemma_payload_layout(items[6]);
        if PacketV3View::from_element(e) is Ok {
            assert(Version::spec_from_element(items[0]) is Ok);
            assert(MessageFlags::spec_from_element(items[3]) is Ok);
            assert(SecurityModel::spec_from_element(items[4]) is Ok);
            assert forall|i: int| 0 <= i < items.len() implies (#[trigger] fields[i]).admits(
                items[i],
            ) by {}
        }
        if Shape::MessageV3.admits(e) {
            assert(fields[0].admits(items[0]));
            assert(fields[1].admits(items[1]));
            assert(fields[2].admits(items[2]));
            assert(fields[3].admits(items[3]));
            assert(fields[4].admits(items[4]));
            assert(fields[5].admits(items[5]));
            assert(fields[6].admits(items[6]));
        }
    }
}

/// Every encoded message has the layout of its place.
pub proof fn lemma_encoded_layout(v2: PacketV2View, v3: PacketV3View)
    ensures
        Shape::MessageV2.admits(v2.element()),
        Shape::MessageV3.admits(v3.element()),
{
    lemma_packet_v2_round_trip(v2);
    lemma_message_v2_layout(v2.element());
    lemma_packet_v3_round_trip(v3);
    lemma_message_v3_layout(v3.element());
}

} // verus!
