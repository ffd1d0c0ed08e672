//! Tagged ASN.1 elements: what the message layer hands to, and takes from, a
//! primitive codec.

use vstd::prelude::*;
use vstd::string::StringSliceAdditionalSpecFns;
use crate::error::DecodeError;
use crate::tag::{ContentKind, ContentType, Tag, TagClass};

verus! {

/// A string of octets.
#[derive(Clone, Debug, PartialEq, Eq, PartialOrd, Ord)]
pub struct OctetString {
    pub bytes: Vec<u8>,
}

impl View for OctetString {
    type V = Seq<u8>;

    open spec fn view(&self) -> Seq<u8> {
        self.bytes@
    }
}

/// A string of bits: whole octets, of which the last leaves some bits unused.
#[derive(Clone, Debug, PartialEq, Eq, PartialOrd, Ord)]
pub struct BitString {
    pub unused_bits: u8,
    pub bytes: Vec<u8>,
}

impl View for BitString {
    type V = (u8, Seq<u8>);

    open spec fn view(&self) -> (u8, Seq<u8>) {
        (self.unused_bits, self.bytes@)
    }
}

/// An object identifier: its arcs, root first.
#[derive(Clone, Debug, PartialEq, Eq, PartialOrd, Ord)]
pub struct ObjectIdentifier {
    pub arcs: Vec<u32>,
}

impl View for ObjectIdentifier {
    type V = Seq<u32>;

    open spec fn view(&self) -> Seq<u32> {
        self.arcs@
    }
}

/// What an element holds.
#[derive(Debug, PartialEq, Eq)]
pub enum Content {
    U8(u8),
    I32(i32),
    U32(u32),
    U64(u64),
    Null,
    Bytes(Vec<u8>),
    Bits(BitString),
    Oid(ObjectIdentifier),
    Sequence(Vec<Element>),
}

/// A tag and the content that travels under it.
#[derive(Debug, PartialEq, Eq)]
pub struct Element {
    pub tag: Tag,
    pub content: Content,
}

/// The mathematical value of a [`Content`].
pub ghost enum ContentView {
    U8(u8),
    I32(i32),
    U32(u32),
    U64(u64),
    Null,
    Bytes(Seq<u8>),
    Bits(u8, Seq<u8>),
    Oid(Seq<u32>),
    Sequence(Seq<ElementView>),
}

/// The mathematical value of an [`Element`].
pub ghost struct ElementView {
    pub tag: Tag,
    pub content: ContentView,
}

impl Content {
    /// The mathematical value of this content.
    pub open spec fn model(self) -> ContentView
        decreases self,
    {
        match self {
            Content::U8(v) => ContentView::U8(v),
            Content::I32(v) => ContentView::I32(v),
            Content::U32(v) => ContentView::U32(v),
            Content::U64(v) => ContentView::U64(v),
            Content::Null => ContentView::Null,
            Content::Bytes(b) => ContentView::Bytes(b@),
            Content::Bits(b) => ContentView::Bits(b.unused_bits, b.bytes@),
            Content::Oid(o) => ContentView::Oid(o.arcs@),
            Content::Sequence(items) => ContentView::Sequence(
                Seq::new(
                    items@.len(),
                    |i: int|
                        if 0 <= i < items@.len() {
                            ElementView { tag: items@[i].tag, content: items@[i].content.model() }
                        } else {
                            arbitrary()
                        },
                ),
            ),
        }
    }
}

impl View for Content {
    type V = ContentView;

    open spec fn view(&self) -> ContentView {
        self.model()
    }
}

impl View for Element {
    type V = ElementView;

    open spec fn view(&self) -> ElementView {
        ElementView { tag: self.tag, content: self.content@ }
    }
}

/// The values of a list of elements, in order.
pub open spec fn elements_view(items: Seq<Element>) -> Seq<ElementView> {
    Seq::new(items.len(), |i: int| items[i]@)
}

/// A sequence's value is the list of its fields' values.
pub proof fn lemma_sequence_view(items: Vec<Element>)
    ensures
        Content::Sequence(items)@ == ContentView::Sequence(elements_view(items@)),
{
    assert(Content::Sequence(items)@->Sequence_0 =~= elements_view(items@));
}

/// A copy of a list of plain items.
pub fn copy_items<T: Copy>(items: &Vec<T>) -> (out: Vec<T>)
    ensures
        out@ == items@,
{
    let mut out: Vec<T> = Vec::new();
    let mut i: usize = 0;
    while i < items.len()
        invariant
            i <= items.len(),
            out@ == items@.take(i as int),
        decreases items.len() - i,
    {
        out.push(items[i]);
        proof {
            assert(items@.take(i + 1) =~= items@.take(i as int).push(items@[i as int]));
        }
        i += 1;
    }
    proof {
        assert(items@.take(items.len() as int) =~= items@);
    }
    out
}

impl OctetString {
    /// The octets of a string, in its UTF-8 encoding.
    pub fn from_str(s: &str) -> (o: OctetString)
        ensures
            o@ == s.spec_bytes(),
    {
        OctetString { bytes: vstd::slice::slice_to_vec(s.as_bytes()) }
    }

    /// An octet string that holds the given octets.
    pub fn new(bytes: Vec<u8>) -> (o: OctetString)
        ensures
            o@ == bytes@,
    {
        OctetString { bytes }
    }
}

impl ContentView {
    /// The shape of a content.
    pub open spec fn kind(self) -> ContentKind {
        match self {
            ContentView::U8(_) => ContentKind::U8,
            ContentView::I32(_) => ContentKind::I32,
            ContentView::U32(_) => ContentKind::U32,
            ContentView::U64(_) => ContentKind::U64,
            ContentView::Null => ContentKind::Null,
            ContentView::Bytes(_) => ContentKind::Bytes,
            ContentView::Bits(_, _) => ContentKind::Bits,
            ContentView::Oid(_) => ContentKind::Oid,
            ContentView::Sequence(_) => ContentKind::Sequence,
        }
    }

    /// The fields of a sequence that must have exactly `count` of them.
    pub open spec fn fields(self, count: nat) -> Result<Seq<ElementView>, DecodeError> {
        match self {
            ContentView::Sequence(items) => if items.len() == count {
                Ok(items)
            } else {
                Err(DecodeError::FieldCount)
            },
            _ => Err(DecodeError::FieldContent),
        }
    }
}

impl ElementView {
    /// An INTEGER that holds an 8-bit number.
    pub open spec fn of_u8(v: u8) -> ElementView {
        ElementView { tag: Tag::integer(), content: ContentView::U8(v) }
    }

    /// An INTEGER that holds an unsigned 32-bit number.
    pub open spec fn of_u32(v: u32) -> ElementView {
        ElementView { tag: Tag::integer(), content: ContentView::U32(v) }
    }

    /// An OCTET STRING.
    pub open spec fn of_octets(bytes: Seq<u8>) -> ElementView {
        ElementView { tag: Tag::octet_string(), content: ContentView::Bytes(bytes) }
    }

    /// An OBJECT IDENTIFIER.
    pub open spec fn of_oid(arcs: Seq<u32>) -> ElementView {
        ElementView { tag: Tag::object_identifier(), content: ContentView::Oid(arcs) }
    }

    /// A SEQUENCE of the given fields.
    pub open spec fn of_fields(items: Seq<ElementView>) -> ElementView {
        ElementView { tag: Tag::sequence(), content: ContentView::Sequence(items) }
    }

    /// The 8-bit number of an INTEGER element.
    pub open spec fn as_u8(self) -> Result<u8, DecodeError> {
        if self.tag != Tag::integer() {
            Err(DecodeError::FieldTag)
        } else {
            match self.content {
                ContentView::U8(v) => Ok(v),
                _ => Err(DecodeError::FieldContent),
            }
        }
    }

    /// The unsigned 32-bit number of an INTEGER element.
    pub open spec fn as_u32(self) -> Result<u32, DecodeError> {
        if self.tag != Tag::integer() {
            Err(DecodeError::FieldTag)
        } else {
            match self.content {
                ContentView::U32(v) => Ok(v),
                _ => Err(DecodeError::FieldContent),
            }
        }
    }

    /// The octets of an OCTET STRING element.
    pub open spec fn as_octets(self) -> Result<Seq<u8>, DecodeError> {
        if self.tag != Tag::octet_string() {
            Err(DecodeError::FieldTag)
        } else {
            match self.content {
                ContentView::Bytes(b) => Ok(b),
                _ => Err(DecodeError::FieldContent),
            }
        }
    }

    /// The arcs of an OBJECT IDENTIFIER element.
    pub open spec fn as_oid(self) -> Result<Seq<u32>, DecodeError> {
        if self.tag != Tag::object_identifier() {
            Err(DecodeError::FieldTag)
        } else {
            match self.content {
                ContentView::Oid(arcs) => Ok(arcs),
                _ => Err(DecodeError::FieldContent),
            }
        }
    }

    /// The fields of a SEQUENCE element, however many there are.
    pub open spec fn as_list(self) -> Result<Seq<ElementView>, DecodeError> {
        if self.tag != Tag::sequence() {
            Err(DecodeError::FieldTag)
        } else {
            match self.content {
                ContentView::Sequence(items) => Ok(items),
                _ => Err(DecodeError::FieldContent),
            }
        }
    }

    /// The fields of a SEQUENCE element that must have exactly `count` of them.
    pub open spec fn as_fields(self, count: nat) -> Result<Seq<ElementView>, DecodeError> {
        if self.tag != Tag::sequence() {
            Err(DecodeError::FieldTag)
        } else {
            self.content.fields(count)
        }
    }
}

impl Content {
    /// The shape of this content.
    pub fn kind(&self) -> (k: ContentKind)
        ensures
            k == self@.kind(),
    {
        match self {
            Content::U8(_) => ContentKind::U8,
            Content::I32(_) => ContentKind::I32,
            Content::U32(_) => ContentKind::U32,
            Content::U64(_) => ContentKind::U64,
            Content::Null => ContentKind::Null,
            Content::Bytes(_) => ContentKind::Bytes,
            Content::Bits(_) => ContentKind::Bits,
            Content::Oid(_) => ContentKind::Oid,
            Content::Sequence(_) => ContentKind::Sequence,
        }
    }

    /// The fields of a sequence that must have exactly `count` of them.
    pub fn read_fields(&self, count: usize) -> (r: Result<&Vec<Element>, DecodeError>)
        ensures
            match r {
                Ok(items) => self@.fields(count as nat) == Ok::<Seq<ElementView>, DecodeError>(
                    elements_view(items@),
                ),
                Err(x) => self@.fields(count as nat) == Err::<Seq<ElementView>, DecodeError>(x),
            },
    {
        match self {
            Content::Sequence(items) => {
                proof {
                    lemma_sequence_view(*items);
                }
                if items.len() == count {
                    Ok(items)
                } else {
                    Err(DecodeError::FieldCount)
                }
            },
            _ => Err(DecodeError::FieldContent),
        }
    }
}

impl Element {
    /// An INTEGER that holds an 8-bit number.
    pub fn from_u8(v: u8) -> (e: Element)
        ensures
            e@ == ElementView::of_u8(v),
    {
        Element { tag: Tag::new(TagClass::Universal, 2, ContentType::Primitive), content: Content::U8(v) }
    }

    /// An INTEGER that holds an unsigned 32-bit number.
    pub fn from_u32(v: u32) -> (e: Element)
        ensures
            e@ == ElementView::of_u32(v),
    {
        Element { tag: Tag::new(TagClass::Universal, 2, ContentType::Primitive), content: Content::U32(v) }
    }

    /// An OCTET STRING that holds a copy of the given octets.
    pub fn from_octets(bytes: &Vec<u8>) -> (e: Element)
        ensures
            e@ == ElementView::of_octets(bytes@),
    {
        Element {
            tag: Tag::new(TagClass::Universal, 4, ContentType::Primitive),
            content: Content::Bytes(copy_items(bytes)),
        }
    }

    /// An OBJECT IDENTIFIER that holds a copy of the given arcs.
    pub fn from_oid(oid: &ObjectIdentifier) -> (e: Element)
        ensures
            e@ == ElementView::of_oid(oid@),
    {
        Element {
            tag: Tag::new(TagClass::Universal, 6, ContentType::Primitive),
            content: Content::Oid(ObjectIdentifier { arcs: copy_items(&oid.arcs) }),
        }
    }

    /// A SEQUENCE of the given fields.
    pub fn from_fields(items: Vec<Element>) -> (e: Element)
        ensures
            e@ == ElementView::of_fields(elements_view(items@)),
    {
        proof {
            lemma_sequence_view(items);
        }
        Element {
            tag: Tag::new(TagClass::Universal, 16, ContentType::Constructed),
            content: Content::Sequence(items),
        }
    }

    /// Whether the element carries the universal tag of the given number and
    /// content type.
    fn has_universal_tag(&self, tagnum: u8, content_type: ContentType) -> (b: bool)
        ensures
            b == (self.tag == (Tag { class: TagClass::Universal, tagnum, content_type })),
    {
        self.tag.same(&Tag::new(TagClass::Universal, tagnum, content_type))
    }

    /// The 8-bit number of an INTEGER element.
    pub fn read_u8(&self) -> (r: Result<u8, DecodeError>)
        ensures
            r == self@.as_u8(),
    {
        if !self.has_universal_tag(2, ContentType::Primitive) {
            return Err(DecodeError::FieldTag);
        }
        match &self.content {
            Content::U8(v) => Ok(*v),
            _ => Err(DecodeError::FieldContent),
        }
    }

    /// The unsigned 32-bit number of an INTEGER element.
    pub fn read_u32(&self) -> (r: Result<u32, DecodeError>)
        ensures
            r == self@.as_u32(),
    {
        if !self.has_universal_tag(2, ContentType::Primitive) {
            return Err(DecodeError::FieldTag);
        }
        match &self.content {
            Content::U32(v) => Ok(*v),
            _ => Err(DecodeError::FieldContent),
        }
    }

    /// A copy of the octets of an OCTET STRING element.
    pub fn read_octets(&self) -> (r: Result<Vec<u8>, DecodeError>)
        ensures
            match r {
                Ok(bytes) => self@.as_octets() == Ok::<Seq<u8>, DecodeError>(bytes@),
                Err(x) => self@.as_octets() == Err::<Seq<u8>, DecodeError>(x),
            },
    {
        if !self.has_universal_tag(4, ContentType::Primitive) {
            return Err(DecodeError::FieldTag);
        }
        match &self.content {
            Content::Bytes(b) => Ok(copy_items(b)),
            _ => Err(DecodeError::FieldContent),
        }
    }

    /// A copy of the identifier of an OBJECT IDENTIFIER element.
    pub fn read_oid(&self) -> (r: Result<ObjectIdentifier, DecodeError>)
        ensures
            match r {
                Ok(oid) => self@.as_oid() == Ok::<Seq<u32>, DecodeError>(oid@),
                Err(x) => self@.as_oid() == Err::<Seq<u32>, DecodeError>(x),
            },
    {
        if !self.has_universal_tag(6, ContentType::Primitive) {
            return Err(DecodeError::FieldTag);
        }
        match &self.content {
            Content::Oid(o) => Ok(ObjectIdentifier { arcs: copy_items(&o.arcs) }),
            _ => Err(DecodeError::FieldContent),
        }
    }

    /// The fields of a SEQUENCE element, however many there are.
    pub fn read_fields_any(&self) -> (r: Result<&Vec<Element>, DecodeError>)
        ensures
            match r {
                Ok(items) => self@.as_list() == Ok::<Seq<ElementView>, DecodeError>(
                    elements_view(items@),
                ),
                Err(x) => self@.as_list() == Err::<Seq<ElementView>, DecodeError>(x),
            },
    {
        if !self.has_universal_tag(16, ContentType::Constructed) {
            return Err(DecodeError::FieldTag);
        }
        match &self.content {
            Content::Sequence(items) => {
                proof {
                    lemma_sequence_view(*items);
                }
                Ok(items)
            },
            _ => Err(DecodeError::FieldContent),
        }
    }

    /// The fields of a SEQUENCE element that must have exactly `count` of them.
    pub fn read_fields(&self, count: usize) -> (r: Result<&Vec<Element>, DecodeError>)
        ensures
            match r {
                Ok(items) => self@.as_fields(count as nat) == Ok::<Seq<ElementView>, DecodeError>(
                    elements_view(items@),
                ),
                Err(x) => self@.as_fields(count as nat) == Err::<Seq<ElementView>, DecodeError>(x),
            },
    {
        if !self.has_universal_tag(16, ContentType::Constructed) {
            return Err(DecodeError::FieldTag);
        }
        self.content.read_fields(count)
    }
}

} // verus!
