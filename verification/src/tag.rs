//! The tag registry: every ASN.1 tag the message layer writes or accepts.

use vstd::prelude::*;

verus! {

/// Class of an ASN.1 tag.
#[derive(Clone, Copy, Debug, PartialEq, Eq, Structural)]
pub enum TagClass {
    Universal,
    Application,
    ContextSpecific,
    Private,
}

/// Whether an element holds raw content or further elements.
#[derive(Clone, Copy, Debug, PartialEq, Eq, Structural)]
pub enum ContentType {
    Primitive,
    Constructed,
}

/// An ASN.1 tag: class, number and content type.
#[derive(Clone, Copy, Debug, PartialEq, Eq, Structural)]
pub struct Tag {
    pub class: TagClass,
    pub tagnum: u8,
    pub content_type: ContentType,
}

impl Tag {
    /// A primitive tag of the universal class.
    pub open spec fn universal(tagnum: u8) -> Tag {
        Tag { class: TagClass::Universal, tagnum, content_type: ContentType::Primitive }
    }

    /// A primitive tag of the application class.
    pub open spec fn application(tagnum: u8) -> Tag {
        Tag { class: TagClass::Application, tagnum, content_type: ContentType::Primitive }
    }

    /// A primitive context-specific tag.
    pub open spec fn context(tagnum: u8) -> Tag {
        Tag { class: TagClass::ContextSpecific, tagnum, content_type: ContentType::Primitive }
    }

    /// A constructed context-specific tag.
    pub open spec fn context_constructed(tagnum: u8) -> Tag {
        Tag { class: TagClass::ContextSpecific, tagnum, content_type: ContentType::Constructed }
    }

    /// The universal INTEGER tag.
    pub open spec fn integer() -> Tag {
        Tag::universal(2)
    }

    /// The universal BIT STRING tag.
    pub open spec fn bit_string() -> Tag {
        Tag::universal(3)
    }

    /// The universal OCTET STRING tag.
    pub open spec fn octet_string() -> Tag {
        Tag::universal(4)
    }

    /// The universal NULL tag.
    pub open spec fn null() -> Tag {
        Tag::universal(5)
    }

    /// The universal OBJECT IDENTIFIER tag.
    pub open spec fn object_identifier() -> Tag {
        Tag::universal(6)
    }

    /// The universal, constructed SEQUENCE tag.
    pub open spec fn sequence() -> Tag {
        Tag { class: TagClass::Universal, tagnum: 16, content_type: ContentType::Constructed }
    }

    /// Builds a tag from its three parts.
    pub fn new(class: TagClass, tagnum: u8, content_type: ContentType) -> (t: Tag)
        ensures
            t == (Tag { class, tagnum, content_type }),
    {
        Tag { class, tagnum, content_type }
    }

    /// Whether two tags agree in class, number and content type.
    pub fn same(&self, other: &Tag) -> (b: bool)
        ensures
            b == (*self == *other),
    {
        let class_eq = match (self.class, other.class) {
            (TagClass::Universal, TagClass::Universal) => true,
            (TagClass::Application, TagClass::Application) => true,
            (TagClass::ContextSpecific, TagClass::ContextSpecific) => true,
            (TagClass::Private, TagClass::Private) => true,
            _ => false,
        };
        let content_eq = match (self.content_type, other.content_type) {
            (ContentType::Primitive, ContentType::Primitive) => true,
            (ContentType::Constructed, ContentType::Constructed) => true,
            _ => false,
        };
        class_eq && content_eq && self.tagnum == other.tagnum
    }
}

/// The shapes content can have, one per primitive the codec below reads or
/// writes, and one for a sequence of elements.
#[derive(Clone, Copy, Debug, PartialEq, Eq, Structural)]
pub enum ContentKind {
    U8,
    I32,
    U32,
    U64,
    Null,
    Bytes,
    Bits,
    Oid,
    Sequence,
}

/// The kinds of value a variable binding can carry, one per registered tag.
#[derive(Clone, Copy, Debug, PartialEq, Eq, Structural)]
pub enum VariableKind {
    Integer,
    BitString,
    OctetString,
    Null,
    Oid,
    IpAddress,
    Counter,
    Gauge,
    TimeTicks,
    Opaque,
    Counter64,
    NoSuchObject,
    NoSuchInstance,
    EndOfMibView,
}

impl VariableKind {
    /// The tag under which a value of this kind travels.
    pub open spec fn spec_tag(self) -> Tag {
        match self {
            VariableKind::Integer => Tag::integer(),
            VariableKind::BitString => Tag::bit_string(),
            VariableKind::OctetString => Tag::octet_string(),
            VariableKind::Null => Tag::null(),
            VariableKind::Oid => Tag::object_identifier(),
            VariableKind::IpAddress => Tag::application(0),
            VariableKind::Counter => Tag::application(1),
            VariableKind::Gauge => Tag::application(2),
            VariableKind::TimeTicks => Tag::application(3),
            VariableKind::Opaque => Tag::application(4),
            VariableKind::Counter64 => Tag::application(6),
            VariableKind::NoSuchObject => Tag::context(0),
            VariableKind::NoSuchInstance => Tag::context(1),
            VariableKind::EndOfMibView => Tag::context(2),
        }
    }

    /// The kind registered for a tag, if any.
    pub open spec fn spec_from_tag(tag: Tag) -> Option<VariableKind> {
        if tag.content_type != ContentType::Primitive {
            None
        } else {
            match tag.class {
                TagClass::Universal => if tag.tagnum == 2 {
                    Some(VariableKind::Integer)
                } else if tag.tagnum == 3 {
                    Some(VariableKind::BitString)
                } else if tag.tagnum == 4 {
                    Some(VariableKind::OctetString)
                } else if tag.tagnum == 5 {
                    Some(VariableKind::Null)
                } else if tag.tagnum == 6 {
                    Some(VariableKind::Oid)
                } else {
                    None
                },
                TagClass::Application => if tag.tagnum == 0 {
                    Some(VariableKind::IpAddress)
                } else if tag.tagnum == 1 {
                    Some(VariableKind::Counter)
                } else if tag.tagnum == 2 {
                    Some(VariableKind::Gauge)
                } else if tag.tagnum == 3 {
                    Some(VariableKind::TimeTicks)
                } else if tag.tagnum == 4 {
                    Some(VariableKind::Opaque)
                } else if tag.tagnum == 6 {
                    Some(VariableKind::Counter64)
                } else {
                    None
                },
                TagClass::ContextSpecific => if tag.tagnum == 0 {
                    Some(VariableKind::NoSuchObject)
                } else if tag.tagnum == 1 {
                    Some(VariableKind::NoSuchInstance)
                } else if tag.tagnum == 2 {
                    Some(VariableKind::EndOfMibView)
                } else {
                    None
                },
                TagClass::Private => None,
            }
        }
    }

    /// The tag under which a value of this kind travels.
    pub fn tag(self) -> (t: Tag)
        ensures
            t == self.spec_tag(),
    {
        match self {
            VariableKind::Integer => Tag::new(TagClass::Universal, 2, ContentType::Primitive),
            VariableKind::BitString => Tag::new(TagClass::Universal, 3, ContentType::Primitive),
            VariableKind::OctetString => Tag::new(TagClass::Universal, 4, ContentType::Primitive),
            VariableKind::Null => Tag::new(TagClass::Universal, 5, ContentType::Primitive),
            VariableKind::Oid => Tag::new(TagClass::Universal, 6, ContentType::Primitive),
            VariableKind::IpAddress => Tag::new(TagClass::Application, 0, ContentType::Primitive),
            VariableKind::Counter => Tag::new(TagClass::Application, 1, ContentType::Primitive),
            VariableKind::Gauge => Tag::new(TagClass::Application, 2, ContentType::Primitive),
            VariableKind::TimeTicks => Tag::new(TagClass::Application, 3, ContentType::Primitive),
            VariableKind::Opaque => Tag::new(TagClass::Application, 4, ContentType::Primitive),
            VariableKind::Counter64 => Tag::new(TagClass::Application, 6, ContentType::Primitive),
            VariableKind::NoSuchObject => Tag::new(
                TagClass::ContextSpecific,
                0,
                ContentType::Primitive,
            ),
            VariableKind::NoSuchInstance => Tag::new(
                TagClass::ContextSpecific,
                1,
                ContentType::Primitive,
            ),
            VariableKind::EndOfMibView => Tag::new(
                TagClass::ContextSpecific,
                2,
                ContentType::Primitive,
            ),
        }
    }

    /// Looks a tag up among the registered variable tags.
    pub fn from_tag(tag: &Tag) -> (k: Option<VariableKind>)
        ensures
            k == Self::spec_from_tag(*tag),
    {
        match tag.content_type {
            ContentType::Constructed => None,
            ContentType::Primitive => match tag.class {
                TagClass::Universal => match tag.tagnum {
                    2 => Some(VariableKind::Integer),
                    3 => Some(VariableKind::BitString),
                    4 => Some(VariableKind::OctetString),
                    5 => Some(VariableKind::Null),
                    6 => Some(VariableKind::Oid),
                    _ => None,
                },
                TagClass::Application => match tag.tagnum {
                    0 => Some(VariableKind::IpAddress),
                    1 => Some(VariableKind::Counter),
                    2 => Some(VariableKind::Gauge),
                    3 => Some(VariableKind::TimeTicks),
                    4 => Some(VariableKind::Opaque),
                    6 => Some(VariableKind::Counter64),
                    _ => None,
                },
                TagClass::ContextSpecific => match tag.tagnum {
                    0 => Some(VariableKind::NoSuchObject),
                    1 => Some(VariableKind::NoSuchInstance),
                    2 => Some(VariableKind::EndOfMibView),
                    _ => None,
                },
                TagClass::Private => None,
            },
        }
    }

    /// Looking up the tag of a kind gives that kind back.
    pub proof fn lemma_tag_lookup(kind: VariableKind)
        ensures
            Self::spec_from_tag(kind.spec_tag()) == Some(kind),
    {
    }

    /// A tag is registered for at most one kind, and that kind's tag is the
    /// tag itself: no two tags share a kind and no two kinds share a tag.
    pub proof fn lemma_lookup_exact(tag: Tag, kind: VariableKind)
        ensures
            Self::spec_from_tag(tag) == Some(kind) <==> kind.spec_tag() == tag,
    {
    }

    /// Different kinds travel under different tags.
    pub proof fn lemma_tags_distinct(a: VariableKind, b: VariableKind)
        requires
            a != b,
        ensures
            a.spec_tag() != b.spec_tag(),
    {
    }
}

impl VariableKind {
    /// The shape of content that values of a kind travel as.
    pub open spec fn spec_content_kind(self) -> ContentKind {
        match self {
            VariableKind::Integer => ContentKind::I32,
            VariableKind::BitString => ContentKind::Bits,
            VariableKind::OctetString | VariableKind::Opaque
            | VariableKind::IpAddress => ContentKind::Bytes,
            VariableKind::Oid => ContentKind::Oid,
            VariableKind::Counter | VariableKind::Gauge | VariableKind::TimeTicks => ContentKind::U32,
            VariableKind::Counter64 => ContentKind::U64,
            VariableKind::Null | VariableKind::NoSuchObject | VariableKind::NoSuchInstance
            | VariableKind::EndOfMibView => ContentKind::Null,
        }
    }

    /// The shape of content to read under the tag of this kind.
    pub fn content_kind(self) -> (k: ContentKind)
        ensures
            k == self.spec_content_kind(),
    {
        match self {
            VariableKind::Integer => ContentKind::I32,
            VariableKind::BitString => ContentKind::Bits,
            VariableKind::OctetString | VariableKind::Opaque
            | VariableKind::IpAddress => ContentKind::Bytes,
            VariableKind::Oid => ContentKind::Oid,
            VariableKind::Counter | VariableKind::Gauge | VariableKind::TimeTicks => ContentKind::U32,
            VariableKind::Counter64 => ContentKind::U64,
            VariableKind::Null | VariableKind::NoSuchObject | VariableKind::NoSuchInstance
            | VariableKind::EndOfMibView => ContentKind::Null,
        }
    }
}

/// The kinds of PDU, one per registered context tag.
#[derive(Clone, Copy, Debug, PartialEq, Eq, Structural)]
pub enum PduKind {
    GetRequest,
    GetNextRequest,
    GetResponse,
    SetRequest,
    GetBulkRequest,
    Inform,
    Trap,
    Report,
}

impl PduKind {
    /// The number of the context tag of this kind.
    pub open spec fn spec_number(self) -> u8 {
        match self {
            PduKind::GetRequest => 0,
            PduKind::GetNextRequest => 1,
            PduKind::GetResponse => 2,
            PduKind::SetRequest => 3,
            PduKind::GetBulkRequest => 5,
            PduKind::Inform => 6,
            PduKind::Trap => 7,
            PduKind::Report => 8,
        }
    }

    /// The constructed context tag that wraps a PDU of this kind.
    pub open spec fn spec_tag(self) -> Tag {
        Tag::context_constructed(self.spec_number())
    }

    /// The kind registered for a tag, if any.
    pub open spec fn spec_from_tag(tag: Tag) -> Option<PduKind> {
        if tag.class != TagClass::ContextSpecific || tag.content_type != ContentType::Constructed {
            None
        } else if tag.tagnum == 0 {
            Some(PduKind::GetRequest)
        } else if tag.tagnum == 1 {
            Some(PduKind::GetNextRequest)
        } else if tag.tagnum == 2 {
            Some(PduKind::GetResponse)
        } else if tag.tagnum == 3 {
            Some(PduKind::SetRequest)
        } else if tag.tagnum == 5 {
            Some(PduKind::GetBulkRequest)
        } else if tag.tagnum == 6 {
            Some(PduKind::Inform)
        } else if tag.tagnum == 7 {
            Some(PduKind::Trap)
        } else if tag.tagnum == 8 {
            Some(PduKind::Report)
        } else {
            None
        }
    }

    /// The constructed context tag that wraps a PDU of this kind.
    pub fn tag(self) -> (t: Tag)
        ensures
            t == self.spec_tag(),
    {
        let number: u8 = match self {
            PduKind::GetRequest => 0,
            PduKind::GetNextRequest => 1,
            PduKind::GetResponse => 2,
            PduKind::SetRequest => 3,
            PduKind::GetBulkRequest => 5,
            PduKind::Inform => 6,
            PduKind::Trap => 7,
            PduKind::Report => 8,
        };
        Tag::new(TagClass::ContextSpecific, number, ContentType::Constructed)
    }

    /// Looks a tag up among the registered PDU tags.
    pub fn from_tag(tag: &Tag) -> (k: Option<PduKind>)
        ensures
            k == Self::spec_from_tag(*tag),
    {
        match (tag.class, tag.content_type) {
            (TagClass::ContextSpecific, ContentType::Constructed) => match tag.tagnum {
                0 => Some(PduKind::GetRequest),
                1 => Some(PduKind::GetNextRequest),
                2 => Some(PduKind::GetResponse),
                3 => Some(PduKind::SetRequest),
                5 => Some(PduKind::GetBulkRequest),
                6 => Some(PduKind::Inform),
                7 => Some(PduKind::Trap),
                8 => Some(PduKind::Report),
                _ => None,
            },
            _ => None,
        }
    }

    /// Looking up the tag of a kind gives that kind back.
    pub proof fn lemma_tag_lookup(kind: PduKind)
        ensures
            Self::spec_from_tag(kind.spec_tag()) == Some(kind),
    {
    }

    /// A tag is registered for at most one kind, and that kind's tag is the
    /// tag itself.
    pub proof fn lemma_lookup_exact(tag: Tag, kind: PduKind)
        ensures
            Self::spec_from_tag(tag) == Some(kind) <==> kind.spec_tag() == tag,
    {
    }

    /// Different kinds travel under different tags.
    pub proof fn lemma_tags_distinct(a: PduKind, b: PduKind)
        requires
            a != b,
        ensures
            a.spec_tag() != b.spec_tag(),
    {
    }
}

/// The two forms the payload of a v3 message can take.
#[derive(Clone, Copy, Debug, PartialEq, Eq, Structural)]
pub enum PayloadKind {
    /// A scoped PDU in the clear, which travels as a sequence.
    Scoped,
    /// Ciphertext, which travels as an octet string.
    Crypted,
}

impl PayloadKind {
    /// The tag under which a payload of this form travels.
    pub open spec fn spec_tag(self) -> Tag {
        match self {
            PayloadKind::Scoped => Tag::sequence(),
            PayloadKind::Crypted => Tag::octet_string(),
        }
    }

    /// The form that a tag announces, if any.
    pub open spec fn spec_from_tag(tag: Tag) -> Option<PayloadKind> {
        if tag == Tag::sequence() {
            Some(PayloadKind::Scoped)
        } else if tag == Tag::octet_string() {
            Some(PayloadKind::Crypted)
        } else {
            None
        }
    }

    /// The tag under which a payload of this form travels.
    pub fn tag(self) -> (t: Tag)
        ensures
            t == self.spec_tag(),
    {
        match self {
            PayloadKind::Scoped => Tag::new(TagClass::Universal, 16, ContentType::Constructed),
            PayloadKind::Crypted => Tag::new(TagClass::Universal, 4, ContentType::Primitive),
        }
    }

    /// Tells from the tag alone which form a payload has.
    pub fn from_tag(tag: &Tag) -> (k: Option<PayloadKind>)
        ensures
            k == Self::spec_from_tag(*tag),
    {
        match (tag.class, tag.content_type, tag.tagnum) {
            (TagClass::Universal, ContentType::Constructed, 16) => Some(PayloadKind::Scoped),
            (TagClass::Universal, ContentType::Primitive, 4) => Some(PayloadKind::Crypted),
            _ => None,
        }
    }

    /// A tag announces a form exactly if it is that form's tag.
    pub proof fn lemma_lookup_exact(tag: Tag, kind: PayloadKind)
        ensures
            Self::spec_from_tag(tag) == Some(kind) <==> kind.spec_tag() == tag,
    {
    }
}

} // verus!
