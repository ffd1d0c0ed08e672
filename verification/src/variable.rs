//! Typed values, variable bindings, and how each travels as an element.

use vstd::prelude::*;
use crate::element::{
    copy_items, elements_view, BitString, Content, ContentView, Element, ElementView,
    ObjectIdentifier, OctetString,
};
use crate::error::DecodeError;
use crate::tag::{Tag, VariableKind};

verus! {

/// The value of a bound variable.
#[derive(Debug, PartialEq, Eq, PartialOrd, Ord, Clone)]
pub enum Variable {
    Integer(i32),
    BitString(BitString),
    OctetString(OctetString),
    Null,
    Oid(ObjectIdentifier),
    IpAddress(u8, u8, u8, u8),
    Counter(u32),
    Gauge(u32),
    TimeTicks(u32),
    Opaque(Vec<u8>),
    Counter64(u64),
    NoSuchObject,
    NoSuchInstance,
    EndOfMibView,
}

/// The mathematical value of a [`Variable`].
pub ghost enum VariableView {
    Integer(i32),
    BitString(u8, Seq<u8>),
    OctetString(Seq<u8>),
    Null,
    Oid(Seq<u32>),
    IpAddress(u8, u8, u8, u8),
    Counter(u32),
    Gauge(u32),
    TimeTicks(u32),
    Opaque(Seq<u8>),
    Counter64(u64),
    NoSuchObject,
    NoSuchInstance,
    EndOfMibView,
}

impl View for Variable {
    type V = VariableView;

    open spec fn view(&self) -> VariableView {
        match self {
            Variable::Integer(v) => VariableView::Integer(*v),
            Variable::BitString(b) => VariableView::BitString(b.unused_bits, b.bytes@),
            Variable::OctetString(o) => VariableView::OctetString(o@),
            Variable::Null => VariableView::Null,
            Variable::Oid(o) => VariableView::Oid(o@),
            Variable::IpAddress(a, b, c, d) => VariableView::IpAddress(*a, *b, *c, *d),
            Variable::Counter(v) => VariableView::Counter(*v),
            Variable::Gauge(v) => VariableView::Gauge(*v),
            Variable::TimeTicks(v) => VariableView::TimeTicks(*v),
            Variable::Opaque(b) => VariableView::Opaque(b@),
            Variable::Counter64(v) => VariableView::Counter64(*v),
            Variable::NoSuchObject => VariableView::NoSuchObject,
            Variable::NoSuchInstance => VariableView::NoSuchInstance,
            Variable::EndOfMibView => VariableView::EndOfMibView,
        }
    }
}

impl VariableView {
    /// The kind of a value, which fixes its tag.
    pub open spec fn kind(self) -> VariableKind {
        match self {
            VariableView::Integer(_) => VariableKind::Integer,
            VariableView::BitString(_, _) => VariableKind::BitString,
            VariableView::OctetString(_) => VariableKind::OctetString,
            VariableView::Null => VariableKind::Null,
            VariableView::Oid(_) => VariableKind::Oid,
            VariableView::IpAddress(_, _, _, _) => VariableKind::IpAddress,
            VariableView::Counter(_) => VariableKind::Counter,
            VariableView::Gauge(_) => VariableKind::Gauge,
            VariableView::TimeTicks(_) => VariableKind::TimeTicks,
            VariableView::Opaque(_) => VariableKind::Opaque,
            VariableView::Counter64(_) => VariableKind::Counter64,
            VariableView::NoSuchObject => VariableKind::NoSuchObject,
            VariableView::NoSuchInstance => VariableKind::NoSuchInstance,
            VariableView::EndOfMibView => VariableKind::EndOfMibView,
        }
    }

    /// The content a value travels as. An address is a string of its four
    /// octets; the three exceptions have null content.
    pub open spec fn content(self) -> ContentView {
        match self {
            VariableView::Integer(v) => ContentView::I32(v),
            VariableView::BitString(unused, bytes) => ContentView::Bits(unused, bytes),
            VariableView::OctetString(bytes) => ContentView::Bytes(bytes),
            VariableView::Null => ContentView::Null,
            VariableView::Oid(arcs) => ContentView::Oid(arcs),
            VariableView::IpAddress(a, b, c, d) => ContentView::Bytes(seq![a, b, c, d]),
            VariableView::Counter(v) => ContentView::U32(v),
            VariableView::Gauge(v) => ContentView::U32(v),
            VariableView::TimeTicks(v) => ContentView::U32(v),
            VariableView::Opaque(bytes) => ContentView::Bytes(bytes),
            VariableView::Counter64(v) => ContentView::U64(v),
            VariableView::NoSuchObject => ContentView::Null,
            VariableView::NoSuchInstance => ContentView::Null,
            VariableView::EndOfMibView => ContentView::Null,
        }
    }

    /// The element a value travels as: its content under the tag of its kind.
    pub open spec fn element(self) -> ElementView {
        ElementView { tag: self.kind().spec_tag(), content: self.content() }
    }

    /// The value of the given kind that a content stands for.
    pub open spec fn from_content(kind: VariableKind, content: ContentView) -> Result<
        VariableView,
        DecodeError,
    > {
        match (kind, content) {
            (VariableKind::Integer, ContentView::I32(v)) => Ok(VariableView::Integer(v)),
            (VariableKind::BitString, ContentView::Bits(unused, bytes)) => Ok(
                VariableView::BitString(unused, bytes),
            ),
            (VariableKind::OctetString, ContentView::Bytes(bytes)) => Ok(
                VariableView::OctetString(bytes),
            ),
            (VariableKind::Null, ContentView::Null) => Ok(VariableView::Null),
            (VariableKind::Oid, ContentView::Oid(arcs)) => Ok(VariableView::Oid(arcs)),
            (VariableKind::IpAddress, ContentView::Bytes(bytes)) => if bytes.len() == 4 {
                Ok(VariableView::IpAddress(bytes[0], bytes[1], bytes[2], bytes[3]))
            } else {
                Err(DecodeError::AddressLength)
            },
            (VariableKind::Counter, ContentView::U32(v)) => Ok(VariableView::Counter(v)),
            (VariableKind::Gauge, ContentView::U32(v)) => Ok(VariableView::Gauge(v)),
            (VariableKind::TimeTicks, ContentView::U32(v)) => Ok(VariableView::TimeTicks(v)),
            (VariableKind::Opaque, ContentView::Bytes(bytes)) => Ok(VariableView::Opaque(bytes)),
            (VariableKind::Counter64, ContentView::U64(v)) => Ok(VariableView::Counter64(v)),
            (VariableKind::NoSuchObject, ContentView::Null) => Ok(VariableView::NoSuchObject),
            (VariableKind::NoSuchInstance, ContentView::Null) => Ok(VariableView::NoSuchInstance),
            (VariableKind::EndOfMibView, ContentView::Null) => Ok(VariableView::EndOfMibView),
            _ => Err(DecodeError::FieldContent),
        }
    }

    /// The value an element stands for: its tag selects the kind, and a tag
    /// that is registered for none is refused.
    pub open spec fn from_element(e: ElementView) -> Result<VariableView, DecodeError> {
        match VariableKind::spec_from_tag(e.tag) {
            Some(kind) => Self::from_content(kind, e.content),
            None => Err(DecodeError::VariableTag),
        }
    }

    /// Whether a content has the shape that values of a kind travel as: the
    /// content kind of the variable kind, and four octets for an address.
    pub open spec fn fits(kind: VariableKind, content: ContentView) -> bool {
        &&& content.kind() == kind.spec_content_kind()
        &&& kind == VariableKind::IpAddress ==> content->Bytes_0.len() == 4
    }
}

/// When a value decodes and how it fails: an unregistered tag is refused as
/// such; under a registered tag, content of another shape than the kind's is
/// refused, and so is an address that is not four octets long; everything
/// else decodes.
pub proof fn lemma_variable_decode_cases(e: ElementView)
    ensures
        VariableView::from_element(e) == Err::<VariableView, DecodeError>(DecodeError::VariableTag)
            <==> VariableKind::spec_from_tag(e.tag) is None,
        VariableView::from_element(e) == Err::<VariableView, DecodeError>(
            DecodeError::FieldContent,
        ) <==> (VariableKind::spec_from_tag(e.tag) is Some && VariableKind::spec_from_tag(
            e.tag,
        ).unwrap().spec_content_kind() != e.content.kind()),
        VariableView::from_element(e) == Err::<VariableView, DecodeError>(
            DecodeError::AddressLength,
        ) <==> (VariableKind::spec_from_tag(e.tag) == Some(VariableKind::IpAddress)
            && e.content is Bytes && e.content->Bytes_0.len() != 4),
        VariableView::from_element(e) is Ok <==> (VariableKind::spec_from_tag(e.tag) is Some
            && VariableView::fits(VariableKind::spec_from_tag(e.tag).unwrap(), e.content)),
{
}

/// Decoding an encoded value gives it back.
pub proof fn lemma_variable_round_trip(v: VariableView)
    ensures
        VariableView::from_element(v.element()) == Ok::<VariableView, DecodeError>(v),
{
    VariableKind::lemma_tag_lookup(v.kind());
}

/// Every registered tag decodes, with content of its shape, to a value of the
/// kind it is registered for, and to an encoding of exactly that element.
pub proof fn lemma_variable_tags_decode(kind: VariableKind, content: ContentView)
    requires
        VariableView::fits(kind, content),
    ensures
        VariableView::from_element(ElementView { tag: kind.spec_tag(), content }) is Ok,
        VariableView::from_element(ElementView { tag: kind.spec_tag(), content }).unwrap().kind()
            == kind,
        VariableView::from_element(
            ElementView { tag: kind.spec_tag(), content },
        ).unwrap().element() == (ElementView { tag: kind.spec_tag(), content }),
{
    VariableKind::lemma_tag_lookup(kind);
    if kind == VariableKind::IpAddress {
        let bytes = content->Bytes_0;
        assert(seq![bytes[0], bytes[1], bytes[2], bytes[3]] =~= bytes);
    }
}

/// A decoded value has the kind whose tag the element carries, so elements
/// with different tags never decode to the same value.
pub proof fn lemma_variable_decode_keeps_tag(e: ElementView)
    requires
        VariableView::from_element(e) is Ok,
    ensures
        VariableView::from_element(e).unwrap().kind().spec_tag() == e.tag,
        VariableView::from_element(e).unwrap().element() == e,
{
    let kind = VariableKind::spec_from_tag(e.tag).unwrap();
    VariableKind::lemma_lookup_exact(e.tag, kind);
    if kind == VariableKind::IpAddress {
        let bytes = e.content->Bytes_0;
        assert(seq![bytes[0], bytes[1], bytes[2], bytes[3]] =~= bytes);
    }
}

impl Variable {
    /// The kind of this value.
    pub fn kind(&self) -> (k: VariableKind)
        ensures
            k == self@.kind(),
    {
        match self {
            Variable::Integer(_) => VariableKind::Integer,
            Variable::BitString(_) => VariableKind::BitString,
            Variable::OctetString(_) => VariableKind::OctetString,
            Variable::Null => VariableKind::Null,
            Variable::Oid(_) => VariableKind::Oid,
            Variable::IpAddress(_, _, _, _) => VariableKind::IpAddress,
            Variable::Counter(_) => VariableKind::Counter,
            Variable::Gauge(_) => VariableKind::Gauge,
            Variable::TimeTicks(_) => VariableKind::TimeTicks,
            Variable::Opaque(_) => VariableKind::Opaque,
            Variable::Counter64(_) => VariableKind::Counter64,
            Variable::NoSuchObject => VariableKind::NoSuchObject,
            Variable::NoSuchInstance => VariableKind::NoSuchInstance,
            Variable::EndOfMibView => VariableKind::EndOfMibView,
        }
    }

    /// Encodes this value: the five universal kinds under their own tag, the
    /// others with the registered tag in place of it.
    pub fn to_element(&self) -> (e: Element)
        ensures
            e@ == self@.element(),
    {
        let content = match self {
            Variable::Integer(i) => Content::I32(*i),
            Variable::BitString(b) => Content::Bits(
                BitString { unused_bits: b.unused_bits, bytes: copy_items(&b.bytes) },
            ),
            Variable::OctetString(o) => Content::Bytes(copy_items(&o.bytes)),
            Variable::Null => Content::Null,
            Variable::Oid(o) => Content::Oid(ObjectIdentifier { arcs: copy_items(&o.arcs) }),
            Variable::IpAddress(a, b, c, d) => {
                let mut bytes: Vec<u8> = Vec::new();
                bytes.push(*a);
                bytes.push(*b);
                bytes.push(*c);
                bytes.push(*d);
                proof {
                    assert(bytes@ =~= seq![*a, *b, *c, *d]);
                }
                Content::Bytes(bytes)
            },
            Variable::Counter(i) => Content::U32(*i),
            Variable::Gauge(i) => Content::U32(*i),
            Variable::TimeTicks(i) => Content::U32(*i),
            Variable::Opaque(b) => Content::Bytes(copy_items(b)),
            Variable::Counter64(i) => Content::U64(*i),
            Variable::NoSuchObject => Content::Null,
            Variable::NoSuchInstance => Content::Null,
            Variable::EndOfMibView => Content::Null,
        };
        Element { tag: self.kind().tag(), content }
    }

    /// Decodes a value: the tag selects the variant, each registered tag its
    /// own.
    pub fn from_element(e: &Element) -> (r: Result<Variable, DecodeError>)
        ensures
            match r {
                Ok(v) => VariableView::from_element(e@) == Ok::<VariableView, DecodeError>(v@),
                Err(x) => VariableView::from_element(e@) == Err::<VariableView, DecodeError>(x),
            },
    {
        let kind = match VariableKind::from_tag(&e.tag) {
            Some(kind) => kind,
            None => {
                return Err(DecodeError::VariableTag);
            },
        };
        match (kind, &e.content) {
            (VariableKind::Integer, Content::I32(v)) => Ok(Variable::Integer(*v)),
            (VariableKind::BitString, Content::Bits(b)) => Ok(
                Variable::BitString(
                    BitString { unused_bits: b.unused_bits, bytes: copy_items(&b.bytes) },
                ),
            ),
            (VariableKind::OctetString, Content::Bytes(b)) => Ok(
                Variable::OctetString(OctetString { bytes: copy_items(b) }),
            ),
            (VariableKind::Null, Content::Null) => Ok(Variable::Null),
            (VariableKind::Oid, Content::Oid(o)) => Ok(
                Variable::Oid(ObjectIdentifier { arcs: copy_items(&o.arcs) }),
            ),
            (VariableKind::IpAddress, Content::Bytes(b)) => {
                if b.len() == 4 {
                    Ok(Variable::IpAddress(b[0], b[1], b[2], b[3]))
                } else {
                    Err(DecodeError::AddressLength)
                }
            },
            (VariableKind::Counter, Content::U32(v)) => Ok(Variable::Counter(*v)),
            (VariableKind::Gauge, Content::U32(v)) => Ok(Variable::Gauge(*v)),
            (VariableKind::TimeTicks, Content::U32(v)) => Ok(Variable::TimeTicks(*v)),
            (VariableKind::Opaque, Content::Bytes(b)) => Ok(Variable::Opaque(copy_items(b))),
            (VariableKind::Counter64, Content::U64(v)) => Ok(Variable::Counter64(*v)),
            (VariableKind::NoSuchObject, Content::Null) => Ok(Variable::NoSuchObject),
            (VariableKind::NoSuchInstance, Content::Null) => Ok(Variable::NoSuchInstance),
            (VariableKind::EndOfMibView, Content::Null) => Ok(Variable::EndOfMibView),
            _ => Err(DecodeError::FieldContent),
        }
    }
}

/// A name bound to a value.
#[derive(Debug, PartialEq, Eq, PartialOrd, Ord, Clone)]
pub struct VarBind {
    oid: ObjectIdentifier,
    value: Variable,
}

/// A list of bindings; their order matters.
pub type VarBindList = Vec<VarBind>;

/// The mathematical value of a [`VarBind`].
pub ghost struct VarBindView {
    pub oid: Seq<u32>,
    pub value: VariableView,
}

impl View for VarBind {
    type V = VarBindView;

    closed spec fn view(&self) -> VarBindView {
        VarBindView { oid: self.oid@, value: self.value@ }
    }
}

/// The values of a list of bindings, in order.
pub open spec fn bindings_view(list: Seq<VarBind>) -> Seq<VarBindView> {
    Seq::new(list.len(), |i: int| list[i]@)
}

impl VarBindView {
    /// The element a binding travels as: the sequence of name and value.
    pub open spec fn element(self) -> ElementView {
        ElementView::of_fields(seq![ElementView::of_oid(self.oid), self.value.element()])
    }

    /// The binding an element stands for.
    pub open spec fn from_element(e: ElementView) -> Result<VarBindView, DecodeError> {
        match e.as_fields(2) {
            Err(x) => Err(x),
            Ok(fields) => match fields[0].as_oid() {
                Err(x) => Err(x),
                Ok(oid) => match VariableView::from_element(fields[1]) {
                    Err(x) => Err(x),
                    Ok(value) => Ok(VarBindView { oid, value }),
                },
            },
        }
    }

    /// The elements a list of bindings travels as, in the list's order.
    pub open spec fn list_elements(list: Seq<VarBindView>) -> Seq<ElementView> {
        Seq::new(list.len(), |i: int| list[i].element())
    }

    /// The bindings a list of elements stands for, in the list's order. The
    /// first element that stands for none decides the failure.
    pub open spec fn from_list_elements(items: Seq<ElementView>) -> Result<
        Seq<VarBindView>,
        DecodeError,
    >
        decreases items.len(),
    {
        if items.len() == 0 {
            Ok(Seq::empty())
        } else {
            match Self::from_list_elements(items.drop_last()) {
                Err(x) => Err(x),
                Ok(front) => match Self::from_element(items.last()) {
                    Err(x) => Err(x),
                    Ok(last) => Ok(front.push(last)),
                },
            }
        }
    }
}

/// Decoding an encoded binding gives it back.
pub proof fn lemma_var_bind_round_trip(b: VarBindView)
    ensures
        VarBindView::from_element(b.element()) == Ok::<VarBindView, DecodeError>(b),
{
    lemma_variable_round_trip(b.value);
}

/// Decoding an encoded list of bindings gives it back, in the same order.
pub proof fn lemma_bindings_round_trip(list: Seq<VarBindView>)
    ensures
        VarBindView::from_list_elements(VarBindView::list_elements(list)) == Ok::<
            Seq<VarBindView>,
            DecodeError,
        >(list),
    decreases list.len(),
{
    let items = VarBindView::list_elements(list);
    if list.len() == 0 {
        assert(list =~= Seq::empty());
    } else {
        lemma_bindings_round_trip(list.drop_last());
        lemma_var_bind_round_trip(list.last());
        assert(items.drop_last() =~= VarBindView::list_elements(list.drop_last()));
        assert(items.last() == list.last().element());
        assert(list.drop_last().push(list.last()) =~= list);
    }
}

/// A decoded binding encodes to the element it came from.
pub proof fn lemma_var_bind_decode_exact(e: ElementView)
    requires
        VarBindView::from_element(e) is Ok,
    ensures
        VarBindView::from_element(e).unwrap().element() == e,
{
    let fields = e.content->Sequence_0;
    lemma_variable_decode_keeps_tag(fields[1]);
    assert(VarBindView::from_element(e).unwrap().element().content->Sequence_0 =~= fields);
}

/// A decoded list of bindings encodes to the elements it came from.
pub proof fn lemma_bindings_decode_exact(items: Seq<ElementView>)
    requires
        VarBindView::from_list_elements(items) is Ok,
    ensures
        VarBindView::list_elements(VarBindView::from_list_elements(items).unwrap()) == items,
{
    lemma_bindings_decode_each(items);
    let list = VarBindView::from_list_elements(items).unwrap();
    assert forall|i: int| 0 <= i < items.len() implies list[i].element() == items[i] by {
        assert(VarBindView::from_element(items[i]) == Ok::<VarBindView, DecodeError>(list[i]));
        lemma_var_bind_decode_exact(items[i]);
    }
    assert(VarBindView::list_elements(list) =~= items);
}

/// A list of elements decodes exactly if each of them does, and then to the
/// list of what each decodes to.
pub proof fn lemma_bindings_decode_each(items: Seq<ElementView>)
    ensures
        VarBindView::from_list_elements(items) is Ok <==> (forall|i: int|
            0 <= i < items.len() ==> (#[trigger] VarBindView::from_element(items[i])) is Ok),
        VarBindView::from_list_elements(items) is Ok ==> {
            let list = VarBindView::from_list_elements(items).unwrap();
            &&& list.len() == items.len()
            &&& forall|i: int|
                0 <= i < items.len() ==> VarBindView::from_element(#[trigger] items[i]) == Ok::<
                    VarBindView,
                    DecodeError,
                >(list[i])
        },
    decreases items.len(),
{
    if items.len() > 0 {
        lemma_bindings_decode_each(items.drop_last());
        let front = items.drop_last();
        assert(forall|i: int| 0 <= i < front.len() ==> front[i] == items[i]);
        if VarBindView::from_list_elements(items) is Ok {
            assert forall|i: int| 0 <= i < items.len() implies (
            #[trigger] VarBindView::from_element(items[i])) is Ok by {
                if i < front.len() {
                    assert(front[i] == items[i]);
                }
            }
        }
        if forall|i: int|
            0 <= i < items.len() ==> (#[trigger] VarBindView::from_element(items[i])) is Ok {
            assert forall|i: int| 0 <= i < front.len() implies (
            #[trigger] VarBindView::from_element(front[i])) is Ok by {
                assert(front[i] == items[i]);
            }
            assert(VarBindView::from_element(items[items.len() - 1]) is Ok);
        }
    }
}

impl VarBind {
    /// Binds a value to a name.
    pub fn new(oid: ObjectIdentifier, value: Variable) -> (b: VarBind)
        ensures
            b@ == (VarBindView { oid: oid@, value: value@ }),
            *b.spec_oid() == oid,
            *b.spec_value() == value,
    {
        VarBind { oid, value }
    }

    /// Binds the null value to a name, as a request does.
    pub fn new_null(oid: ObjectIdentifier) -> (b: VarBind)
        ensures
            b@ == (VarBindView { oid: oid@, value: VariableView::Null }),
            *b.spec_oid() == oid,
    {
        VarBind { oid, value: Variable::Null }
    }

    /// The name, in specifications.
    pub closed spec fn spec_oid(&self) -> &ObjectIdentifier {
        &self.oid
    }

    /// The value, in specifications.
    pub closed spec fn spec_value(&self) -> &Variable {
        &self.value
    }

    /// The name.
    pub fn oid(&self) -> (o: &ObjectIdentifier)
        ensures
            o == self.spec_oid(),
            o@ == self@.oid,
    {
        &self.oid
    }

    /// The value.
    pub fn value(&self) -> (v: &Variable)
        ensures
            v == self.spec_value(),
            v@ == self@.value,
    {
        &self.value
    }

    /// Encodes this binding.
    pub fn to_element(&self) -> (e: Element)
        ensures
            e@ == self@.element(),
    {
        let mut fields: Vec<Element> = Vec::new();
        fields.push(Element::from_oid(&self.oid));
        fields.push(self.value.to_element());
        proof {
            assert(elements_view(fields@) =~= seq![
                ElementView::of_oid(self.oid@),
                self.value@.element(),
            ]);
        }
        Element::from_fields(fields)
    }

    /// Decodes a binding.
    pub fn from_element(e: &Element) -> (r: Result<VarBind, DecodeError>)
        ensures
            match r {
                Ok(b) => VarBindView::from_element(e@) == Ok::<VarBindView, DecodeError>(b@),
                Err(x) => VarBindView::from_element(e@) == Err::<VarBindView, DecodeError>(x),
            },
    {
        let fields = e.read_fields(2)?;
        let oid = fields[0].read_oid()?;
        let value = Variable::from_element(&fields[1])?;
        Ok(VarBind { oid, value })
    }

    /// Encodes a list of bindings, keeping their order.
    pub fn list_to_elements(list: &Vec<VarBind>) -> (items: Vec<Element>)
        ensures
            elements_view(items@) == VarBindView::list_elements(bindings_view(list@)),
    {
        let mut items: Vec<Element> = Vec::new();
        let mut i: usize = 0;
        while i < list.len()
            invariant
                i <= list.len(),
                items.len() == i,
                forall|j: int| 0 <= j < i ==> (#[trigger] items[j])@ == list[j]@.element(),
            decreases list.len() - i,
        {
            items.push(list[i].to_element());
            i += 1;
        }
        proof {
            assert(elements_view(items@) =~= VarBindView::list_elements(bindings_view(list@)));
        }
        items
    }

    /// Decodes a list of bindings, keeping their order. The first element
    /// that fails decides the error.
    pub fn list_from_elements(items: &Vec<Element>) -> (r: Result<Vec<VarBind>, DecodeError>)
        ensures
            match r {
                Ok(list) => VarBindView::from_list_elements(elements_view(items@)) == Ok::<
                    Seq<VarBindView>,
                    DecodeError,
                >(bindings_view(list@)),
                Err(x) => VarBindView::from_list_elements(elements_view(items@)) == Err::<
                    Seq<VarBindView>,
                    DecodeError,
                >(x),
            },
    {
        let ghost all = elements_view(items@);
        let mut list: Vec<VarBind> = Vec::new();
        let mut i: usize = 0;
        proof {
            assert(all.take(0) =~= Seq::empty());
            assert(bindings_view(list@) =~= Seq::empty());
        }
        while i < items.len()
            invariant
                i <= items.len(),
                all == elements_view(items@),
                VarBindView::from_list_elements(all.take(i as int)) == Ok::<
                    Seq<VarBindView>,
                    DecodeError,
                >(bindings_view(list@)),
            decreases items.len() - i,
        {
            let ghost front = all.take(i as int);
            let ghost next = all.take(i + 1);
            proof {
                assert(next.drop_last() =~= front);
                assert(next.last() == items[i as int]@);
            }
            match VarBind::from_element(&items[i]) {
                Ok(b) => {
                    let ghost before = bindings_view(list@);
                    list.push(b);
                    proof {
                        assert(bindings_view(list@) =~= before.push(b@));
                    }
                },
                Err(x) => {
                    proof {
                        lemma_bindings_prefix_fails(all, i + 1);
                    }
                    return Err(x);
                },
            }
            i += 1;
        }
        proof {
            assert(all.take(items.len() as int) =~= all);
        }
        Ok(list)
    }
}

/// Once a prefix of a list fails to decode, the whole list fails the same way.
proof fn lemma_bindings_prefix_fails(items: Seq<ElementView>, n: int)
    requires
        0 <= n <= items.len(),
        VarBindView::from_list_elements(items.take(n)) is Err,
    ensures
        VarBindView::from_list_elements(items) == VarBindView::from_list_elements(items.take(n)),
    decreases items.len() - n,
{
    if n == items.len() {
        assert(items.take(n) =~= items);
    } else {
        assert(items.take(n + 1).drop_last() =~= items.take(n));
        lemma_bindings_prefix_fails(items, n + 1);
    }
}

} // verus!
