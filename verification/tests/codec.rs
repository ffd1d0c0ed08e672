use snmp_codec::{
    AuthenticationParameter, BitString, Community, Content, ContentKind, ContentType,
    ContextEngineID, ContextName, DecodeError, Element, EngineBootCount, EngineID, EngineTime,
    ErrorKind, InnerPdu, MaxSize, MessageFlags, MessageID, ObjectIdentifier, OctetString,
    PacketV2, PacketV3, PayloadKind, Pdu, PduKind, PduV3, PrivacyParameter, Reading, RequestType, ScopedPdu,
    SecurityLevel, SecurityModel, SecurityParameter, Shape, Tag, TagClass, UserName, VarBind,
    Variable,
    VariableKind, Version,
};

fn oid(arcs: &[u32]) -> ObjectIdentifier {
    ObjectIdentifier { arcs: arcs.to_vec() }
}

fn universal(tagnum: u8) -> Tag {
    Tag::new(TagClass::Universal, tagnum, ContentType::Primitive)
}

fn sequence_tag() -> Tag {
    Tag::new(TagClass::Universal, 16, ContentType::Constructed)
}

fn octets(bytes: &[u8]) -> Element {
    Element { tag: universal(4), content: Content::Bytes(bytes.to_vec()) }
}

fn all_variables() -> Vec<Variable> {
    vec![
        Variable::Integer(-42),
        Variable::Integer(i32::MIN),
        Variable::BitString(BitString { unused_bits: 3, bytes: vec![0xa0, 0x08] }),
        Variable::OctetString(OctetString::new(vec![1, 2, 3])),
        Variable::OctetString(OctetString::new(vec![])),
        Variable::Null,
        Variable::Oid(oid(&[1, 3, 6, 1, 2, 1, 1, 1, 0])),
        Variable::IpAddress(192, 168, 0, 1),
        Variable::IpAddress(0, 0, 0, 0),
        Variable::Counter(u32::MAX),
        Variable::Gauge(17),
        Variable::TimeTicks(123456),
        Variable::Opaque(vec![0xde, 0xad]),
        Variable::Counter64(u64::MAX),
        Variable::NoSuchObject,
        Variable::NoSuchInstance,
        Variable::EndOfMibView,
    ]
}

fn sample_bindings() -> Vec<VarBind> {
    all_variables()
        .into_iter()
        .enumerate()
        .map(|(i, v)| VarBind::new(oid(&[1, 3, 6, 1, i as u32]), v))
        .collect()
}

fn sample_security() -> SecurityParameter {
    SecurityParameter {
        engine_id: EngineID(OctetString::new(vec![0x80, 0x00, 0x1f, 0x88])),
        engine_boots: EngineBootCount(3),
        engine_time: EngineTime(4711),
        user_name: UserName(OctetString::from_str("admin")),
        auth_parameters: AuthenticationParameter(OctetString::new(vec![9; 12])),
        privacy_parameters: PrivacyParameter(OctetString::new(vec![7; 8])),
    }
}

fn sample_v3(pdu: PduV3) -> PacketV3 {
    PacketV3 {
        version: Version::Version3,
        msg_id: MessageID(77),
        max_size: MaxSize(65507),
        flags: MessageFlags { reportable: true, security_level: SecurityLevel::AuthPriv },
        security_model: SecurityModel::UserBasedSecurityModel,
        security_parameters: sample_security(),
        pdu,
    }
}

fn sample_scoped() -> ScopedPdu {
    ScopedPdu {
        context_engine_id: ContextEngineID(OctetString::new(vec![1, 2, 3])),
        context_name: ContextName(OctetString::from_str("ctx")),
        pdu: Pdu::new_request(RequestType::Get, 5, 0, 0, sample_bindings()),
    }
}

#[test]
fn packet() {
    let p = PacketV2::new(
        Version::Version1,
        Community::new("test"),
        Pdu::new_empty_request(RequestType::Get),
    );

    assert_eq!(p, PacketV2::from_element(&p.to_element()).unwrap())
}

#[test]
fn packet_v2_element_layout() {
    let p = PacketV2::new(
        Version::Version1,
        Community::new("test"),
        Pdu::new_empty_request(RequestType::Get),
    );
    let expected = Element {
        tag: sequence_tag(),
        content: Content::Sequence(vec![
            Element { tag: universal(2), content: Content::U8(0) },
            octets(b"test"),
            Element {
                tag: Tag::new(TagClass::ContextSpecific, 0, ContentType::Constructed),
                content: Content::Sequence(vec![
                    Element { tag: universal(2), content: Content::U32(0) },
                    Element { tag: universal(2), content: Content::U32(0) },
                    Element { tag: universal(2), content: Content::U32(0) },
                    Element { tag: sequence_tag(), content: Content::Sequence(vec![]) },
                ]),
            },
        ]),
    };
    assert_eq!(p.to_element(), expected);
    assert_eq!(PacketV2::from_element(&expected), Ok(p));
}

#[test]
fn variable_round_trip() {
    for v in all_variables() {
        let e = v.to_element();
        assert_eq!(e.tag, v.kind().tag());
        assert_eq!(e.content.kind(), v.kind().content_kind());
        assert_eq!(Variable::from_element(&e), Ok(v));
    }
}

#[test]
fn variable_element_layout() {
    assert_eq!(
        Variable::Integer(5).to_element(),
        Element { tag: universal(2), content: Content::I32(5) }
    );
    assert_eq!(
        Variable::IpAddress(10, 0, 0, 1).to_element(),
        Element {
            tag: Tag::new(TagClass::Application, 0, ContentType::Primitive),
            content: Content::Bytes(vec![10, 0, 0, 1]),
        }
    );
    assert_eq!(
        Variable::Counter64(9).to_element(),
        Element {
            tag: Tag::new(TagClass::Application, 6, ContentType::Primitive),
            content: Content::U64(9),
        }
    );
    assert_eq!(
        Variable::Opaque(vec![1]).to_element(),
        Element {
            tag: Tag::new(TagClass::Application, 4, ContentType::Primitive),
            content: Content::Bytes(vec![1]),
        }
    );
    assert_eq!(
        Variable::EndOfMibView.to_element(),
        Element {
            tag: Tag::new(TagClass::ContextSpecific, 2, ContentType::Primitive),
            content: Content::Null,
        }
    );
}

#[test]
fn exception_tags_decode_to_their_own_variants() {
    let exception = |tagnum| Element {
        tag: Tag::new(TagClass::ContextSpecific, tagnum, ContentType::Primitive),
        content: Content::Null,
    };
    assert_eq!(Variable::from_element(&exception(0)), Ok(Variable::NoSuchObject));
    assert_eq!(Variable::from_element(&exception(1)), Ok(Variable::NoSuchInstance));
    assert_eq!(Variable::from_element(&exception(2)), Ok(Variable::EndOfMibView));
    assert_eq!(Variable::from_element(&exception(3)), Err(DecodeError::VariableTag));
}

#[test]
fn every_registered_tag_decodes_to_its_kind() {
    let kinds = [
        VariableKind::Integer,
        VariableKind::BitString,
        VariableKind::OctetString,
        VariableKind::Null,
        VariableKind::Oid,
        VariableKind::IpAddress,
        VariableKind::Counter,
        VariableKind::Gauge,
        VariableKind::TimeTicks,
        VariableKind::Opaque,
        VariableKind::Counter64,
        VariableKind::NoSuchObject,
        VariableKind::NoSuchInstance,
        VariableKind::EndOfMibView,
    ];
    for kind in kinds {
        let content = match kind.content_kind() {
            ContentKind::I32 => Content::I32(1),
            ContentKind::U32 => Content::U32(1),
            ContentKind::U64 => Content::U64(1),
            ContentKind::Null => Content::Null,
            ContentKind::Bytes => Content::Bytes(vec![1, 2, 3, 4]),
            ContentKind::Bits => Content::Bits(BitString { unused_bits: 0, bytes: vec![1] }),
            ContentKind::Oid => Content::Oid(oid(&[1, 3])),
            ContentKind::U8 | ContentKind::Sequence => unreachable!(),
        };
        let decoded = Variable::from_element(&Element { tag: kind.tag(), content }).unwrap();
        assert_eq!(decoded.kind(), kind);
    }
}

#[test]
fn variable_decode_failures() {
    let unknown = Element {
        tag: Tag::new(TagClass::Application, 5, ContentType::Primitive),
        content: Content::U32(1),
    };
    let err = Variable::from_element(&unknown).unwrap_err();
    assert_eq!(err, DecodeError::VariableTag);
    assert_eq!(err.kind(), ErrorKind::InvalidTag);

    let constructed = Element { tag: sequence_tag(), content: Content::Sequence(vec![]) };
    assert_eq!(Variable::from_element(&constructed), Err(DecodeError::VariableTag));

    let mismatch = Element { tag: universal(2), content: Content::Bytes(vec![1]) };
    assert_eq!(Variable::from_element(&mismatch), Err(DecodeError::FieldContent));
    let unsigned = Element { tag: universal(2), content: Content::U32(1) };
    assert_eq!(Variable::from_element(&unsigned), Err(DecodeError::FieldContent));

    for len in [0usize, 1, 3, 5] {
        let short = Element {
            tag: Tag::new(TagClass::Application, 0, ContentType::Primitive),
            content: Content::Bytes(vec![1; len]),
        };
        let err = Variable::from_element(&short).unwrap_err();
        assert_eq!(err, DecodeError::AddressLength);
        assert_eq!(err.kind(), ErrorKind::InvalidLength);
    }
}

#[test]
fn var_bind_round_trip() {
    for b in sample_bindings() {
        assert_eq!(VarBind::from_element(&b.to_element()), Ok(b));
    }
    let b = VarBind::new(oid(&[1, 3, 6]), Variable::Gauge(8));
    assert_eq!(
        b.to_element(),
        Element {
            tag: sequence_tag(),
            content: Content::Sequence(vec![
                Element { tag: universal(6), content: Content::Oid(oid(&[1, 3, 6])) },
                Element {
                    tag: Tag::new(TagClass::Application, 2, ContentType::Primitive),
                    content: Content::U32(8),
                },
            ]),
        }
    );
}

#[test]
fn var_bind_decode_failures() {
    let name = || Element { tag: universal(6), content: Content::Oid(oid(&[1, 3])) };
    let value = || Variable::Null.to_element();
    let seq = |items| Element { tag: sequence_tag(), content: Content::Sequence(items) };

    assert_eq!(VarBind::from_element(&seq(vec![name()])), Err(DecodeError::FieldCount));
    assert_eq!(
        VarBind::from_element(&seq(vec![name(), value(), value()])),
        Err(DecodeError::FieldCount)
    );
    assert_eq!(VarBind::from_element(&seq(vec![value(), name()])), Err(DecodeError::FieldTag));
    assert_eq!(VarBind::from_element(&name()), Err(DecodeError::FieldTag));
    assert_eq!(
        VarBind::from_element(&Element { tag: sequence_tag(), content: Content::Null }),
        Err(DecodeError::FieldContent)
    );
    let bad_value = Element {
        tag: Tag::new(TagClass::Private, 0, ContentType::Primitive),
        content: Content::Null,
    };
    assert_eq!(
        VarBind::from_element(&seq(vec![name(), bad_value])),
        Err(DecodeError::VariableTag)
    );
}

#[test]
fn binding_lists_keep_their_order() {
    let list = sample_bindings();
    let items = VarBind::list_to_elements(&list);
    assert_eq!(items.len(), list.len());
    for (item, b) in items.iter().zip(list.iter()) {
        assert_eq!(item, &b.to_element());
    }
    assert_eq!(VarBind::list_from_elements(&items), Ok(list));
    assert_eq!(VarBind::list_from_elements(&vec![]), Ok(vec![]));
}

#[test]
fn binding_list_first_failure_decides() {
    let good = VarBind::new_null(oid(&[1])).to_element();
    let wrong_count = Element { tag: sequence_tag(), content: Content::Sequence(vec![]) };
    let wrong_tag = Element { tag: universal(5), content: Content::Null };
    assert_eq!(
        VarBind::list_from_elements(&vec![good, wrong_count, wrong_tag]),
        Err(DecodeError::FieldCount)
    );
    let good = VarBind::new_null(oid(&[1])).to_element();
    let wrong_count = Element { tag: sequence_tag(), content: Content::Sequence(vec![]) };
    let wrong_tag = Element { tag: universal(5), content: Content::Null };
    assert_eq!(
        VarBind::list_from_elements(&vec![good, wrong_tag, wrong_count]),
        Err(DecodeError::FieldTag)
    );
}

#[test]
fn inner_pdu_round_trip() {
    let p = InnerPdu::new(u32::MAX, 18, 2, sample_bindings());
    assert_eq!(InnerPdu::from_element(&p.to_element()), Ok(p.clone()));
    assert_eq!(InnerPdu::from_content(&p.to_content()), Ok(p));
    let empty = InnerPdu::new(0, 0, 0, Vec::new());
    assert_eq!(InnerPdu::from_element(&empty.to_element()), Ok(empty));
}

#[test]
fn inner_pdu_decode_failures() {
    let number = |v| Element { tag: universal(2), content: Content::U32(v) };
    let list = || Element { tag: sequence_tag(), content: Content::Sequence(vec![]) };
    let three = Content::Sequence(vec![number(1), number(2), number(3)]);
    assert_eq!(InnerPdu::from_content(&three), Err(DecodeError::FieldCount));
    let five = Content::Sequence(vec![number(1), number(2), number(3), list(), list()]);
    assert_eq!(InnerPdu::from_content(&five), Err(DecodeError::FieldCount));
    let swapped = Content::Sequence(vec![number(1), number(2), list(), number(3)]);
    assert_eq!(InnerPdu::from_content(&swapped), Err(DecodeError::FieldTag));
    let not_a_list = Content::Sequence(vec![number(1), number(2), number(3), number(4)]);
    assert_eq!(InnerPdu::from_content(&not_a_list), Err(DecodeError::FieldTag));
    let signed = Content::Sequence(vec![
        Element { tag: universal(2), content: Content::I32(1) },
        number(2),
        number(3),
        list(),
    ]);
    assert_eq!(InnerPdu::from_content(&signed), Err(DecodeError::FieldContent));
    assert_eq!(InnerPdu::from_content(&Content::Null), Err(DecodeError::FieldContent));
    let plain = Element {
        tag: Tag::new(TagClass::ContextSpecific, 0, ContentType::Constructed),
        content: InnerPdu::new(0, 0, 0, Vec::new()).to_content(),
    };
    assert_eq!(InnerPdu::from_element(&plain), Err(DecodeError::FieldTag));
}

#[test]
fn pdu_round_trip_every_kind() {
    let kinds = [
        (PduKind::GetRequest, 0u8),
        (PduKind::GetNextRequest, 1),
        (PduKind::GetResponse, 2),
        (PduKind::SetRequest, 3),
        (PduKind::GetBulkRequest, 5),
        (PduKind::Inform, 6),
        (PduKind::Trap, 7),
        (PduKind::Report, 8),
    ];
    for (kind, tagnum) in kinds {
        let p = Pdu::of_kind(kind, InnerPdu::new(9, 1, 1, sample_bindings()));
        let e = p.to_element();
        assert_eq!(e.tag, Tag::new(TagClass::ContextSpecific, tagnum, ContentType::Constructed));
        assert_eq!(e.content, p.inner().to_content());
        let back = Pdu::from_element(&e).unwrap();
        assert_eq!(back.kind(), kind);
        assert_eq!(back, p);
    }
}

#[test]
fn pdu_unknown_tag() {
    let body = || InnerPdu::new(0, 0, 0, Vec::new()).to_content();
    let reserved = Element {
        tag: Tag::new(TagClass::ContextSpecific, 4, ContentType::Constructed),
        content: body(),
    };
    let err = Pdu::from_element(&reserved).unwrap_err();
    assert_eq!(err, DecodeError::PduTag);
    assert_eq!(err.kind(), ErrorKind::InvalidTag);
    let plain = Element { tag: sequence_tag(), content: body() };
    assert_eq!(Pdu::from_element(&plain), Err(DecodeError::PduTag));
    // The tag is judged before the content.
    let both = Element {
        tag: Tag::new(TagClass::ContextSpecific, 9, ContentType::Constructed),
        content: Content::Null,
    };
    assert_eq!(Pdu::from_element(&both), Err(DecodeError::PduTag));
    let empty = Element {
        tag: Tag::new(TagClass::ContextSpecific, 0, ContentType::Constructed),
        content: Content::Sequence(vec![]),
    };
    assert_eq!(Pdu::from_element(&empty), Err(DecodeError::FieldCount));
}

#[test]
fn packet_v2_round_trip() {
    for version in [Version::Version1, Version::Version2, Version::Version3] {
        let p = PacketV2::new(
            version,
            Community::new("public"),
            Pdu::GetResponse(InnerPdu::new(1234, 2, 1, sample_bindings())),
        );
        assert_eq!(PacketV2::from_element(&p.to_element()), Ok(p));
    }
}

#[test]
fn packet_v2_decode_failures() {
    let version = |n| Element { tag: universal(2), content: Content::U8(n) };
    let pdu = || Pdu::new_empty_request(RequestType::Get).to_element();
    let seq = |items| Element { tag: sequence_tag(), content: Content::Sequence(items) };

    assert_eq!(
        PacketV2::from_element(&seq(vec![version(2), octets(b"x"), pdu()])),
        Err(DecodeError::VersionValue)
    );
    assert_eq!(
        PacketV2::from_element(&seq(vec![version(0), pdu(), octets(b"x")])),
        Err(DecodeError::FieldTag)
    );
    assert_eq!(
        PacketV2::from_element(&seq(vec![version(0), octets(b"x")])),
        Err(DecodeError::FieldCount)
    );
    assert_eq!(
        PacketV2::from_element(&seq(vec![version(0), octets(b"x"), octets(b"y")])),
        Err(DecodeError::PduTag)
    );
    assert_eq!(
        PacketV2::from_element(&seq(vec![
            Element { tag: universal(2), content: Content::U32(0) },
            octets(b"x"),
            pdu()
        ])),
        Err(DecodeError::FieldContent)
    );
}

#[test]
fn version_element() {
    assert_eq!(
        Version::Version3.to_element(),
        Element { tag: universal(2), content: Content::U8(3) }
    );
    for v in [Version::Version1, Version::Version2, Version::Version3] {
        assert_eq!(Version::from_element(&v.to_element()), Ok(v));
    }
    let two = Element { tag: universal(2), content: Content::U8(2) };
    assert_eq!(Version::from_element(&two), Err(DecodeError::VersionValue));
    assert_eq!(Version::from_element(&octets(&[0])), Err(DecodeError::FieldTag));
}

#[test]
fn flags_element() {
    let f = MessageFlags { reportable: true, security_level: SecurityLevel::AuthNoPriv };
    assert_eq!(f.to_element(), octets(&[0x05]));
    assert_eq!(MessageFlags::from_element(&octets(&[0x05])), Ok(f));
    assert_eq!(MessageFlags::from_element(&octets(&[])), Err(DecodeError::FlagsLength));
    assert_eq!(MessageFlags::from_element(&octets(&[0, 0])), Err(DecodeError::FlagsLength));
    assert_eq!(MessageFlags::from_element(&octets(&[0x10])), Err(DecodeError::FlagsReserved));
    assert_eq!(
        MessageFlags::from_element(&octets(&[0x02])),
        Err(DecodeError::FlagsSecurityLevel)
    );
    let number = Element { tag: universal(2), content: Content::U8(0) };
    assert_eq!(MessageFlags::from_element(&number), Err(DecodeError::FieldTag));
}

#[test]
fn security_model_element() {
    let m = SecurityModel::UserBasedSecurityModel;
    assert_eq!(m.to_element(), Element { tag: universal(2), content: Content::U8(3) });
    assert_eq!(SecurityModel::from_element(&m.to_element()), Ok(m));
    let other = Element { tag: universal(2), content: Content::U8(1) };
    assert_eq!(SecurityModel::from_element(&other), Err(DecodeError::SecurityModelValue));
}

#[test]
fn security_parameter_round_trip() {
    let p = sample_security();
    let e = p.to_element();
    match &e.content {
        Content::Sequence(fields) => {
            assert_eq!(fields.len(), 6);
            assert_eq!(fields[0], octets(&[0x80, 0x00, 0x1f, 0x88]));
            assert_eq!(fields[1], Element { tag: universal(2), content: Content::U32(3) });
            assert_eq!(fields[2], Element { tag: universal(2), content: Content::U32(4711) });
            assert_eq!(fields[3], octets(b"admin"));
            assert_eq!(fields[4], octets(&[9; 12]));
            assert_eq!(fields[5], octets(&[7; 8]));
        }
        _ => panic!("security parameters must be a sequence"),
    }
    assert_eq!(SecurityParameter::from_element(&e), Ok(p));
    let short = Element { tag: sequence_tag(), content: Content::Sequence(vec![octets(&[1])]) };
    assert_eq!(SecurityParameter::from_element(&short), Err(DecodeError::FieldCount));
}

#[test]
fn scoped_pdu_round_trip() {
    let p = sample_scoped();
    assert_eq!(ScopedPdu::from_element(&p.to_element()), Ok(p));
}

#[test]
fn pdu_v3_choice() {
    let scoped = sample_scoped();
    let from_sequence = PduV3::from_element(&scoped.to_element()).unwrap();
    assert_eq!(from_sequence, PduV3::Scoped(scoped));

    let cipher = [0x30, 0x00, 0xff, 0x00, 0x04];
    let from_octets = PduV3::from_element(&octets(&cipher)).unwrap();
    assert_eq!(from_octets, PduV3::Crypted(OctetString::new(cipher.to_vec())));
    assert_eq!(from_octets.to_element(), octets(&cipher));
    assert_eq!(from_octets.kind(), PayloadKind::Crypted);
    assert_eq!(from_sequence.kind(), PayloadKind::Scoped);
    assert_eq!(PayloadKind::from_tag(&sequence_tag()), Some(PayloadKind::Scoped));
    assert_eq!(PayloadKind::from_tag(&universal(4)), Some(PayloadKind::Crypted));
    assert_eq!(PayloadKind::from_tag(&universal(2)), None);
    assert_eq!(PayloadKind::Scoped.tag(), sequence_tag());
    assert_eq!(PayloadKind::Crypted.tag(), universal(4));
}

#[test]
fn pdu_v3_other_tags() {
    let number = Element { tag: universal(2), content: Content::U8(0) };
    let err = PduV3::from_element(&number).unwrap_err();
    assert_eq!(err, DecodeError::PayloadTag);
    assert_eq!(err.kind(), ErrorKind::InvalidTag);
    assert_eq!(err.message(), "SNMP V3 PDU must be either ScopedPdu or CryptedPdu");
    let pdu = Pdu::new_empty_request(RequestType::Get).to_element();
    assert_eq!(PduV3::from_element(&pdu), Err(DecodeError::PayloadTag));
    let primitive_sequence = Element {
        tag: Tag::new(TagClass::Universal, 16, ContentType::Primitive),
        content: Content::Sequence(vec![]),
    };
    assert_eq!(PduV3::from_element(&primitive_sequence), Err(DecodeError::PayloadTag));
}

#[test]
fn packet_v3_round_trip() {
    let scoped = sample_v3(PduV3::Scoped(sample_scoped()));
    assert_eq!(PacketV3::from_element(&scoped.to_element()), Ok(scoped));
    let crypted = sample_v3(PduV3::Crypted(OctetString::new(vec![1, 2, 3, 4, 5])));
    assert_eq!(PacketV3::from_element(&crypted.to_element()), Ok(crypted));
}

#[test]
fn packet_v3_field_order() {
    let p = sample_v3(PduV3::Crypted(OctetString::new(vec![0xaa])));
    let e = p.to_element();
    assert_eq!(e.tag, sequence_tag());
    match &e.content {
        Content::Sequence(fields) => {
            assert_eq!(fields.len(), 7);
            assert_eq!(fields[0], Element { tag: universal(2), content: Content::U8(3) });
            assert_eq!(fields[1], Element { tag: universal(2), content: Content::U32(77) });
            assert_eq!(fields[2], Element { tag: universal(2), content: Content::U32(65507) });
            assert_eq!(fields[3], octets(&[0x07]));
            assert_eq!(fields[4], Element { tag: universal(2), content: Content::U8(3) });
            assert_eq!(fields[5], sample_security().to_element());
            assert_eq!(fields[6], octets(&[0xaa]));
        }
        _ => panic!("a message must be a sequence"),
    }
}

fn v3_fields() -> Vec<Element> {
    match sample_v3(PduV3::Crypted(OctetString::new(vec![0xaa]))).to_element().content {
        Content::Sequence(fields) => fields,
        _ => panic!("a message must be a sequence"),
    }
}

fn v3_with(index: usize, field: Element) -> Element {
    let mut fields = v3_fields();
    fields[index] = field;
    Element { tag: sequence_tag(), content: Content::Sequence(fields) }
}

#[test]
fn packet_v3_decode_failures() {
    let number8 = |n| Element { tag: universal(2), content: Content::U8(n) };
    assert_eq!(PacketV3::from_element(&v3_with(0, number8(2))), Err(DecodeError::VersionValue));
    assert_eq!(
        PacketV3::from_element(&v3_with(3, octets(&[0x08]))),
        Err(DecodeError::FlagsReserved)
    );
    assert_eq!(
        PacketV3::from_element(&v3_with(3, octets(&[0x07, 0x00]))),
        Err(DecodeError::FlagsLength)
    );
    assert_eq!(
        PacketV3::from_element(&v3_with(4, number8(1))),
        Err(DecodeError::SecurityModelValue)
    );
    assert_eq!(PacketV3::from_element(&v3_with(6, number8(1))), Err(DecodeError::PayloadTag));
    assert_eq!(PacketV3::from_element(&v3_with(5, octets(&[1]))), Err(DecodeError::FieldTag));

    let mut six = v3_fields();
    six.pop();
    let six = Element { tag: sequence_tag(), content: Content::Sequence(six) };
    assert_eq!(PacketV3::from_element(&six), Err(DecodeError::FieldCount));

    // With two bad fields, the earlier one decides.
    let mut fields = v3_fields();
    fields[0] = number8(2);
    fields[4] = number8(1);
    let both = Element { tag: sequence_tag(), content: Content::Sequence(fields) };
    assert_eq!(PacketV3::from_element(&both), Err(DecodeError::VersionValue));
}

#[test]
fn element_readers() {
    assert_eq!(Element::from_u8(7).read_u8(), Ok(7));
    assert_eq!(Element::from_u32(70000).read_u32(), Ok(70000));
    assert_eq!(Element::from_u32(7).read_u8(), Err(DecodeError::FieldContent));
    assert_eq!(Element::from_u8(7).read_u32(), Err(DecodeError::FieldContent));
    assert_eq!(Element::from_octets(&vec![1, 2]).read_octets(), Ok(vec![1, 2]));
    assert_eq!(Element::from_octets(&vec![1, 2]).read_u8(), Err(DecodeError::FieldTag));
    assert_eq!(Element::from_oid(&oid(&[1, 3, 6])).read_oid(), Ok(oid(&[1, 3, 6])));
    assert_eq!(Element::from_u8(1).read_oid(), Err(DecodeError::FieldTag));

    let seq = Element::from_fields(vec![Element::from_u8(1), Element::from_u8(2)]);
    assert_eq!(seq.tag, sequence_tag());
    assert_eq!(seq.read_fields(2).map(|f| f.len()), Ok(2));
    assert_eq!(seq.read_fields(3).map(|f| f.len()), Err(DecodeError::FieldCount));
    assert_eq!(seq.read_fields_any().map(|f| f.len()), Ok(2));
    assert_eq!(Element::from_u8(1).read_fields_any().map(|f| f.len()), Err(DecodeError::FieldTag));
    assert_eq!(seq.content.kind(), ContentKind::Sequence);
}

fn read_as(shape: Shape, e: &Element) -> bool {
    let reading = match shape.reading(&e.tag) {
        Ok(reading) => reading,
        Err(_) => return false,
    };
    match (reading, &e.content) {
        (Reading::Primitive(kind), content) => content.kind() == kind,
        (Reading::Fields(fields), Content::Sequence(items)) => {
            fields.len() == items.len()
                && fields.iter().zip(items.iter()).all(|(shape, item)| read_as(*shape, item))
        }
        (Reading::Items(shape), Content::Sequence(items)) => {
            items.iter().all(|item| read_as(shape, item))
        }
        _ => false,
    }
}

#[test]
fn encoded_messages_have_their_layout() {
    let v2 = PacketV2::new(
        Version::Version2,
        Community::new("public"),
        Pdu::GetResponse(InnerPdu::new(1, 0, 0, sample_bindings())),
    );
    assert!(read_as(Shape::MessageV2, &v2.to_element()));
    assert!(!read_as(Shape::MessageV3, &v2.to_element()));
    let scoped = sample_v3(PduV3::Scoped(sample_scoped()));
    assert!(read_as(Shape::MessageV3, &scoped.to_element()));
    let crypted = sample_v3(PduV3::Crypted(OctetString::new(vec![1, 2])));
    assert!(read_as(Shape::MessageV3, &crypted.to_element()));
    assert!(!read_as(Shape::MessageV2, &crypted.to_element()));
    assert!(read_as(Shape::Payload, &sample_scoped().to_element()));
    assert!(read_as(Shape::Parameters, &sample_security().to_element()));
}

#[test]
fn layout_failures_come_from_elements_outside_the_layout() {
    // An element of the layout fails for a value only.
    let bad_version = v3_with(0, Element { tag: universal(2), content: Content::U8(2) });
    assert!(read_as(Shape::MessageV3, &bad_version));
    assert_eq!(PacketV3::from_element(&bad_version), Err(DecodeError::VersionValue));
    let bad_flags = v3_with(3, octets(&[]));
    assert!(read_as(Shape::MessageV3, &bad_flags));
    assert_eq!(PacketV3::from_element(&bad_flags), Err(DecodeError::FlagsLength));
    // One outside the layout does not decode.
    let bad_tag = v3_with(1, octets(&[1]));
    assert!(!read_as(Shape::MessageV3, &bad_tag));
    assert_eq!(PacketV3::from_element(&bad_tag), Err(DecodeError::FieldTag));
}
