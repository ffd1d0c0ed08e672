use snmp_codec::{
    Community, ContentKind, ContentType, DecodeError, ErrorIndex, ErrorKind, ErrorStatus, InnerPdu,
    MessageFlags, ObjectIdentifier, OctetString, PacketV2, Pdu, PduKind, RequestID, RequestType,
    Reading, ResponseType, SecurityLevel, SecurityModel, Shape, Tag, TagClass, VarBind, Variable,
    VariableKind, Version,
};

fn oid(arcs: &[u32]) -> ObjectIdentifier {
    ObjectIdentifier { arcs: arcs.to_vec() }
}

#[test]
fn version_numbers() {
    assert_eq!(Version::from_number(0), Ok(Version::Version1));
    assert_eq!(Version::from_number(1), Ok(Version::Version2));
    assert_eq!(Version::from_number(3), Ok(Version::Version3));
    assert_eq!(Version::Version1.number(), 0);
    assert_eq!(Version::Version2.number(), 1);
    assert_eq!(Version::Version3.number(), 3);
}

#[test]
fn version_two_is_rejected() {
    let err = Version::from_number(2).unwrap_err();
    assert_eq!(err, DecodeError::VersionValue);
    assert_eq!(err.kind(), ErrorKind::InvalidValue);
    assert_eq!(err.message(), "Version value must be within [0, 3]");
    for n in 4..=255u8 {
        assert_eq!(Version::from_number(n), Err(DecodeError::VersionValue));
    }
}

#[test]
fn version_names() {
    assert_eq!(Version::Version1.name(), "v1");
    assert_eq!(Version::Version2.name(), "v2c");
    assert_eq!(Version::Version3.name(), "v3");
}

#[test]
fn error_status_names() {
    assert_eq!(ErrorStatus::new(0).name(), "noError");
    assert_eq!(ErrorStatus::new(18).name(), "inconsistentName");
    assert_eq!(ErrorStatus::new(42).name(), "otherError");
    assert_eq!(ErrorStatus::new(19).name(), "otherError");
    assert_eq!(ErrorStatus::new(u32::MAX).name(), "otherError");
}

#[test]
fn error_status_every_named_code() {
    let names = [
        "noError",
        "tooBig",
        "noSuchName",
        "badValue",
        "readOnly",
        "genErr",
        "noAccess",
        "wrongType",
        "wrongLength",
        "wrongEncoding",
        "wrongValue",
        "noCreation",
        "inconsistentValue",
        "resourceUnavailable",
        "commitFailed",
        "undoFailed",
        "authorizationError",
        "notWritable",
        "inconsistentName",
    ];
    for (code, name) in names.iter().enumerate() {
        assert_eq!(ErrorStatus::new(code as u32).name(), *name);
    }
}

#[test]
fn scalar_conversions() {
    assert_eq!(RequestID::from(7u32), RequestID(7));
    assert_eq!(u32::from(RequestID(7)), 7);
    assert_eq!(ErrorStatus::from(5u32), ErrorStatus(5));
    assert_eq!(u32::from(ErrorStatus(5)), 5);
    assert_eq!(ErrorIndex::from(2u32), ErrorIndex(2));
    assert_eq!(u32::from(ErrorIndex(2)), 2);
    assert_eq!(RequestID::new(9).value(), 9);
    assert_eq!(ErrorIndex::new(3).value(), 3);
    assert_eq!(ErrorStatus::new(4).value(), 4);
}

#[test]
fn community_holds_the_utf8_octets() {
    assert_eq!(Community::new("test").0.bytes, vec![0x74, 0x65, 0x73, 0x74]);
    assert_eq!(Community::new("").0.bytes, Vec::<u8>::new());
    assert_eq!(Community::new("é").0.bytes, vec![0xc3, 0xa9]);
    assert_eq!(OctetString::from_str("ab"), OctetString::new(vec![0x61, 0x62]));
}

#[test]
fn flags_unpack() {
    assert_eq!(
        MessageFlags::from_octets(&vec![0x00]),
        Ok(MessageFlags { reportable: false, security_level: SecurityLevel::NoAuthNoPriv })
    );
    assert_eq!(
        MessageFlags::from_octets(&vec![0x07]),
        Ok(MessageFlags { reportable: true, security_level: SecurityLevel::AuthPriv })
    );
    assert_eq!(
        MessageFlags::from_octets(&vec![0x01]),
        Ok(MessageFlags { reportable: false, security_level: SecurityLevel::AuthNoPriv })
    );
    assert_eq!(
        MessageFlags::from_octets(&vec![0x04]),
        Ok(MessageFlags { reportable: true, security_level: SecurityLevel::NoAuthNoPriv })
    );
}

#[test]
fn flags_invalid_level() {
    let err = MessageFlags::from_octets(&vec![0x02]).unwrap_err();
    assert_eq!(err, DecodeError::FlagsSecurityLevel);
    assert_eq!(err.kind(), ErrorKind::InvalidValue);
    assert_eq!(MessageFlags::from_octets(&vec![0x06]), Err(DecodeError::FlagsSecurityLevel));
}

#[test]
fn flags_reserved_bits() {
    let err = MessageFlags::from_octets(&vec![0x08]).unwrap_err();
    assert_eq!(err, DecodeError::FlagsReserved);
    assert_eq!(err.kind(), ErrorKind::InvalidValue);
    assert_eq!(MessageFlags::from_octets(&vec![0x80]), Err(DecodeError::FlagsReserved));
    assert_eq!(MessageFlags::from_octets(&vec![0xff]), Err(DecodeError::FlagsReserved));
    // The reserved bits are looked at before the security level.
    assert_eq!(MessageFlags::from_octets(&vec![0x0a]), Err(DecodeError::FlagsReserved));
}

#[test]
fn flags_wrong_length() {
    let none = MessageFlags::from_octets(&vec![]).unwrap_err();
    assert_eq!(none, DecodeError::FlagsLength);
    assert_eq!(none.kind(), ErrorKind::InvalidLength);
    let two = MessageFlags::from_octets(&vec![0x00, 0x00]).unwrap_err();
    assert_eq!(two, DecodeError::FlagsLength);
    assert_eq!(two.message(), "message flags must be encoded in 1 byte");
}

#[test]
fn flags_pack_with_or() {
    let level = |reportable, security_level| MessageFlags { reportable, security_level }.octet();
    assert_eq!(level(false, SecurityLevel::NoAuthNoPriv), 0x00);
    assert_eq!(level(false, SecurityLevel::AuthNoPriv), 0x01);
    assert_eq!(level(false, SecurityLevel::AuthPriv), 0x03);
    assert_eq!(level(true, SecurityLevel::NoAuthNoPriv), 0x04);
    assert_eq!(level(true, SecurityLevel::AuthNoPriv), 0x05);
    assert_eq!(level(true, SecurityLevel::AuthPriv), 0x07);
}

#[test]
fn flags_every_octet_round_trips_or_fails() {
    for b in 0..=255u8 {
        match MessageFlags::from_octets(&vec![b]) {
            Ok(f) => {
                assert!(b < 8 && b % 4 != 2);
                assert_eq!(f.octet(), b);
                assert_eq!(f.octet() & 0xf8, 0);
            }
            Err(_) => assert!(b >= 8 || b % 4 == 2),
        }
    }
}

#[test]
fn security_model_numbers() {
    assert_eq!(SecurityModel::UserBasedSecurityModel.number(), 3);
    assert_eq!(SecurityModel::from_number(3), Ok(SecurityModel::UserBasedSecurityModel));
    for n in 0..=255u8 {
        if n != 3 {
            let err = SecurityModel::from_number(n).unwrap_err();
            assert_eq!(err, DecodeError::SecurityModelValue);
            assert_eq!(err.kind(), ErrorKind::InvalidValue);
        }
    }
    assert_eq!(SecurityLevel::NoAuthNoPriv.number(), 0);
    assert_eq!(SecurityLevel::AuthNoPriv.number(), 1);
    assert_eq!(SecurityLevel::AuthPriv.number(), 3);
}

#[test]
fn variable_tag_table() {
    let primitive = ContentType::Primitive;
    let table = [
        (VariableKind::Integer, TagClass::Universal, 2u8),
        (VariableKind::BitString, TagClass::Universal, 3),
        (VariableKind::OctetString, TagClass::Universal, 4),
        (VariableKind::Null, TagClass::Universal, 5),
        (VariableKind::Oid, TagClass::Universal, 6),
        (VariableKind::IpAddress, TagClass::Application, 0),
        (VariableKind::Counter, TagClass::Application, 1),
        (VariableKind::Gauge, TagClass::Application, 2),
        (VariableKind::TimeTicks, TagClass::Application, 3),
        (VariableKind::Opaque, TagClass::Application, 4),
        (VariableKind::Counter64, TagClass::Application, 6),
        (VariableKind::NoSuchObject, TagClass::ContextSpecific, 0),
        (VariableKind::NoSuchInstance, TagClass::ContextSpecific, 1),
        (VariableKind::EndOfMibView, TagClass::ContextSpecific, 2),
    ];
    for (kind, class, tagnum) in table {
        let tag = Tag::new(class, tagnum, primitive);
        assert_eq!(kind.tag(), tag);
        assert_eq!(VariableKind::from_tag(&tag), Some(kind));
        // The constructed twin of a registered tag is not registered.
        assert_eq!(VariableKind::from_tag(&Tag::new(class, tagnum, ContentType::Constructed)), None);
    }
    assert_eq!(VariableKind::from_tag(&Tag::new(TagClass::Application, 5, primitive)), None);
    assert_eq!(VariableKind::from_tag(&Tag::new(TagClass::Application, 7, primitive)), None);
    assert_eq!(VariableKind::from_tag(&Tag::new(TagClass::ContextSpecific, 3, primitive)), None);
    assert_eq!(VariableKind::from_tag(&Tag::new(TagClass::Universal, 1, primitive)), None);
    assert_eq!(VariableKind::from_tag(&Tag::new(TagClass::Private, 0, primitive)), None);
}

#[test]
fn variable_content_kinds() {
    assert_eq!(VariableKind::Integer.content_kind(), ContentKind::I32);
    assert_eq!(VariableKind::BitString.content_kind(), ContentKind::Bits);
    assert_eq!(VariableKind::OctetString.content_kind(), ContentKind::Bytes);
    assert_eq!(VariableKind::Null.content_kind(), ContentKind::Null);
    assert_eq!(VariableKind::Oid.content_kind(), ContentKind::Oid);
    assert_eq!(VariableKind::IpAddress.content_kind(), ContentKind::Bytes);
    assert_eq!(VariableKind::Counter.content_kind(), ContentKind::U32);
    assert_eq!(VariableKind::Gauge.content_kind(), ContentKind::U32);
    assert_eq!(VariableKind::TimeTicks.content_kind(), ContentKind::U32);
    assert_eq!(VariableKind::Opaque.content_kind(), ContentKind::Bytes);
    assert_eq!(VariableKind::Counter64.content_kind(), ContentKind::U64);
    assert_eq!(VariableKind::NoSuchObject.content_kind(), ContentKind::Null);
    assert_eq!(VariableKind::NoSuchInstance.content_kind(), ContentKind::Null);
    assert_eq!(VariableKind::EndOfMibView.content_kind(), ContentKind::Null);
}

#[test]
fn pdu_tag_table() {
    let table = [
        (PduKind::GetRequest, 0u8),
        (PduKind::GetNextRequest, 1),
        (PduKind::GetResponse, 2),
        (PduKind::SetRequest, 3),
        (PduKind::GetBulkRequest, 5),
        (PduKind::Inform, 6),
        (PduKind::Trap, 7),
        (PduKind::Report, 8),
    ];
    for (kind, tagnum) in table {
        let tag = Tag::new(TagClass::ContextSpecific, tagnum, ContentType::Constructed);
        assert_eq!(kind.tag(), tag);
        assert_eq!(PduKind::from_tag(&tag), Some(kind));
        assert_eq!(
            PduKind::from_tag(&Tag::new(TagClass::ContextSpecific, tagnum, ContentType::Primitive)),
            None
        );
    }
    let constructed = ContentType::Constructed;
    assert_eq!(PduKind::from_tag(&Tag::new(TagClass::ContextSpecific, 4, constructed)), None);
    assert_eq!(PduKind::from_tag(&Tag::new(TagClass::ContextSpecific, 9, constructed)), None);
    assert_eq!(PduKind::from_tag(&Tag::new(TagClass::Application, 0, constructed)), None);
    assert_eq!(PduKind::from_tag(&Tag::new(TagClass::Universal, 16, constructed)), None);
}

#[test]
fn tags_compare_by_all_three_parts() {
    let tag = Tag::new(TagClass::Application, 1, ContentType::Primitive);
    assert!(tag.same(&Tag::new(TagClass::Application, 1, ContentType::Primitive)));
    assert!(!tag.same(&Tag::new(TagClass::Application, 2, ContentType::Primitive)));
    assert!(!tag.same(&Tag::new(TagClass::Application, 1, ContentType::Constructed)));
    assert!(!tag.same(&Tag::new(TagClass::ContextSpecific, 1, ContentType::Primitive)));
}

#[test]
fn pdu_classification() {
    let inner = || InnerPdu::new(1, 0, 0, Vec::new());
    let get = Pdu::GetRequest(inner());
    assert!(get.is_request_type());
    assert!(!get.is_response_type());
    assert_eq!(get.request_type(), Some(RequestType::Get));
    assert_eq!(get.response_type(), None);

    let report = Pdu::Report(inner());
    assert!(!report.is_request_type());
    assert!(report.is_response_type());
    assert_eq!(report.response_type(), Some(ResponseType::Report));

    let trap = Pdu::Trap(inner());
    assert!(!trap.is_request_type());
    assert!(!trap.is_response_type());
    let inform = Pdu::Inform(inner());
    assert!(!inform.is_request_type());
    assert!(!inform.is_response_type());

    assert_eq!(Pdu::GetNextRequest(inner()).request_type(), Some(RequestType::GetNext));
    assert_eq!(Pdu::SetRequest(inner()).request_type(), Some(RequestType::SetValue));
    assert_eq!(Pdu::GetBulkRequest(inner()).request_type(), Some(RequestType::GetBulk));
    assert_eq!(Pdu::GetResponse(inner()).response_type(), Some(ResponseType::GetResponse));
    assert!(Pdu::GetResponse(inner()).is_response_type());
}

#[test]
fn pdu_builders() {
    let binds = vec![VarBind::new_null(oid(&[1, 3, 6, 1]))];
    let p = Pdu::new_request(RequestType::GetBulk, 11, 1, 2, binds.clone());
    assert_eq!(p, Pdu::GetBulkRequest(InnerPdu::new(11, 1, 2, binds)));
    assert_eq!(p.kind(), PduKind::GetBulkRequest);
    assert_eq!(p.inner().request_id(), 11);
    assert_eq!(
        Pdu::new_empty_request(RequestType::SetValue),
        Pdu::SetRequest(InnerPdu::new(0, 0, 0, Vec::new()))
    );
    assert_eq!(
        Pdu::of_kind(PduKind::Trap, InnerPdu::new(3, 0, 0, Vec::new())),
        Pdu::Trap(InnerPdu::new(3, 0, 0, Vec::new()))
    );
}

#[test]
fn var_bind_accessors() {
    let b = VarBind::new(oid(&[1, 3, 6]), Variable::Counter(5));
    assert_eq!(b.oid(), &oid(&[1, 3, 6]));
    assert_eq!(b.value(), &Variable::Counter(5));
    let n = VarBind::new_null(oid(&[1, 3]));
    assert_eq!(n.oid(), &oid(&[1, 3]));
    assert_eq!(n.value(), &Variable::Null);
    assert_eq!(Variable::Gauge(1).kind(), VariableKind::Gauge);
}

#[test]
fn inner_pdu_accessors() {
    let first = VarBind::new_null(oid(&[1, 3, 6, 1]));
    let second = VarBind::new(oid(&[1, 3, 6, 2]), Variable::Integer(-4));
    let mut p = InnerPdu::new(1, 2, 3, vec![first.clone()]);
    assert_eq!((p.request_id(), p.error_status(), p.error_index()), (1, 2, 3));
    assert_eq!(p.binds(), &vec![first.clone()]);

    p.set_request_id(10);
    p.set_error_status(20);
    p.set_error_index(30);
    assert_eq!((p.request_id(), p.error_status(), p.error_index()), (10, 20, 30));
    assert_eq!(p.binds(), &vec![first.clone()]);

    p.binds_mut().push(second.clone());
    assert_eq!(p.binds(), &vec![first.clone(), second.clone()]);
    assert_eq!(p.request_id(), 10);

    p.set_binds(vec![second.clone()]);
    assert_eq!(p.binds(), &vec![second.clone()]);
    assert_eq!(p.into_binds(), vec![second]);
}

#[test]
fn packet_v2_accessors() {
    let mut p = PacketV2::new(
        Version::Version1,
        Community::new("public"),
        Pdu::new_empty_request(RequestType::Get),
    );
    assert_eq!(p.version(), Version::Version1);
    assert_eq!(p.community(), &Community::new("public"));
    assert_eq!(p.pdu(), &Pdu::new_empty_request(RequestType::Get));

    p.set_version(Version::Version2);
    assert_eq!(p.version(), Version::Version2);
    assert_eq!(p.community(), &Community::new("public"));

    p.set_community(Community::new("private"));
    assert_eq!(p.community(), &Community::new("private"));
    assert_eq!(p.version(), Version::Version2);

    p.set_pdu(Pdu::new_empty_request(RequestType::GetNext));
    assert_eq!(p.pdu(), &Pdu::new_empty_request(RequestType::GetNext));

    *p.pdu_mut() = Pdu::Report(InnerPdu::new(4, 0, 0, Vec::new()));
    assert_eq!(p.pdu(), &Pdu::Report(InnerPdu::new(4, 0, 0, Vec::new())));
    assert_eq!(p.community(), &Community::new("private"));
    assert_eq!(p.into_pdu(), Pdu::Report(InnerPdu::new(4, 0, 0, Vec::new())));
}

#[test]
fn error_kinds_and_messages() {
    let table = [
        (DecodeError::VersionValue, ErrorKind::InvalidValue),
        (DecodeError::VariableTag, ErrorKind::InvalidTag),
        (DecodeError::PduTag, ErrorKind::InvalidTag),
        (DecodeError::AddressLength, ErrorKind::InvalidLength),
        (DecodeError::FlagsLength, ErrorKind::InvalidLength),
        (DecodeError::FlagsReserved, ErrorKind::InvalidValue),
        (DecodeError::FlagsSecurityLevel, ErrorKind::InvalidValue),
        (DecodeError::SecurityModelValue, ErrorKind::InvalidValue),
        (DecodeError::PayloadTag, ErrorKind::InvalidTag),
        (DecodeError::FieldTag, ErrorKind::InvalidTag),
        (DecodeError::FieldContent, ErrorKind::InvalidValue),
        (DecodeError::FieldCount, ErrorKind::InvalidLength),
    ];
    for (err, kind) in table {
        assert_eq!(err.kind(), kind);
        assert!(!err.message().is_empty());
    }
    assert_eq!(DecodeError::VariableTag.message(), "expected Variable related tag");
    assert_eq!(DecodeError::PduTag.message(), "expected PDU related tag");
    assert_eq!(
        DecodeError::PayloadTag.message(),
        "SNMP V3 PDU must be either ScopedPdu or CryptedPdu"
    );
    assert_eq!(
        DecodeError::SecurityModelValue.message(),
        "security model should be UserBasedSecurityModel (3)"
    );
    assert_eq!(DecodeError::FlagsSecurityLevel.message(), "invalid security level flag set");
}

#[test]
fn readings_of_plain_places() {
    let integer = Tag::new(TagClass::Universal, 2, ContentType::Primitive);
    let octets = Tag::new(TagClass::Universal, 4, ContentType::Primitive);
    let identifier = Tag::new(TagClass::Universal, 6, ContentType::Primitive);
    assert_eq!(Shape::Number8.reading(&integer), Ok(Reading::Primitive(ContentKind::U8)));
    assert_eq!(Shape::Number32.reading(&integer), Ok(Reading::Primitive(ContentKind::U32)));
    assert_eq!(Shape::Octets.reading(&octets), Ok(Reading::Primitive(ContentKind::Bytes)));
    assert_eq!(Shape::Identifier.reading(&identifier), Ok(Reading::Primitive(ContentKind::Oid)));
    assert_eq!(Shape::Number8.reading(&octets), Err(DecodeError::FieldTag));
    assert_eq!(Shape::Number32.reading(&octets), Err(DecodeError::FieldTag));
    assert_eq!(Shape::Octets.reading(&integer), Err(DecodeError::FieldTag));
    assert_eq!(Shape::Identifier.reading(&integer), Err(DecodeError::FieldTag));
}

#[test]
fn readings_of_choices() {
    let primitive = ContentType::Primitive;
    let constructed = ContentType::Constructed;
    let sequence = Tag::new(TagClass::Universal, 16, constructed);
    assert_eq!(
        Shape::Value.reading(&Tag::new(TagClass::Application, 6, primitive)),
        Ok(Reading::Primitive(ContentKind::U64))
    );
    assert_eq!(
        Shape::Value.reading(&Tag::new(TagClass::Application, 0, primitive)),
        Ok(Reading::Primitive(ContentKind::Bytes))
    );
    assert_eq!(
        Shape::Value.reading(&Tag::new(TagClass::ContextSpecific, 1, primitive)),
        Ok(Reading::Primitive(ContentKind::Null))
    );
    assert_eq!(
        Shape::Value.reading(&Tag::new(TagClass::Application, 5, primitive)),
        Err(DecodeError::VariableTag)
    );
    let body = vec![Shape::Number32, Shape::Number32, Shape::Number32, Shape::Bindings];
    for tagnum in [0u8, 1, 2, 3, 5, 6, 7, 8] {
        assert_eq!(
            Shape::Pdu.reading(&Tag::new(TagClass::ContextSpecific, tagnum, constructed)),
            Ok(Reading::Fields(body.clone()))
        );
    }
    assert_eq!(
        Shape::Pdu.reading(&Tag::new(TagClass::ContextSpecific, 4, constructed)),
        Err(DecodeError::PduTag)
    );
    assert_eq!(
        Shape::Payload.reading(&sequence),
        Ok(Reading::Fields(vec![Shape::Octets, Shape::Octets, Shape::Pdu]))
    );
    assert_eq!(
        Shape::Payload.reading(&Tag::new(TagClass::Universal, 4, primitive)),
        Ok(Reading::Primitive(ContentKind::Bytes))
    );
    assert_eq!(
        Shape::Payload.reading(&Tag::new(TagClass::Universal, 2, primitive)),
        Err(DecodeError::PayloadTag)
    );
}

#[test]
fn readings_of_sequences() {
    let sequence = Tag::new(TagClass::Universal, 16, ContentType::Constructed);
    let integer = Tag::new(TagClass::Universal, 2, ContentType::Primitive);
    assert_eq!(
        Shape::Binding.reading(&sequence),
        Ok(Reading::Fields(vec![Shape::Identifier, Shape::Value]))
    );
    assert_eq!(Shape::Bindings.reading(&sequence), Ok(Reading::Items(Shape::Binding)));
    assert_eq!(
        Shape::MessageV2.reading(&sequence),
        Ok(Reading::Fields(vec![Shape::Number8, Shape::Octets, Shape::Pdu]))
    );
    assert_eq!(
        Shape::Parameters.reading(&sequence),
        Ok(Reading::Fields(vec![
            Shape::Octets,
            Shape::Number32,
            Shape::Number32,
            Shape::Octets,
            Shape::Octets,
            Shape::Octets,
        ]))
    );
    assert_eq!(
        Shape::MessageV3.reading(&sequence),
        Ok(Reading::Fields(vec![
            Shape::Number8,
            Shape::Number32,
            Shape::Number32,
            Shape::Octets,
            Shape::Number8,
            Shape::Parameters,
            Shape::Payload,
        ]))
    );
    for shape in [
        Shape::Binding,
        Shape::Bindings,
        Shape::Parameters,
        Shape::MessageV2,
        Shape::MessageV3,
    ] {
        assert_eq!(shape.reading(&integer), Err(DecodeError::FieldTag));
    }
}
