use ldap_parser::ber::{
    read_any, read_enumerated, read_header, read_u32, read_u8, Header, Length,
};
use ldap_parser::error::{BerError, Class, DecodeError, ErrorKind, LdapError, Needed};
use ldap_parser::filter::{Filter, Substring};
use ldap_parser::filter_parser::{parse_filter, parse_ldap_filter, MAX_FILTER_DEPTH};
use ldap_parser::ldap::{
    BindResponse, DerefAliases, ExtendedResponse, IntermediateResponse, LdapMessage, MessageID,
    Operation, ProtocolOp, ProtocolOpTag, ResultCode, SearchScope,
};
use ldap_parser::parser::{
    parse_ldap_bind_request, parse_ldap_control, parse_ldap_search_result_ref,
    parse_ldap_string, parse_ldap_unbind_request,
};
use ldap_parser::{parse_ldap_message, parse_ldap_messages, FromBer};
use std::borrow::Cow;

fn item(tag: u8, content: &[u8]) -> Vec<u8> {
    let mut v = vec![tag];
    let n = content.len();
    if n < 128 {
        v.push(n as u8);
    } else if n < 256 {
        v.push(0x81);
        v.push(n as u8);
    } else {
        v.push(0x82);
        v.push((n >> 8) as u8);
        v.push(n as u8);
    }
    v.extend_from_slice(content);
    v
}

fn ber(e: BerError) -> DecodeError {
    DecodeError::Error(LdapError::Ber(e))
}

/// A message with identifier 1 that holds `op` and then `tail`.
fn message(op: &[u8], tail: &[u8]) -> Vec<u8> {
    item(0x30, &[item(0x02, &[1]), op.to_vec(), tail.to_vec()].concat())
}

fn plain(code: u8) -> Vec<u8> {
    [item(0x0a, &[code]), item(0x04, b""), item(0x04, b"")].concat()
}

/// A `present` filter inside `levels - 1` `not` filters.
fn nested_not(levels: usize) -> Vec<u8> {
    let mut f = item(0x87, b"cn");
    for _ in 1..levels {
        f = item(0xa2, &f);
    }
    f
}

#[test]
fn unbind_request_alone() {
    let (rem, op) = parse_ldap_unbind_request(&[0x42, 0x00]).unwrap();
    assert_eq!(rem.len(), 0);
    assert_eq!(op, ProtocolOp::UnbindRequest);
    assert_eq!(op.tag(), ProtocolOpTag(2));
    assert!(op.result().is_none());
}

#[test]
fn unbind_with_null_content() {
    let (rem, op) = parse_ldap_unbind_request(&[0x42, 0x02, 0x05, 0x00]).unwrap();
    assert!(rem.is_empty());
    assert_eq!(op, ProtocolOp::UnbindRequest);
}

#[test]
fn unbind_with_other_content_is_rejected() {
    let e = parse_ldap_unbind_request(&[0x42, 0x02, 0x04, 0x00]).unwrap_err();
    assert_eq!(e, ber(BerError::UnexpectedTag { expected: Some(5), actual: 4 }));
}

#[test]
fn minimal_bind_response() {
    let data = [0x61, 0x84, 0x00, 0x00, 0x00, 0x07, 0x0a, 0x01, 0x00, 0x04, 0x00, 0x04, 0x00];
    let (rem, resp) = BindResponse::from_ber(&data).unwrap();
    assert!(rem.is_empty());
    assert_eq!(resp.result.result_code, ResultCode(0));
    assert_eq!(resp.result.matched_dn.0, "");
    assert_eq!(resp.result.diagnostic_message.0, "");
    assert_eq!(resp.server_sasl_creds, None);
}

#[test]
fn minimal_extended_response() {
    let data = [0x78, 0x07, 0x0a, 0x01, 0x00, 0x04, 0x00, 0x04, 0x00];
    let (rem, resp) = ExtendedResponse::from_ber(&data).unwrap();
    assert!(rem.is_empty());
    assert_eq!(resp.result.result_code, ResultCode(0));
    assert!(resp.response_name.is_none());
    assert!(resp.response_value.is_none());
}

#[test]
fn extended_response_with_name_and_value() {
    let data = item(0x78, &[plain(0), item(0x8a, b"1.2.3"), item(0x8b, &[1, 2])].concat());
    let (rem, resp) = ExtendedResponse::from_ber(&data).unwrap();
    assert!(rem.is_empty());
    assert_eq!(resp.response_name.unwrap().0, "1.2.3");
    assert_eq!(resp.response_value, Some(Cow::Borrowed(&[1u8, 2][..])));
}

#[test]
fn intermediate_response_fields() {
    let data = item(0x79, &[item(0x80, b"1.2"), item(0x81, &[9])].concat());
    let (rem, resp) = IntermediateResponse::from_ber(&data).unwrap();
    assert!(rem.is_empty());
    assert_eq!(resp.response_name.unwrap().0, "1.2");
    assert_eq!(resp.response_value, Some(Cow::Borrowed(&[9u8][..])));
    let (_, empty) = IntermediateResponse::from_ber(&[0x79, 0x00]).unwrap();
    assert!(empty.response_name.is_none() && empty.response_value.is_none());
}

#[test]
fn abandon_in_a_message() {
    let (rem, msg) = parse_ldap_message(&[0x30, 0x06, 0x02, 0x01, 0x06, 0x50, 0x01, 0x05]).unwrap();
    assert!(rem.is_empty());
    assert_eq!(msg.message_id, MessageID(6));
    assert_eq!(msg.protocol_op, ProtocolOp::AbandonRequest(MessageID(5)));
    assert_eq!(msg.controls, None);
}

#[test]
fn empty_input_is_short() {
    assert_eq!(parse_ldap_message(&[]).unwrap_err(), DecodeError::Incomplete(Needed::Size(1)));
    assert_eq!(parse_ldap_messages(&[]).unwrap_err(), DecodeError::Incomplete(Needed::Size(1)));
}

#[test]
fn declared_length_beyond_input_reports_missing_octets() {
    // ten octets announced, three present
    let e = parse_ldap_message(&[0x30, 0x0a, 0x02, 0x01, 0x06]).unwrap_err();
    assert_eq!(e, DecodeError::Incomplete(Needed::Size(7)));
    // long form: 0x0102 = 258 announced, none present
    let e = read_any(&[0x04, 0x82, 0x01, 0x02]).unwrap_err();
    assert_eq!(e, DecodeError::Incomplete(Needed::Size(258)));
    // exactly enough
    assert!(read_any(&[0x04, 0x01, 0xaa]).is_ok());
}

#[test]
fn header_fields_are_decoded() {
    let (rem, h) = read_header(&[0x61, 0x84, 0x00, 0x00, 0x00, 0x07, 0xff]).unwrap();
    assert_eq!(rem, &[0xff]);
    assert_eq!(
        h,
        Header { class: Class::Application, constructed: true, tag: 1, length: Length::Definite(7) }
    );
    let (_, h) = read_header(&[0x9f, 0x81, 0x01, 0x00]).unwrap();
    assert_eq!(
        h,
        Header { class: Class::ContextSpecific, constructed: false, tag: 129, length: Length::Definite(0) }
    );
    let (_, h) = read_header(&[0xe5, 0x80]).unwrap();
    assert_eq!(h, Header { class: Class::Private, constructed: true, tag: 5, length: Length::Indefinite });
}

#[test]
fn header_errors() {
    assert_eq!(read_header(&[0x30]).unwrap_err(), DecodeError::Incomplete(Needed::Size(1)));
    assert_eq!(read_header(&[0x30, 0xff]).unwrap_err(), ber(BerError::InvalidLength));
    assert_eq!(read_header(&[0x04, 0x80]).unwrap_err(), ber(BerError::ConstructExpected));
    assert_eq!(read_header(&[0x1f, 0x80]).unwrap_err(), ber(BerError::InvalidTag));
    assert_eq!(read_header(&[0x04, 0x82, 0x01]).unwrap_err(), DecodeError::Incomplete(Needed::Size(1)));
}

#[test]
fn indefinite_length_is_rejected() {
    let e = parse_ldap_message(&[0x30, 0x80, 0x02, 0x01, 0x01, 0x42, 0x00, 0x00, 0x00]).unwrap_err();
    assert_eq!(e, ber(BerError::IndefiniteLengthUnexpected));
}

#[test]
fn message_id_values() {
    let (_, m) = parse_ldap_message(&[0x30, 0x05, 0x02, 0x01, 0x00, 0x42, 0x00]).unwrap();
    assert_eq!(m.message_id, MessageID(0));
    let (_, m) = parse_ldap_message(&[0x30, 0x06, 0x02, 0x02, 0x01, 0x00, 0x42, 0x00]).unwrap();
    assert_eq!(m.message_id, MessageID(256));
    let (_, m) =
        parse_ldap_message(&[0x30, 0x09, 0x02, 0x05, 0x00, 0xff, 0xff, 0xff, 0xff, 0x42, 0x00]).unwrap();
    assert_eq!(m.message_id, MessageID(u32::MAX));
    let e = parse_ldap_message(&[0x30, 0x09, 0x02, 0x05, 0x01, 0x00, 0x00, 0x00, 0x00, 0x42, 0x00])
        .unwrap_err();
    assert_eq!(e, ber(BerError::IntegerTooLarge));
    let e = parse_ldap_message(&[0x30, 0x05, 0x02, 0x01, 0xff, 0x42, 0x00]).unwrap_err();
    assert_eq!(e, ber(BerError::IntegerNegative));
    let e = parse_ldap_message(&[0x30, 0x05, 0x22, 0x01, 0x01, 0x42, 0x00]).unwrap_err();
    assert_eq!(e, ber(BerError::ConstructUnexpected));
    let e = parse_ldap_message(&[0x30, 0x05, 0x04, 0x01, 0x01, 0x42, 0x00]).unwrap_err();
    assert_eq!(e, ber(BerError::UnexpectedTag { expected: Some(2), actual: 4 }));
}

#[test]
fn unknown_operation_tag() {
    for tag in [17u8, 18, 20, 21, 22, 26, 30] {
        let e = parse_ldap_message(&message(&[0x40 | tag, 0x00], &[])).unwrap_err();
        assert_eq!(e, DecodeError::Error(LdapError::InvalidMessageType));
    }
}

#[test]
fn operation_of_another_class_is_rejected() {
    // context-specific [2] where APPLICATION 2 is expected
    let e = parse_ldap_message(&message(&[0x82, 0x00], &[])).unwrap_err();
    assert_eq!(
        e,
        ber(BerError::UnexpectedClass { expected: Some(Class::Application), actual: Class::ContextSpecific })
    );
}

#[test]
fn every_operation_tag_gives_its_variant() {
    let dn = item(0x04, b"cn=a");
    let filter = item(0x87, b"cn");
    let ops: Vec<Vec<u8>> = vec![
        item(0x60, &[item(0x02, &[3]), dn.clone(), item(0x80, b"pw")].concat()),
        item(0x61, &plain(0)),
        vec![0x42, 0x00],
        item(
            0x63,
            &[
                dn.clone(),
                item(0x0a, &[0]),
                item(0x0a, &[0]),
                item(0x02, &[0]),
                item(0x02, &[0]),
                item(0x01, &[0]),
                filter,
                item(0x30, &[]),
            ]
            .concat(),
        ),
        item(0x64, &[dn.clone(), item(0x30, &[])].concat()),
        item(0x65, &plain(0)),
        item(
            0x66,
            &[
                dn.clone(),
                item(0x30, &item(0x30, &[item(0x0a, &[0]), item(0x30, &[item(0x04, b"a"), item(0x31, &[])].concat())].concat())),
            ]
            .concat(),
        ),
        item(0x67, &plain(0)),
        item(0x68, &[dn.clone(), item(0x30, &[])].concat()),
        item(0x69, &plain(0)),
        item(0x4a, b"cn=a"),
        item(0x6b, &plain(0)),
        item(0x6c, &[dn.clone(), item(0x04, b"cn=b"), item(0x01, &[0])].concat()),
        item(0x6d, &plain(0)),
        item(0x6e, &[dn.clone(), item(0x30, &[item(0x04, b"cn"), item(0x04, b"a")].concat())].concat()),
        item(0x6f, &plain(5)),
        item(0x50, &[7]),
        item(0x73, &item(0x04, b"ldap://x")),
        item(0x77, &item(0x80, b"1.2")),
        item(0x78, &plain(0)),
        item(0x79, &[]),
    ];
    let tags = [0u32, 1, 2, 3, 4, 5, 6, 7, 8, 9, 10, 11, 12, 13, 14, 15, 16, 19, 23, 24, 25];
    assert_eq!(ops.len(), tags.len());
    for (op, tag) in ops.iter().zip(tags.iter()) {
        let data = message(op, &[]);
        let (rem, msg) = parse_ldap_message(&data).unwrap();
        assert!(rem.is_empty());
        assert_eq!(msg.protocol_op.tag(), ProtocolOpTag(*tag));
    }
}

#[test]
fn result_is_present_on_responses() {
    let input1 = message(&item(0x6f, &plain(5)), &[]);
    let (_, msg) = parse_ldap_message(&input1).unwrap();
    assert_eq!(msg.protocol_op.result().unwrap().result_code, ResultCode(ResultCode::COMPARE_FALSE));
    let input2 = message(&item(0x61, &plain(49)), &[]);
    let (_, msg) = parse_ldap_message(&input2).unwrap();
    assert_eq!(msg.protocol_op.result().unwrap().result_code, ResultCode(ResultCode::INVALID_CREDENTIALS));
    let input3 = message(&[0x42, 0x00], &[]);
    let (_, msg) = parse_ldap_message(&input3).unwrap();
    assert!(msg.protocol_op.result().is_none());
}

#[test]
fn every_filter_tag_gives_its_variant() {
    let ava = [item(0x04, b"cn"), item(0x04, b"v")].concat();
    let leaf = item(0x87, b"cn");
    let cases: Vec<(Vec<u8>, u32)> = vec![
        (item(0xa0, &leaf), 0),
        (item(0xa1, &leaf), 1),
        (item(0xa2, &leaf), 2),
        (item(0xa3, &ava), 3),
        (item(0xa4, &[item(0x04, b"cn"), item(0x30, &item(0x81, b"x"))].concat()), 4),
        (item(0xa5, &ava), 5),
        (item(0xa6, &ava), 6),
        (leaf.clone(), 7),
        (item(0xa8, &ava), 8),
        (item(0xa9, &item(0x83, b"v")), 9),
    ];
    for (data, tag) in cases {
        let (rem, f) = parse_ldap_filter(&data).unwrap();
        assert!(rem.is_empty());
        let got = match f {
            Filter::And(_) => 0,
            Filter::Or(_) => 1,
            Filter::Not(_) => 2,
            Filter::EqualityMatch(_) => 3,
            Filter::Substrings(_) => 4,
            Filter::GreaterOrEqual(_) => 5,
            Filter::LessOrEqual(_) => 6,
            Filter::Present(_) => 7,
            Filter::ApproxMatch(_) => 8,
            Filter::ExtensibleMatch(_) => 9,
        };
        assert_eq!(got, tag);
    }
}

#[test]
fn filter_errors() {
    assert_eq!(
        parse_ldap_filter(&item(0x8a, b"")).unwrap_err(),
        DecodeError::Error(LdapError::InvalidFilterType)
    );
    assert_eq!(
        parse_ldap_filter(&item(0x04, b"")).unwrap_err(),
        ber(BerError::UnexpectedClass { expected: Some(Class::ContextSpecific), actual: Class::Universal })
    );
    // an `and` that holds no filter
    assert_eq!(
        parse_ldap_filter(&item(0xa0, &[])).unwrap_err(),
        DecodeError::Error(LdapError::NomError(ErrorKind::Many1))
    );
    // `present` whose description is not UTF-8
    assert_eq!(
        parse_ldap_filter(&item(0x87, &[0xff])).unwrap_err(),
        DecodeError::Error(LdapError::InvalidString)
    );
    // a substring with tag 3
    let data = item(0xa4, &[item(0x04, b"cn"), item(0x30, &item(0x83, b"x"))].concat());
    assert_eq!(parse_ldap_filter(&data).unwrap_err(), DecodeError::Error(LdapError::NomError(ErrorKind::Many1)));
    assert_eq!(
        Substring::from_ber(&item(0x83, b"x")).unwrap_err(),
        DecodeError::Error(LdapError::InvalidSubstring)
    );
}

#[test]
fn substrings_keep_their_order() {
    let subs = [item(0x80, b"a"), item(0x81, b"b"), item(0x81, b"c"), item(0x82, b"d")].concat();
    let data = item(0xa4, &[item(0x04, b"cn"), item(0x30, &subs)].concat());
    let (_, f) = parse_ldap_filter(&data).unwrap();
    match f {
        Filter::Substrings(s) => {
            assert_eq!(s.filter_type.0, "cn");
            assert_eq!(s.substrings.len(), 4);
            assert!(matches!(&s.substrings[0], Substring::Initial(v) if v.0.as_ref() == b"a"));
            assert!(matches!(&s.substrings[1], Substring::Any(v) if v.0.as_ref() == b"b"));
            assert!(matches!(&s.substrings[2], Substring::Any(v) if v.0.as_ref() == b"c"));
            assert!(matches!(&s.substrings[3], Substring::Final(v) if v.0.as_ref() == b"d"));
        }
        _ => panic!("not a substring filter"),
    }
}

#[test]
fn matching_rule_assertion_defaults() {
    let input4 = item(0xa9, &item(0x83, b"v"));
    let (_, f) = parse_ldap_filter(&input4).unwrap();
    match f {
        Filter::ExtensibleMatch(m) => {
            assert!(m.matching_rule.is_none());
            assert!(m.rule_type.is_none());
            assert_eq!(m.assertion_value.0.as_ref(), b"v");
            assert_eq!(m.dn_attributes, None);
        }
        _ => panic!("not an extensible match"),
    }
    let all = [item(0x81, b"rule"), item(0x82, b"cn"), item(0x83, b"v"), item(0x84, &[0xff])].concat();
    let input5 = item(0xa9, &all);
    let (_, f) = parse_ldap_filter(&input5).unwrap();
    match f {
        Filter::ExtensibleMatch(m) => {
            assert_eq!(m.matching_rule.unwrap().0, "rule");
            assert_eq!(m.rule_type.unwrap().0, "cn");
            assert_eq!(m.dn_attributes, Some(true));
        }
        _ => panic!("not an extensible match"),
    }
}

#[test]
fn filter_depth_limit() {
    assert_eq!(MAX_FILTER_DEPTH, 32);
    let ok = nested_not(32);
    let (rem, _) = parse_ldap_filter(&ok).unwrap();
    assert!(rem.is_empty());
    let too_deep = nested_not(33);
    assert_eq!(
        parse_ldap_filter(&too_deep).unwrap_err(),
        DecodeError::Failure(LdapError::DepthExceeded)
    );
    assert_eq!(parse_filter(&item(0x87, b"cn"), 0).unwrap_err(), DecodeError::Failure(LdapError::DepthExceeded));
    assert!(parse_filter(&item(0x87, b"cn"), 1).is_ok());
    // far beyond the limit: rejected, not overflowing the stack
    let huge = nested_not(5000);
    assert_eq!(parse_ldap_filter(&huge).unwrap_err(), DecodeError::Failure(LdapError::DepthExceeded));
}

#[test]
fn depth_failure_is_not_taken_for_the_end_of_a_list() {
    // and(present, <33 levels>) at the top: the second filter is too deep
    let content = [item(0x87, b"cn"), nested_not(32)].concat();
    let data = item(0xa0, &content);
    assert_eq!(parse_ldap_filter(&data).unwrap_err(), DecodeError::Failure(LdapError::DepthExceeded));
}

#[test]
fn bind_request_errors() {
    let dn = item(0x04, b"");
    // version 128
    let data = item(0x60, &[item(0x02, &[0x00, 0x80]), dn.clone(), item(0x80, b"")].concat());
    assert_eq!(parse_ldap_bind_request(&data).unwrap_err(), ber(BerError::NomError(ErrorKind::Verify)));
    // version 127 is accepted
    let data = item(0x60, &[item(0x02, &[0x7f]), dn.clone(), item(0x80, b"")].concat());
    assert_eq!(parse_ldap_bind_request(&data).unwrap().1.version, 127);
    // version that does not fit eight bits
    let data = item(0x60, &[item(0x02, &[0x01, 0x00]), dn.clone(), item(0x80, b"")].concat());
    assert_eq!(parse_ldap_bind_request(&data).unwrap_err(), ber(BerError::IntegerTooLarge));
    // authentication choice 1 is reserved
    let data = item(0x60, &[item(0x02, &[3]), dn.clone(), item(0x81, b"")].concat());
    assert_eq!(
        parse_ldap_bind_request(&data).unwrap_err(),
        DecodeError::Error(LdapError::InvalidAuthenticationType)
    );
    // name that is not UTF-8
    let data = item(0x60, &[item(0x02, &[3]), item(0x04, &[0xc0]), item(0x80, b"")].concat());
    assert_eq!(parse_ldap_bind_request(&data).unwrap_err(), DecodeError::Error(LdapError::InvalidDN));
    // wrong application tag
    let data = item(0x61, &[item(0x02, &[3]), dn, item(0x80, b"")].concat());
    assert_eq!(
        parse_ldap_bind_request(&data).unwrap_err(),
        ber(BerError::UnexpectedTag { expected: Some(0), actual: 1 })
    );
}

#[test]
fn strings_must_be_utf8() {
    let input6 = item(0x04, "h\u{e9}llo".as_bytes());
    let (rem, s) = parse_ldap_string(&input6).unwrap();
    assert!(rem.is_empty());
    assert_eq!(s.0, "h\u{e9}llo");
    assert_eq!(
        parse_ldap_string(&item(0x04, &[0x68, 0xe9])).unwrap_err(),
        DecodeError::Error(LdapError::InvalidString)
    );
    // overlong encoding and a surrogate are not UTF-8
    assert!(parse_ldap_string(&item(0x04, &[0xc0, 0x80])).is_err());
    assert!(parse_ldap_string(&item(0x04, &[0xed, 0xa0, 0x80])).is_err());
}

#[test]
fn control_defaults() {
    let input7 = item(0x30, &item(0x04, b"1.2.3"));
    let (_, c) = parse_ldap_control(&input7).unwrap();
    assert_eq!(c.control_type.0, "1.2.3");
    assert!(!c.criticality);
    assert_eq!(c.control_value, None);
    let input8 = item(0x30, &[item(0x04, b"1.2.3"), item(0x04, b"v")].concat());
    let (_, c) = parse_ldap_control(&input8).unwrap();
    assert!(!c.criticality);
    assert_eq!(c.control_value, Some(Cow::Borrowed(&b"v"[..])));
    let all = [item(0x04, b"1.2.3"), item(0x01, &[0x01]), item(0x04, b"v")].concat();
    let input9 = item(0x30, &all);
    let (_, c) = parse_ldap_control(&input9).unwrap();
    assert!(c.criticality);
    assert_eq!(c.control_value, Some(Cow::Borrowed(&b"v"[..])));
    let zero = [item(0x04, b"1.2.3"), item(0x01, &[0x00])].concat();
    let zero = item(0x30, &zero);
    assert!(!parse_ldap_control(&zero).unwrap().1.criticality);
    let bad = [item(0x04, b"1.2.3"), item(0x01, &[0, 0])].concat();
    assert_eq!(parse_ldap_control(&item(0x30, &bad)).unwrap_err(), ber(BerError::InvalidLength));
    assert_eq!(parse_ldap_control(&item(0x10, b"")).unwrap_err(), ber(BerError::ConstructExpected));
}

#[test]
fn message_controls() {
    let none = message(&[0x42, 0x00], &[]);
    assert_eq!(parse_ldap_message(&none).unwrap().1.controls, None);
    let empty = message(&[0x42, 0x00], &item(0xa0, &[]));
    assert_eq!(parse_ldap_message(&empty).unwrap().1.controls, Some(vec![]));
    let two = [item(0x30, &item(0x04, b"1.1")), item(0x30, &item(0x04, b"1.2"))].concat();
    let data = message(&[0x42, 0x00], &item(0xa0, &two));
    let (rem, msg) = parse_ldap_message(&data).unwrap();
    assert!(rem.is_empty());
    let controls = msg.controls.unwrap();
    assert_eq!(controls.len(), 2);
    assert_eq!(controls[0].control_type.0, "1.1");
    assert_eq!(controls[1].control_type.0, "1.2");
}

#[test]
fn input_is_consumed_octets_then_tail() {
    let mut data = message(&[0x42, 0x00], &[]);
    let consumed = data.len();
    data.extend_from_slice(&[0xde, 0xad, 0xbe, 0xef]);
    let (rem, _) = parse_ldap_message(&data).unwrap();
    assert_eq!(rem, &[0xde, 0xad, 0xbe, 0xef]);
    assert_eq!([&data[..consumed], rem].concat(), data);
    // the tail is a part of the input buffer
    assert_eq!(rem.as_ptr(), data[consumed..].as_ptr());
}

#[test]
fn decoding_twice_gives_the_same() {
    let data = message(&item(0x61, &plain(0)), &[]);
    let copy = data.clone();
    assert_eq!(parse_ldap_message(&data), parse_ldap_message(&copy));
    let bad = [0x30, 0x03, 0x02, 0x01];
    assert_eq!(parse_ldap_message(&bad), parse_ldap_message(&bad.to_vec()));
}

#[test]
fn decoded_strings_borrow_from_the_input() {
    let data = message(&item(0x4a, b"cn=a,dc=b"), &[]);
    let (_, msg) = parse_ldap_message(&data).unwrap();
    match msg.protocol_op {
        ProtocolOp::DelRequest(dn) => match dn.0 {
            Cow::Borrowed(s) => {
                let start = data.as_ptr() as usize;
                let at = s.as_ptr() as usize;
                assert!(start <= at && at + s.len() <= start + data.len());
                assert_eq!(s, "cn=a,dc=b");
            }
            Cow::Owned(_) => panic!("not borrowed"),
        },
        _ => panic!("not a delete request"),
    }
}

#[test]
fn several_messages() {
    let one = message(&[0x42, 0x00], &[]);
    let two = [one.clone(), vec![0x30, 0x06, 0x02, 0x01, 0x06, 0x50, 0x01, 0x05]].concat();
    let (rem, msgs) = parse_ldap_messages(&two).unwrap();
    assert!(rem.is_empty());
    assert_eq!(msgs.len(), 2);
    assert_eq!(msgs[0].message_id, MessageID(1));
    assert_eq!(msgs[1].protocol_op, ProtocolOp::AbandonRequest(MessageID(5)));
    let (rem, msgs) = parse_ldap_messages(&one).unwrap();
    assert!(rem.is_empty());
    assert_eq!(msgs.len(), 1);
}

#[test]
fn a_message_that_fails_fails_the_buffer() {
    let one = message(&[0x42, 0x00], &[]);
    // the second message is cut short: its error, and no message
    let cut = [one.clone(), vec![0x30, 0x06, 0x02]].concat();
    assert_eq!(parse_ldap_messages(&cut).unwrap_err(), DecodeError::Incomplete(Needed::Size(5)));
    assert_eq!(parse_ldap_messages(&cut).unwrap_err(), parse_ldap_message(&cut[one.len()..]).unwrap_err());
    // the second message has an unknown operation
    let bad = [one.clone(), message(&[0x51, 0x00], &[])].concat();
    assert_eq!(
        parse_ldap_messages(&bad).unwrap_err(),
        DecodeError::Error(LdapError::InvalidMessageType)
    );
    // the third fails after two good ones
    let third = [one.clone(), one.clone(), vec![0x04, 0x00]].concat();
    assert_eq!(
        parse_ldap_messages(&third).unwrap_err(),
        ber(BerError::UnexpectedTag { expected: Some(16), actual: 4 })
    );
    // the first message fails: its own error
    assert_eq!(
        parse_ldap_messages(&[0x04, 0x00]).unwrap_err(),
        ber(BerError::UnexpectedTag { expected: Some(16), actual: 4 })
    );
    // no octets at all
    assert_eq!(parse_ldap_messages(&[]).unwrap_err(), DecodeError::Incomplete(Needed::Size(1)));
}

#[test]
fn optional_field_of_another_class_is_absent() {
    // after the result an element with tag 7 of class application, not context-specific
    let data = item(0x61, &[plain(0), item(0x47, &[1, 2])].concat());
    let (rem, resp) = BindResponse::from_ber(&data).unwrap();
    assert!(rem.is_empty());
    assert_eq!(resp.server_sasl_creds, None);
    // the same with the right class
    let data = item(0x61, &[plain(0), item(0x87, &[1, 2])].concat());
    let (_, resp) = BindResponse::from_ber(&data).unwrap();
    assert_eq!(resp.server_sasl_creds, Some(Cow::Borrowed(&[1u8, 2][..])));
    // another tag, and the element cut short: absent, nothing is read of it
    let data = item(0x61, &[plain(0), vec![0x88, 0x05, 0x01]].concat());
    let (_, resp) = BindResponse::from_ber(&data).unwrap();
    assert_eq!(resp.server_sasl_creds, None);
    // the right class and tag, cut short: an error
    let data = item(0x61, &[plain(0), vec![0x87, 0x05, 0x01]].concat());
    assert_eq!(BindResponse::from_ber(&data).unwrap_err(), DecodeError::Incomplete(Needed::Size(4)));
    // controls of class application are no controls
    let data = message(&[0x42, 0x00], &item(0x60, &[]));
    assert_eq!(parse_ldap_message(&data).unwrap().1.controls, None);
    // the flag of a matching rule assertion with tag 4 of class universal
    let content = [item(0x83, b"v"), item(0x04, &[0xff])].concat();
    let input = item(0xa9, &content);
    match parse_ldap_filter(&input).unwrap().1 {
        Filter::ExtensibleMatch(m) => assert_eq!(m.dn_attributes, None),
        _ => panic!("not an extensible match"),
    }
    // a flag of two octets
    let content = [item(0x83, b"v"), item(0x84, &[0, 0])].concat();
    assert_eq!(parse_ldap_filter(&item(0xa9, &content)).unwrap_err(), ber(BerError::InvalidLength));
}

#[test]
fn integer_values() {
    // no content octets stand for zero
    assert_eq!(read_u32(&[0x02, 0x00]).unwrap().1, 0);
    assert_eq!(read_u32(&[0x02, 0x01, 0x7f]).unwrap().1, 127);
    assert_eq!(read_u32(&[0x02, 0x02, 0x00, 0x80]).unwrap().1, 128);
    assert_eq!(read_u32(&[0x02, 0x03, 0x01, 0x02, 0x03]).unwrap().1, 0x010203);
    assert_eq!(read_u32(&[0x02, 0x04, 0x7f, 0xff, 0xff, 0xff]).unwrap().1, 0x7fff_ffff);
    assert_eq!(read_u32(&[0x02, 0x07, 0, 0, 0, 0, 0, 0, 9]).unwrap().1, 9);
    assert_eq!(read_u32(&[0x02, 0x05, 0x00, 0xff, 0xff, 0xff, 0xff]).unwrap().1, u32::MAX);
    assert_eq!(read_u32(&[0x02, 0x04, 0x80, 0x00, 0x00, 0x00]).unwrap_err(), ber(BerError::IntegerNegative));
    assert_eq!(read_u32(&[0x02, 0x01, 0x80]).unwrap_err(), ber(BerError::IntegerNegative));
    assert_eq!(
        read_u32(&[0x02, 0x05, 0x01, 0x00, 0x00, 0x00, 0x00]).unwrap_err(),
        ber(BerError::IntegerTooLarge)
    );
    assert_eq!(read_u8(&[0x02, 0x00]).unwrap().1, 0);
    assert_eq!(read_u8(&[0x02, 0x01, 0x7f]).unwrap().1, 127);
    assert_eq!(read_u8(&[0x02, 0x02, 0x00, 0xff]).unwrap().1, 255);
    assert_eq!(read_u8(&[0x02, 0x03, 0x00, 0x00, 0x05]).unwrap().1, 5);
    assert_eq!(read_u8(&[0x02, 0x02, 0x01, 0x00]).unwrap_err(), ber(BerError::IntegerTooLarge));
    assert_eq!(read_u8(&[0x02, 0x01, 0xff]).unwrap_err(), ber(BerError::IntegerNegative));
    // ENUMERATED has no sign
    assert_eq!(read_enumerated(&[0x0a, 0x00]).unwrap().1, 0);
    assert_eq!(read_enumerated(&[0x0a, 0x01, 0xff]).unwrap().1, 255);
    assert_eq!(read_enumerated(&[0x0a, 0x02, 0x01, 0x00]).unwrap().1, 256);
    assert_eq!(read_enumerated(&[0x0a, 0x04, 0xff, 0xff, 0xff, 0xff]).unwrap().1, u32::MAX);
    assert_eq!(read_enumerated(&[0x0a, 0x0a, 0, 0, 0, 0, 0, 0, 0, 0, 0, 7]).unwrap().1, 7);
    assert_eq!(
        read_enumerated(&[0x0a, 0x05, 0x01, 0x00, 0x00, 0x00, 0x00]).unwrap_err(),
        ber(BerError::IntegerTooLarge)
    );
    assert_eq!(
        read_enumerated(&[0x0a, 0x09, 1, 0, 0, 0, 0, 0, 0, 0, 0]).unwrap_err(),
        ber(BerError::IntegerTooLarge)
    );
    assert_eq!(
        read_enumerated(&[0x0a, 0x0a, 1, 0, 0, 0, 0, 0, 0, 0, 0, 0]).unwrap_err(),
        ber(BerError::IntegerTooLarge)
    );
}

#[test]
fn a_header_takes_two_octets_at_least() {
    assert_eq!(read_header(&[]).unwrap_err(), DecodeError::Incomplete(Needed::Size(1)));
    assert_eq!(read_any(&[]).unwrap_err(), DecodeError::Incomplete(Needed::Size(1)));
    let (rem, _) = read_header(&[0x05, 0x00, 0xaa]).unwrap();
    assert_eq!(rem, &[0xaa]);
    let (rem, _) = read_any(&[0x05, 0x00]).unwrap();
    assert!(rem.is_empty());
}

#[test]
fn names_of_numbers() {
    assert_eq!(ProtocolOpTag(0).to_string(), "BindRequest");
    assert_eq!(ProtocolOpTag(19).to_string(), "SearchResultReference");
    assert_eq!(ProtocolOpTag(25).to_string(), "IntermediateResponse");
    assert_eq!(ProtocolOpTag(17).to_string(), "ProtocolOpTag(17 / 0x11)");
    assert_eq!(ProtocolOpTag(17).name(), None);
    assert_eq!(ProtocolOpTag(3).name(), Some("SearchRequest"));
    assert_eq!(ResultCode(0).to_string(), "Success");
    assert_eq!(ResultCode(49).to_string(), "InvalidCredentials");
    assert_eq!(ResultCode(80).to_string(), "Other");
    assert_eq!(ResultCode(9).to_string(), "ResultCode(9 / 0x9)");
    assert_eq!(SearchScope(2).to_string(), "WholeSubtree");
    assert_eq!(SearchScope(255).to_string(), "SearchScope(255 / 0xff)");
    assert_eq!(DerefAliases(3).to_string(), "DerefAlways");
    assert_eq!(Operation(1).to_string(), "Delete");
    let (_, msg) = parse_ldap_message(&[0x30, 0x05, 0x02, 0x01, 0x01, 0x42, 0x00]).unwrap();
    assert_eq!(msg.protocol_op.tag().to_string(), "UnbindRequest");
}

#[test]
fn decoded_octets_lie_in_the_message() {
    let mut data = message(&item(0x4a, b"cn=a"), &[]);
    let taken = data.len();
    // what follows the message holds the same octets once more
    data.extend_from_slice(b"cn=a");
    let (rem, msg) = parse_ldap_message(&data).unwrap();
    assert_eq!(rem, b"cn=a");
    match msg.protocol_op {
        ProtocolOp::DelRequest(dn) => match dn.0 {
            Cow::Borrowed(s) => {
                let start = data.as_ptr() as usize;
                let at = s.as_ptr() as usize;
                assert!(start <= at && at + s.len() <= start + taken);
            }
            Cow::Owned(_) => panic!("not borrowed"),
        },
        _ => panic!("not a delete request"),
    }
}

#[test]
fn search_result_reference_needs_one_uri() {
    assert_eq!(
        parse_ldap_search_result_ref(&item(0x73, &[])).unwrap_err(),
        DecodeError::Error(LdapError::NomError(ErrorKind::Many1))
    );
    let two = [item(0x04, b"ldap://a"), item(0x04, b"ldap://b")].concat();
    let input10 = item(0x73, &two);
    let (_, v) = parse_ldap_search_result_ref(&input10).unwrap();
    assert_eq!(v.len(), 2);
    assert_eq!(v[1].0, "ldap://b");
}

#[test]
fn message_parse_is_from_ber() {
    let data = message(&[0x42, 0x00], &[]);
    assert_eq!(LdapMessage::parse(&data), LdapMessage::from_ber(&data));
}
