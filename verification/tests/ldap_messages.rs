use ldap_parser::error::{BerError, DecodeError, LdapError};
use ldap_parser::ldap::{LdapMessage, MessageID, ProtocolOp, ProtocolOpTag, SearchScope};
use ldap_parser::FromBer;

fn tlv(tag: u8, content: &[u8]) -> Vec<u8> {
    let mut v = vec![tag];
    let n = content.len();
    if n < 128 {
        v.push(n as u8);
    } else if n < 256 {
        v.push(0x81);
        v.push(n as u8);
    } else {
        v.push(0x82);
        v.push((n >> 8) as u8);
        v.push(n as u8);
    }
    v.extend_from_slice(content);
    v
}

/// A search request for `dc=rccad,dc=net` with message identifier 4, size
/// limit 10 and 22 requested attributes.
fn message_search_request_01() -> Vec<u8> {
    let names = [
        "objectClass", "cn", "sn", "givenName", "displayName", "description", "mail",
        "telephoneNumber", "title", "department", "company", "manager", "memberOf",
        "sAMAccountName", "userPrincipalName", "distinguishedName", "whenCreated",
        "whenChanged", "lastLogon", "pwdLastSet", "userAccountControl", "objectGUID",
    ];
    let attributes: Vec<u8> = names.iter().flat_map(|n| tlv(0x04, n.as_bytes())).collect();
    let request = [
        tlv(0x04, b"dc=rccad,dc=net"),
        tlv(0x0a, &[2]),
        tlv(0x0a, &[0]),
        tlv(0x02, &[10]),
        tlv(0x02, &[0]),
        tlv(0x01, &[0]),
        tlv(0x87, b"objectClass"),
        tlv(0x30, &attributes),
    ]
    .concat();
    tlv(0x30, &[tlv(0x02, &[4]), tlv(0x63, &request)].concat())
}

#[test]
fn test_malformed_empty() {
    const DATA: &[u8] = &[0x30, 0x84, 0x00, 0x00, 0x00, 0x00];

    let e = LdapMessage::from_ber(DATA).expect_err("expected error");
    assert_eq!(e, DecodeError::Incomplete(ldap_parser::error::Needed::Size(1)));
}

#[test]
fn test_malformed_no_octets() {
    const DATA: &[u8] = &[];

    LdapMessage::from_ber(DATA).expect_err("expected error");
}

#[test]
fn test_malformed_not_a_sequence() {
    const DATA: &[u8] = &[0x04, 0x00];

    let e = LdapMessage::from_ber(DATA).expect_err("expected error");
    assert_eq!(
        e,
        DecodeError::Error(LdapError::Ber(BerError::UnexpectedTag { expected: Some(16), actual: 4 }))
    );
}

#[test]
fn test_parse_msg_search_request_01() {
    let data = message_search_request_01();
    let (rem, msg) = LdapMessage::from_ber(&data).expect("parsing failed");
    assert!(rem.is_empty());
    assert_eq!(msg.message_id, MessageID(4));
    assert_eq!(msg.protocol_op.tag(), ProtocolOpTag(ProtocolOpTag::SEARCH_REQUEST));
    if let ProtocolOp::SearchRequest(req) = msg.protocol_op {
        assert_eq!(&req.base_object.0, "dc=rccad,dc=net");
        assert_eq!(req.scope, SearchScope(SearchScope::WHOLE_SUBTREE));
        assert_eq!(req.size_limit, 10);
        assert_eq!(req.attributes.len(), 22);
    } else {
        panic!("Unexpected message type");
    }
}
