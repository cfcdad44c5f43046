use ldap_parser::filter::Filter;
use ldap_parser::ldap::{
    AddRequest, AuthenticationChoice, BindRequest, BindResponse, CompareRequest,
    ExtendedRequest, ExtendedResponse, LdapMessage, MessageID, ModDnRequest, ModifyRequest,
    ProtocolOp, ResultCode, SearchRequest, SearchResultEntry, SearchScope,
};
use ldap_parser::parser::{
    parse_ldap_add_response, parse_ldap_compare_response, parse_ldap_del_request,
    parse_ldap_del_response, parse_ldap_moddn_response, parse_ldap_modify_response,
    parse_ldap_search_result_done, parse_ldap_search_result_ref, parse_ldap_unbind_request,
};
use ldap_parser::FromBer;
use std::borrow::Cow;

/// One element: identifier octet, length in the shortest definite form, content.
fn element(tag: u8, content: &[u8]) -> Vec<u8> {
    let mut v = vec![tag];
    let n = content.len();
    if n < 128 {
        v.push(n as u8);
    } else if n < 256 {
        v.push(0x81);
        v.push(n as u8);
    } else {
        v.push(0x82);
        v.push((n >> 8) as u8);
        v.push(n as u8);
    }
    v.extend_from_slice(content);
    v
}

/// A constructed element holding the given elements.
fn group(tag: u8, parts: &[Vec<u8>]) -> Vec<u8> {
    element(tag, &parts.concat())
}

fn octets(s: &str) -> Vec<u8> {
    element(0x04, s.as_bytes())
}

/// The three components of an LDAPResult with empty strings.
fn plain_result(code: u8) -> Vec<u8> {
    [element(0x0a, &[code]), octets(""), octets("")].concat()
}

fn bind_request_simple() -> Vec<u8> {
    group(
        0x60,
        &[
            element(0x02, &[3]),
            octets("xxxxxxxxxxx@xx.xxx.xxxxx.net"),
            element(0x80, b"passwor8d1"),
        ],
    )
}

fn bind_request_sasl() -> Vec<u8> {
    group(
        0x60,
        &[
            element(0x02, &[3]),
            octets(""),
            group(0xa3, &[octets("GSS-SPNEGO"), element(0x04, &[0x60, 0x82, 0x05, 0x10, 0x06, 0x06])]),
        ],
    )
}

fn search_request() -> Vec<u8> {
    group(
        0x63,
        &[
            octets("DC=xx,DC=xxx,DC=xxxxx,DC=net"),
            element(0x0a, &[2]),
            element(0x0a, &[3]),
            element(0x02, &[0]),
            element(0x02, &[0]),
            element(0x01, &[0]),
            group(
                0xa0,
                &[
                    group(0xa3, &[octets("objectClass"), octets("user")]),
                    group(0xa4, &[octets("cn"), group(0x30, &[element(0x80, b"adm"), element(0x82, b"or")])]),
                ],
            ),
            group(0x30, &[octets("sAMAccountName")]),
        ],
    )
}

fn attribute(name: &str, values: &[&str]) -> Vec<u8> {
    let vals: Vec<Vec<u8>> = values.iter().map(|v| octets(v)).collect();
    group(0x30, &[octets(name), group(0x31, &vals)])
}

#[test]
fn parser_test_parse_bind_request() {
    let data = bind_request_simple();

    let (rem, req) = BindRequest::from_ber(&data).expect("parsing failed");
    assert!(rem.is_empty());
    assert_eq!(&req.name.0, "xxxxxxxxxxx@xx.xxx.xxxxx.net");
    assert_eq!(
        req.authentication,
        AuthenticationChoice::Simple(Cow::Borrowed(b"passwor8d1"))
    );
}

#[test]
fn parser_test_parse_bind_request_sasl() {
    let data = bind_request_sasl();

    let (rem, req) = BindRequest::from_ber(&data).expect("parsing failed");
    assert!(rem.is_empty());
    assert_eq!(&req.name.0, "");
    if let AuthenticationChoice::Sasl(sasl_credentials) = &req.authentication {
        assert_eq!(&sasl_credentials.mechanism.0, "GSS-SPNEGO");
    } else {
        panic!("wrong authentication type");
    }
}

#[test]
fn parser_test_parse_bind_response_minimal() {
    const DATA: &[u8] = &[0x61, 0x84, 0x00, 0x00, 0x00, 0x07, 0x0a, 0x01, 0x00, 0x04, 0x00, 0x04, 0x00];
    let (rem, resp) = BindResponse::from_ber(DATA).expect("parsing failed");
    assert!(rem.is_empty());
    assert_eq!(resp.result.result_code, ResultCode(ResultCode::SUCCESS));
}

#[test]
fn parser_test_parse_bind_response_sasl() {
    let data = element(0x61, &[plain_result(0), element(0x87, &[0xa1, 0x14, 0x30, 0x12])].concat());
    let (rem, resp) = BindResponse::from_ber(&data).expect("parsing failed");
    assert!(rem.is_empty());
    assert_eq!(resp.result.result_code, ResultCode(ResultCode::SUCCESS));
    assert!(resp.server_sasl_creds.is_some());
}

#[test]
fn parser_test_parse_unbind_request() {
    const DATA: &[u8] = &[0x42, 0x00];

    let (rem, req) = parse_ldap_unbind_request(DATA).expect("parsing failed");
    assert!(rem.is_empty());
    assert_eq!(req, ProtocolOp::UnbindRequest);
}

#[test]
fn parser_test_parse_search_request() {
    let data = search_request();
    let (rem, resp) = SearchRequest::from_ber(&data).expect("parsing failed");
    assert!(rem.is_empty());
    assert_eq!(&resp.base_object.0, "DC=xx,DC=xxx,DC=xxxxx,DC=net");
    assert_eq!(resp.scope, SearchScope(SearchScope::WHOLE_SUBTREE));
    assert_eq!(resp.attributes.len(), 1);
    assert!(matches!(resp.filter, Filter::And(ref subs) if subs.len() == 2));
}

#[test]
fn parser_test_parse_search_result_entry() {
    let data = group(
        0x64,
        &[
            octets("CN=xxxxxxxx,OU=users,DC=xx,DC=xxx,DC=xxxxx,DC=net"),
            group(0x30, &[attribute("sAMAccountName", &["xxxxxxxx"])]),
        ],
    );
    let (rem, resp) = SearchResultEntry::from_ber(&data).expect("parsing failed");
    assert!(rem.is_empty());
    assert_eq!(resp.attributes.len(), 1);
}

#[test]
fn parser_test_parse_search_result_done() {
    let data = element(0x65, &plain_result(0));
    let (rem, resp) = parse_ldap_search_result_done(&data).expect("parsing failed");
    assert!(rem.is_empty());
    assert_eq!(resp.result_code, ResultCode(ResultCode::SUCCESS));
}

#[test]
fn parser_test_parse_search_result_ref() {
    let data = group(
        0x73,
        &[octets("ldap://DomainDnsZones.rccad.net/DC=DomainDnsZones,DC=rccad,DC=net")],
    );
    let (rem, v) = parse_ldap_search_result_ref(&data).expect("parsing failed");
    assert!(rem.is_empty());
    assert_eq!(v.len(), 1);
    assert_eq!(
        &v[0].0,
        "ldap://DomainDnsZones.rccad.net/DC=DomainDnsZones,DC=rccad,DC=net"
    );
}

#[test]
fn parser_test_parse_extended_req() {
    let data = group(0x77, &[element(0x80, b"1.3.6.1.4.1.1466.20037")]);
    let (rem, req) = ExtendedRequest::from_ber(&data).expect("parsing failed");
    assert!(rem.is_empty());
    assert_eq!(req.request_name.0, "1.3.6.1.4.1.1466.20037".to_string());
    assert!(req.request_value.is_none());
}

#[test]
fn parser_test_parse_extended_response() {
    const DATA: &[u8] = &[0x78, 0x07, 0x0a, 0x01, 0x00, 0x04, 0x00, 0x04, 0x00];
    let (rem, resp) = ExtendedResponse::from_ber(DATA).expect("parsing failed");
    assert!(rem.is_empty());
    assert_eq!(resp.result.result_code, ResultCode(ResultCode::SUCCESS));
}

#[test]
fn parser_test_parse_modify_request() {
    let change = group(0x30, &[element(0x0a, &[2]), attribute("description", &["a new description"])]);
    let data = group(
        0x66,
        &[octets("cn=username1,ou=users,dc=xxx,dc=internet"), group(0x30, &[change])],
    );
    let (rem, req) = ModifyRequest::from_ber(&data).expect("parsing failed");
    assert!(rem.is_empty());
    assert_eq!(&req.object.0, "cn=username1,ou=users,dc=xxx,dc=internet");
    assert_eq!(req.changes.len(), 1);
    assert_eq!(req.changes[0].modification.attr_type.0, "description");
}

#[test]
fn parser_test_parse_modify_response() {
    let data = element(0x67, &plain_result(0));
    let (rem, resp) = parse_ldap_modify_response(&data).expect("parsing failed");
    assert!(rem.is_empty());
    assert_eq!(resp.result.result_code, ResultCode(ResultCode::SUCCESS));
}

#[test]
fn parser_test_parse_add_request() {
    let data = group(
        0x68,
        &[
            octets("cn=username1,ou=users,dc=xxx,dc=internet"),
            group(
                0x30,
                &[
                    attribute("objectClass", &["top", "person"]),
                    attribute("cn", &["username1"]),
                    attribute("sn", &["name1"]),
                    attribute("description", &["first user"]),
                ],
            ),
        ],
    );
    let (rem, req) = AddRequest::from_ber(&data).expect("parsing failed");
    assert!(rem.is_empty());
    assert_eq!(&req.entry.0, "cn=username1,ou=users,dc=xxx,dc=internet");
    assert_eq!(req.attributes.len(), 4);
}

#[test]
fn parser_test_parse_add_response() {
    let data = element(0x69, &plain_result(0));
    let (rem, resp) = parse_ldap_add_response(&data).expect("parsing failed");
    assert!(rem.is_empty());
    assert_eq!(resp.result_code, ResultCode(ResultCode::SUCCESS));
}

#[test]
fn parser_test_parse_del_request() {
    let data = element(0x4a, b"cn=username2,ou=users2,dc=xxx,dc=internet");
    let (rem, req) = parse_ldap_del_request(&data).expect("parsing failed");
    assert!(rem.is_empty());
    assert_eq!(&req.0, "cn=username2,ou=users2,dc=xxx,dc=internet");
}

#[test]
fn parser_test_parse_del_response() {
    let data = element(0x6b, &plain_result(0));
    let (rem, resp) = parse_ldap_del_response(&data).expect("parsing failed");
    assert!(rem.is_empty());
    assert_eq!(resp.result_code, ResultCode(ResultCode::SUCCESS));
}

#[test]
fn parser_test_parse_moddn_request() {
    let data = group(
        0x6c,
        &[
            octets("cn=username1,ou=users,dc=xxx,dc=internet"),
            octets("cn=username2"),
            element(0x01, &[0xff]),
            element(0x80, b"ou=users,dc=xxx,dc=internet"),
        ],
    );
    let (rem, req) = ModDnRequest::from_ber(&data).expect("parsing failed");
    assert!(rem.is_empty());
    assert_eq!(&req.entry.0, "cn=username1,ou=users,dc=xxx,dc=internet");
    assert_eq!(&req.newrdn.0, "cn=username2");
    assert!(req.deleteoldrdn);
    assert_eq!(&req.newsuperior.unwrap().0, "ou=users,dc=xxx,dc=internet");
}

#[test]
fn parser_test_parse_moddn_response() {
    let data = element(0x6d, &plain_result(0));
    let (rem, resp) = parse_ldap_moddn_response(&data).expect("parsing failed");
    assert!(rem.is_empty());
    assert_eq!(resp.result_code, ResultCode(ResultCode::SUCCESS));
}

#[test]
fn parser_test_parse_compare_request() {
    let data = group(
        0x6e,
        &[
            octets("cn=username2,ou=users2,dc=xxx,dc=internet"),
            group(0x30, &[octets("cn"), octets("username2")]),
        ],
    );
    let (rem, req) = CompareRequest::from_ber(&data).expect("parsing failed");
    assert!(rem.is_empty());
    assert_eq!(&req.entry.0, "cn=username2,ou=users2,dc=xxx,dc=internet");
    assert_eq!(&req.ava.attribute_desc.0, "cn");
}

#[test]
fn parser_test_parse_compare_response() {
    let data = element(0x6f, &plain_result(6));
    let (rem, resp) = parse_ldap_compare_response(&data).expect("parsing failed");
    assert!(rem.is_empty());
    assert_eq!(resp.result_code, ResultCode(ResultCode::COMPARE_TRUE));
}

#[test]
fn test_parse_abandon_request() {
    const DATA: &[u8] = &[0x30, 0x06, 0x02, 0x01, 0x06, 0x50, 0x01, 0x05];

    let (rem, msg) = LdapMessage::from_ber(DATA).expect("parsing failed");
    assert!(rem.is_empty());
    assert_eq!(msg.message_id, MessageID(6));
    assert!(matches!(
        msg.protocol_op,
        ProtocolOp::AbandonRequest(MessageID(5))
    ))
}
