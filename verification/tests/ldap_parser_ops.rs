use ldap_parser::filter::Filter;
use ldap_parser::ldap::{AuthenticationChoice, ProtocolOp, ResultCode, SearchScope};
use ldap_parser::parser::{
    parse_ldap_add_request, parse_ldap_add_response, parse_ldap_bind_request,
    parse_ldap_bind_response, parse_ldap_compare_request, parse_ldap_compare_response,
    parse_ldap_del_request, parse_ldap_del_response, parse_ldap_extended_request,
    parse_ldap_extended_response, parse_ldap_moddn_request, parse_ldap_moddn_response,
    parse_ldap_modify_request, parse_ldap_modify_response, parse_ldap_search_request,
    parse_ldap_search_result_done, parse_ldap_search_result_entry,
    parse_ldap_search_result_ref, parse_ldap_unbind_request,
};
use std::borrow::Cow;

/// One element: identifier octet, length in the shortest definite form, content.
fn ber_element(tag: u8, content: &[u8]) -> Vec<u8> {
    let mut v = vec![tag];
    let n = content.len();
    if n < 128 {
        v.push(n as u8);
    } else if n < 256 {
        v.push(0x81);
        v.push(n as u8);
    } else {
        v.push(0x82);
        v.push((n >> 8) as u8);
        v.push(n as u8);
    }
    v.extend_from_slice(content);
    v
}

/// A constructed element holding the given elements.
fn ber_group(tag: u8, parts: &[Vec<u8>]) -> Vec<u8> {
    ber_element(tag, &parts.concat())
}

fn ber_octets(s: &str) -> Vec<u8> {
    ber_element(0x04, s.as_bytes())
}

/// The three components of an LDAPResult with empty strings.
fn ber_plain_result(code: u8) -> Vec<u8> {
    [ber_element(0x0a, &[code]), ber_octets(""), ber_octets("")].concat()
}

fn ber_bind_request_simple() -> Vec<u8> {
    ber_group(
        0x60,
        &[
            ber_element(0x02, &[3]),
            ber_octets("xxxxxxxxxxx@xx.xxx.xxxxx.net"),
            ber_element(0x80, b"passwor8d1"),
        ],
    )
}

fn ber_bind_request_sasl() -> Vec<u8> {
    ber_group(
        0x60,
        &[
            ber_element(0x02, &[3]),
            ber_octets(""),
            ber_group(0xa3, &[ber_octets("GSS-SPNEGO"), ber_element(0x04, &[0x60, 0x82, 0x05, 0x10, 0x06, 0x06])]),
        ],
    )
}

fn ber_search_request() -> Vec<u8> {
    ber_group(
        0x63,
        &[
            ber_octets("DC=xx,DC=xxx,DC=xxxxx,DC=net"),
            ber_element(0x0a, &[2]),
            ber_element(0x0a, &[3]),
            ber_element(0x02, &[0]),
            ber_element(0x02, &[0]),
            ber_element(0x01, &[0]),
            ber_group(
                0xa0,
                &[
                    ber_group(0xa3, &[ber_octets("objectClass"), ber_octets("user")]),
                    ber_group(0xa4, &[ber_octets("cn"), ber_group(0x30, &[ber_element(0x80, b"adm"), ber_element(0x82, b"or")])]),
                ],
            ),
            ber_group(0x30, &[ber_octets("sAMAccountName")]),
        ],
    )
}

fn ber_attribute(name: &str, values: &[&str]) -> Vec<u8> {
    let vals: Vec<Vec<u8>> = values.iter().map(|v| ber_octets(v)).collect();
    ber_group(0x30, &[ber_octets(name), ber_group(0x31, &vals)])
}

#[test]
fn ldap_parser_test_parse_bind_request() {
    let data = ber_bind_request_simple();

    let (rem, req) = parse_ldap_bind_request(&data).expect("parsing failed");
    assert!(rem.is_empty());
    assert_eq!(&req.name.0, "xxxxxxxxxxx@xx.xxx.xxxxx.net");
    assert_eq!(
        req.authentication,
        AuthenticationChoice::Simple(Cow::Borrowed(b"passwor8d1"))
    );
}

#[test]
fn ldap_parser_test_parse_bind_request_sasl() {
    let data = ber_bind_request_sasl();

    let (rem, req) = parse_ldap_bind_request(&data).expect("parsing failed");
    assert!(rem.is_empty());
    assert_eq!(&req.name.0, "");
    if let AuthenticationChoice::Sasl(sasl_credentials) = &req.authentication {
        assert_eq!(&sasl_credentials.mechanism.0, "GSS-SPNEGO");
    } else {
        panic!("wrong authentication type");
    }
}

#[test]
fn ldap_parser_test_parse_bind_response_minimal() {
    const DATA: &[u8] = &[0x61, 0x84, 0x00, 0x00, 0x00, 0x07, 0x0a, 0x01, 0x00, 0x04, 0x00, 0x04, 0x00];
    let (rem, resp) = parse_ldap_bind_response(DATA).expect("parsing failed");
    assert!(rem.is_empty());
    assert_eq!(resp.result.result_code, ResultCode(ResultCode::SUCCESS));
}

#[test]
fn ldap_parser_test_parse_bind_response_sasl() {
    let data = ber_element(0x61, &[ber_plain_result(0), ber_element(0x87, &[0xa1, 0x14, 0x30, 0x12])].concat());
    let (rem, resp) = parse_ldap_bind_response(&data).expect("parsing failed");
    assert!(rem.is_empty());
    assert_eq!(resp.result.result_code, ResultCode(ResultCode::SUCCESS));
    assert!(resp.server_sasl_creds.is_some());
}

#[test]
fn ldap_parser_test_parse_unbind_request() {
    const DATA: &[u8] = &[0x42, 0x00];

    let (rem, req) = parse_ldap_unbind_request(DATA).expect("parsing failed");
    assert!(rem.is_empty());
    assert_eq!(req, ProtocolOp::UnbindRequest);
}

#[test]
fn ldap_parser_test_parse_search_request() {
    let data = ber_search_request();
    let (rem, resp) = parse_ldap_search_request(&data).expect("parsing failed");
    assert!(rem.is_empty());
    assert_eq!(&resp.base_object.0, "DC=xx,DC=xxx,DC=xxxxx,DC=net");
    assert_eq!(resp.scope, SearchScope(SearchScope::WHOLE_SUBTREE));
    assert_eq!(resp.attributes.len(), 1);
    assert!(matches!(resp.filter, Filter::And(ref subs) if subs.len() == 2));
}

#[test]
fn ldap_parser_test_parse_search_result_entry() {
    let data = ber_group(
        0x64,
        &[
            ber_octets("CN=xxxxxxxx,OU=users,DC=xx,DC=xxx,DC=xxxxx,DC=net"),
            ber_group(0x30, &[ber_attribute("sAMAccountName", &["xxxxxxxx"])]),
        ],
    );
    let (rem, resp) = parse_ldap_search_result_entry(&data).expect("parsing failed");
    assert!(rem.is_empty());
    assert_eq!(resp.attributes.len(), 1);
}

#[test]
fn ldap_parser_test_parse_search_result_done() {
    let data = ber_element(0x65, &ber_plain_result(0));
    let (rem, resp) = parse_ldap_search_result_done(&data).expect("parsing failed");
    assert!(rem.is_empty());
    assert_eq!(resp.result_code, ResultCode(ResultCode::SUCCESS));
}

#[test]
fn ldap_parser_test_parse_search_result_ref() {
    let data = ber_group(
        0x73,
        &[ber_octets("ldap://DomainDnsZones.rccad.net/DC=DomainDnsZones,DC=rccad,DC=net")],
    );
    let (rem, v) = parse_ldap_search_result_ref(&data).expect("parsing failed");
    assert!(rem.is_empty());
    assert_eq!(v.len(), 1);
    assert_eq!(
        &v[0].0,
        "ldap://DomainDnsZones.rccad.net/DC=DomainDnsZones,DC=rccad,DC=net"
    );
}

#[test]
fn ldap_parser_test_parse_extended_req() {
    let data = ber_group(0x77, &[ber_element(0x80, b"1.3.6.1.4.1.1466.20037")]);
    let (rem, req) = parse_ldap_extended_request(&data).expect("parsing failed");
    assert!(rem.is_empty());
    assert_eq!(req.request_name.0, "1.3.6.1.4.1.1466.20037".to_string());
    assert!(req.request_value.is_none());
}

#[test]
fn ldap_parser_test_parse_extended_response() {
    const DATA: &[u8] = &[0x78, 0x07, 0x0a, 0x01, 0x00, 0x04, 0x00, 0x04, 0x00];
    let (rem, resp) = parse_ldap_extended_response(DATA).expect("parsing failed");
    assert!(rem.is_empty());
    assert_eq!(resp.result.result_code, ResultCode(ResultCode::SUCCESS));
}

#[test]
fn ldap_parser_test_parse_modify_request() {
    let change = ber_group(0x30, &[ber_element(0x0a, &[2]), ber_attribute("description", &["a new description"])]);
    let data = ber_group(
        0x66,
        &[ber_octets("cn=username1,ou=users,dc=xxx,dc=internet"), ber_group(0x30, &[change])],
    );
    let (rem, req) = parse_ldap_modify_request(&data).expect("parsing failed");
    assert!(rem.is_empty());
    assert_eq!(&req.object.0, "cn=username1,ou=users,dc=xxx,dc=internet");
    assert_eq!(req.changes.len(), 1);
    assert_eq!(req.changes[0].modification.attr_type.0, "description");
}

#[test]
fn ldap_parser_test_parse_modify_response() {
    let data = ber_element(0x67, &ber_plain_result(0));
    let (rem, resp) = parse_ldap_modify_response(&data).expect("parsing failed");
    assert!(rem.is_empty());
    assert_eq!(resp.result.result_code, ResultCode(ResultCode::SUCCESS));
}

#[test]
fn ldap_parser_test_parse_add_request() {
    let data = ber_group(
        0x68,
        &[
            ber_octets("cn=username1,ou=users,dc=xxx,dc=internet"),
            ber_group(
                0x30,
                &[
                    ber_attribute("objectClass", &["top", "person"]),
                    ber_attribute("cn", &["username1"]),
                    ber_attribute("sn", &["name1"]),
                    ber_attribute("description", &["first user"]),
                ],
            ),
        ],
    );
    let (rem, req) = parse_ldap_add_request(&data).expect("parsing failed");
    assert!(rem.is_empty());
    assert_eq!(&req.entry.0, "cn=username1,ou=users,dc=xxx,dc=internet");
    assert_eq!(req.attributes.len(), 4);
}

#[test]
fn ldap_parser_test_parse_add_response() {
    let data = ber_element(0x69, &ber_plain_result(0));
    let (rem, resp) = parse_ldap_add_response(&data).expect("parsing failed");
    assert!(rem.is_empty());
    assert_eq!(resp.result_code, ResultCode(ResultCode::SUCCESS));
}

#[test]
fn ldap_parser_test_parse_del_request() {
    let data = ber_element(0x4a, b"cn=username2,ou=users2,dc=xxx,dc=internet");
    let (rem, req) = parse_ldap_del_request(&data).expect("parsing failed");
    assert!(rem.is_empty());
    assert_eq!(&req.0, "cn=username2,ou=users2,dc=xxx,dc=internet");
}

#[test]
fn ldap_parser_test_parse_del_response() {
    let data = ber_element(0x6b, &ber_plain_result(0));
    let (rem, resp) = parse_ldap_del_response(&data).expect("parsing failed");
    assert!(rem.is_empty());
    assert_eq!(resp.result_code, ResultCode(ResultCode::SUCCESS));
}

#[test]
fn ldap_parser_test_parse_moddn_request() {
    let data = ber_group(
        0x6c,
        &[
            ber_octets("cn=username1,ou=users,dc=xxx,dc=internet"),
            ber_octets("cn=username2"),
            ber_element(0x01, &[0xff]),
            ber_element(0x80, b"ou=users,dc=xxx,dc=internet"),
        ],
    );
    let (rem, req) = parse_ldap_moddn_request(&data).expect("parsing failed");
    assert!(rem.is_empty());
    assert_eq!(&req.entry.0, "cn=username1,ou=users,dc=xxx,dc=internet");
    assert_eq!(&req.newrdn.0, "cn=username2");
    assert!(req.deleteoldrdn);
    assert_eq!(&req.newsuperior.unwrap().0, "ou=users,dc=xxx,dc=internet");
}

#[test]
fn ldap_parser_test_parse_moddn_response() {
    let data = ber_element(0x6d, &ber_plain_result(0));
    let (rem, resp) = parse_ldap_moddn_response(&data).expect("parsing failed");
    assert!(rem.is_empty());
    assert_eq!(resp.result_code, ResultCode(ResultCode::SUCCESS));
}

#[test]
fn ldap_parser_test_parse_compare_request() {
    let data = ber_group(
        0x6e,
        &[
            ber_octets("cn=username2,ou=users2,dc=xxx,dc=internet"),
            ber_group(0x30, &[ber_octets("cn"), ber_octets("username2")]),
        ],
    );
    let (rem, req) = parse_ldap_compare_request(&data).expect("parsing failed");
    assert!(rem.is_empty());
    assert_eq!(&req.entry.0, "cn=username2,ou=users2,dc=xxx,dc=internet");
    assert_eq!(&req.ava.attribute_desc.0, "cn");
}

#[test]
fn ldap_parser_test_parse_compare_response() {
    let data = ber_element(0x6f, &ber_plain_result(6));
    let (rem, resp) = parse_ldap_compare_response(&data).expect("parsing failed");
    assert!(rem.is_empty());
    assert_eq!(resp.result_code, ResultCode(ResultCode::COMPARE_TRUE));
}
