//! Decoders of LDAP messages and of the protocol operations.

use crate::ber::{
    short_input, ber_error, bytes_view, opt_bytes_view, read_any, read_bool, read_enumerated, read_header,
    read_null, read_octet_string, read_opt_bool, read_opt_tagged, read_opt_tagged_utf8,
    read_sequence, read_tagged, read_tagged_u32, read_tagged_utf8, read_u32, read_u8,
    read_utf8_string, spec_any, spec_bool, spec_complete, spec_enumerated, spec_header, spec_inner,
    spec_null, spec_octet_string, spec_opt, spec_opt_bool, spec_opt_tagged, spec_opt_tagged_utf8,
    spec_sequence, spec_tagged, spec_tagged_u32, spec_tagged_utf8, spec_u32, spec_u8,
    spec_utf8_string,
};
use crate::combinator::{
    complete, many0, many1, many_to_end, spec_many_to_end, spec_prepend, sequence_of0, sequence_of1, spec_many0, spec_many1, spec_sequence_of0,
    spec_sequence_of1, FromBer,
};
use crate::error::{
    ber_err, consumed, decoded, group_parts, is_part, is_suffix, lemma_suffix_refl, BerError, Class,
    DecodeError, ErrorKind, LdapError, ParseResult, Parts, SpecResult,
};
use crate::filter::{
    Attribute, AttributeValueAssertion, AttributeView, Filter, PartialAttribute,
    PartialAttributeView,
};
use crate::ldap::{
    AddRequest, AddRequestView, AuthenticationChoice, AuthenticationChoiceView, BindRequest,
    BindRequestView, BindResponse, BindResponseView, Change, ChangeView, CompareRequest,
    CompareRequestView, Control, ControlView, DerefAliases, ExtendedRequest, ExtendedRequestView,
    ExtendedResponse, ExtendedResponseView, IntermediateResponse, IntermediateResponseView, LdapDN,
    LdapMessage, LdapMessageView, LdapOID, LdapResult, LdapResultView, LdapString, MessageID,
    ModDnRequest, ModDnRequestView, ModifyRequest, ModifyRequestView, ModifyResponse,
    ModifyResponseView, Operation, ProtocolOp, ProtocolOpTag, ProtocolOpView, RelativeLdapDN,
    ResultCode, SaslCredentials, SaslCredentialsView, SearchRequest, SearchRequestView,
    SearchResultEntry, SearchResultEntryView, SearchScope,
};
use std::borrow::Cow;
use vstd::prelude::*;

verus! {

broadcast use group_parts;

/// The message identifier at the start of `s`: an INTEGER that fits 32 bits unsigned.
pub open spec fn spec_message_id(s: Seq<u8>) -> SpecResult<MessageID> {
    match spec_u32(s) {
        Ok((v, rest)) => Ok((MessageID(v), rest)),
        Err(e) => Err(e),
    }
}

/// Decodes a message identifier.
pub fn parse_message_id<'a>(bytes: &'a [u8]) -> (r: ParseResult<'a, MessageID>)
    ensures
        decoded(bytes, r, spec_message_id(bytes@)),
{
    let (rem, v) = read_u32(bytes)?;
    Ok((rem, MessageID(v)))
}

impl<'a> FromBer<'a> for MessageID {
    /// See [`spec_message_id`].
    open spec fn spec_from_ber(s: Seq<u8>) -> SpecResult<MessageID> {
        spec_message_id(s)
    }

    fn from_ber(bytes: &'a [u8]) -> (r: ParseResult<'a, Self>) {
        parse_message_id(bytes)
    }
}

/// The LDAPString at the start of `s`: an OCTET STRING whose content is UTF-8.
pub open spec fn spec_ldap_string(s: Seq<u8>) -> SpecResult<Seq<char>> {
    spec_utf8_string(s, LdapError::InvalidString)
}

/// Decodes an LDAPString.
pub fn parse_ldap_string<'a>(bytes: &'a [u8]) -> (r: ParseResult<'a, LdapString<'a>>)
    ensures
        decoded(bytes, r, spec_ldap_string(bytes@)),
{
    let (rem, s) = read_utf8_string(bytes, LdapError::InvalidString)?;
    Ok((rem, LdapString(Cow::Borrowed(s))))
}

impl<'a> FromBer<'a> for LdapString<'a> {
    /// See [`spec_ldap_string`].
    open spec fn spec_from_ber(s: Seq<u8>) -> SpecResult<Seq<char>> {
        spec_ldap_string(s)
    }

    fn from_ber(bytes: &'a [u8]) -> (r: ParseResult<'a, Self>) {
        parse_ldap_string(bytes)
    }
}

/// The distinguished name at the start of `s`: an OCTET STRING whose content is UTF-8.
pub open spec fn spec_ldap_dn(s: Seq<u8>) -> SpecResult<Seq<char>> {
    spec_utf8_string(s, LdapError::InvalidDN)
}

/// Decodes a distinguished name.
pub fn parse_ldap_dn<'a>(bytes: &'a [u8]) -> (r: ParseResult<'a, LdapDN<'a>>)
    ensures
        decoded(bytes, r, spec_ldap_dn(bytes@)),
{
    let (rem, s) = read_utf8_string(bytes, LdapError::InvalidDN)?;
    Ok((rem, LdapDN(Cow::Borrowed(s))))
}

impl<'a> FromBer<'a> for LdapDN<'a> {
    /// See [`spec_ldap_dn`].
    open spec fn spec_from_ber(s: Seq<u8>) -> SpecResult<Seq<char>> {
        spec_ldap_dn(s)
    }

    fn from_ber(bytes: &'a [u8]) -> (r: ParseResult<'a, Self>) {
        parse_ldap_dn(bytes)
    }
}

/// The relative distinguished name at the start of `s`: an OCTET STRING whose content is UTF-8.
pub open spec fn spec_relative_ldap_dn(s: Seq<u8>) -> SpecResult<Seq<char>> {
    spec_utf8_string(s, LdapError::InvalidDN)
}

/// Decodes a relative distinguished name.
pub fn parse_relative_ldap_dn<'a>(bytes: &'a [u8]) -> (r: ParseResult<'a, RelativeLdapDN<'a>>)
    ensures
        decoded(bytes, r, spec_relative_ldap_dn(bytes@)),
{
    let (rem, s) = read_utf8_string(bytes, LdapError::InvalidDN)?;
    Ok((rem, RelativeLdapDN(Cow::Borrowed(s))))
}

impl<'a> FromBer<'a> for RelativeLdapDN<'a> {
    /// See [`spec_relative_ldap_dn`].
    open spec fn spec_from_ber(s: Seq<u8>) -> SpecResult<Seq<char>> {
        spec_relative_ldap_dn(s)
    }

    fn from_ber(bytes: &'a [u8]) -> (r: ParseResult<'a, Self>) {
        parse_relative_ldap_dn(bytes)
    }
}

/// The object identifier in text form at the start of `s`: an OCTET STRING whose content is UTF-8.
pub open spec fn spec_ldap_oid(s: Seq<u8>) -> SpecResult<Seq<char>> {
    spec_utf8_string(s, LdapError::InvalidDN)
}

/// Decodes an object identifier in text form.
pub fn parse_ldap_oid<'a>(bytes: &'a [u8]) -> (r: ParseResult<'a, LdapOID<'a>>)
    ensures
        decoded(bytes, r, spec_ldap_oid(bytes@)),
{
    let (rem, s) = read_utf8_string(bytes, LdapError::InvalidDN)?;
    Ok((rem, LdapOID(Cow::Borrowed(s))))
}

impl<'a> FromBer<'a> for LdapOID<'a> {
    /// See [`spec_ldap_oid`].
    open spec fn spec_from_ber(s: Seq<u8>) -> SpecResult<Seq<char>> {
        spec_ldap_oid(s)
    }

    fn from_ber(bytes: &'a [u8]) -> (r: ParseResult<'a, Self>) {
        parse_ldap_oid(bytes)
    }
}

/// Decodes the content of an OCTET STRING.
pub fn parse_ldap_octet_string_as_slice<'a>(i: &'a [u8]) -> (r: ParseResult<'a, &'a [u8]>)
    ensures
        bytes_view(r) == spec_octet_string(i@),
        r matches Ok((rem, _)) ==> is_suffix(rem@, i@),
        r matches Ok((_, content)) ==> is_part(content@, i@),
{
    read_octet_string(i)
}

/// Decodes an INTEGER that fits 32 bits unsigned.
pub fn parse_ldap_int_as_u32<'a>(i: &'a [u8]) -> (r: ParseResult<'a, u32>)
    ensures
        decoded(i, r, spec_u32(i@)),
{
    read_u32(i)
}

/// Decodes an ENUMERATED that fits 32 bits unsigned.
pub fn parse_ldap_enum_as_u32<'a>(i: &'a [u8]) -> (r: ParseResult<'a, u32>)
    ensures
        decoded(i, r, spec_enumerated(i@)),
{
    read_enumerated(i)
}

/// The URI at the start of `s`: an LDAPString.
pub open spec fn spec_ldap_uri(s: Seq<u8>) -> SpecResult<Seq<char>> {
    LdapString::spec_from_ber(s)
}

/// Decodes a URI.
pub fn parse_ldap_uri<'a>(i: &'a [u8]) -> (r: ParseResult<'a, LdapString<'a>>)
    ensures
        decoded(i, r, spec_ldap_uri(i@)),
{
    LdapString::from_ber(i)
}

/// The components of an LDAPResult at the start of `s`: result code, matched
/// DN and diagnostic message. A referral that follows is left in the tail.
pub open spec fn spec_ldap_result_content(s: Seq<u8>) -> SpecResult<LdapResultView> {
    match spec_enumerated(s) {
        Err(e) => Err(e),
        Ok((code, s1)) => match LdapDN::spec_from_ber(s1) {
            Err(e) => Err(e),
            Ok((matched_dn, s2)) => match LdapString::spec_from_ber(s2) {
                Err(e) => Err(e),
                Ok((diagnostic_message, s3)) => Ok(
                    (LdapResultView { result_code: ResultCode(code), matched_dn, diagnostic_message }, s3),
                ),
            },
        },
    }
}

/// Decodes the components of an LDAPResult.
pub fn parse_ldap_result_content<'a>(i: &'a [u8]) -> (r: ParseResult<'a, LdapResult<'a>>)
    ensures
        decoded(i, r, spec_ldap_result_content(i@)),
{
    let (i1, code) = read_enumerated(i)?;
    let (i2, matched_dn) = LdapDN::from_ber(i1)?;
    let (i3, diagnostic_message) = LdapString::from_ber(i2)?;
    Ok((i3, LdapResult { result_code: ResultCode(code), matched_dn, diagnostic_message }))
}

/// The authentication choice at the start of `s`. Tag 0 is the simple
/// password, the content of the element. Tag 3 announces SASL credentials,
/// which are decoded from the octets after the header. Any other tag is an error.
pub open spec fn spec_authentication_choice(s: Seq<u8>) -> SpecResult<AuthenticationChoiceView> {
    match spec_header(s) {
        Err(e) => Err(e),
        Ok((h, after)) => if h.tag == 0 {
            match spec_any(s) {
                Err(e) => Err(e),
                Ok((any, rest)) => Ok((AuthenticationChoiceView::Simple(any.data), rest)),
            }
        } else if h.tag == 3 {
            match spec_sasl_credentials(after) {
                Err(e) => Err(e),
                Ok((c, rest)) => Ok((AuthenticationChoiceView::Sasl(c), rest)),
            }
        } else {
            Err(DecodeError::Error(LdapError::InvalidAuthenticationType))
        },
    }
}

/// Decodes an authentication choice.
pub fn parse_authentication_choice<'a>(bytes: &'a [u8]) -> (r: ParseResult<'a, AuthenticationChoice<'a>>)
    ensures
        decoded(bytes, r, spec_authentication_choice(bytes@)),
{
    let (after, header) = read_header(bytes)?;
    if header.tag == 0 {
        let (rem, any) = read_any(bytes)?;
        Ok((rem, AuthenticationChoice::Simple(Cow::Borrowed(any.data))))
    } else if header.tag == 3 {
        let (rem, c) = parse_sasl_credentials(after)?;
        Ok((rem, AuthenticationChoice::Sasl(c)))
    } else {
        Err(DecodeError::Error(LdapError::InvalidAuthenticationType))
    }
}

impl<'a> FromBer<'a> for AuthenticationChoice<'a> {
    /// See [`spec_authentication_choice`].
    open spec fn spec_from_ber(s: Seq<u8>) -> SpecResult<AuthenticationChoiceView> {
        spec_authentication_choice(s)
    }

    fn from_ber(bytes: &'a [u8]) -> (r: ParseResult<'a, Self>) {
        parse_authentication_choice(bytes)
    }
}

/// The optional OCTET STRING at the start of `s`: absent where no complete
/// OCTET STRING stands.
pub open spec fn spec_opt_octet_string(s: Seq<u8>) -> SpecResult<Option<Seq<u8>>> {
    spec_opt(spec_complete(spec_octet_string(s)), s)
}

/// Decodes an OCTET STRING if a complete one stands at the start of the input.
pub fn parse_opt_octet_string<'a>(i: &'a [u8]) -> (r: ParseResult<'a, Option<&'a [u8]>>)
    ensures
        opt_bytes_view(r) == spec_opt_octet_string(i@),
        r matches Ok((rem, _)) ==> is_suffix(rem@, i@),
        r matches Ok((_, Some(content))) ==> is_part(content@, i@),
{
    proof {
        lemma_suffix_refl(i@);
    }
    match complete(read_octet_string(i)) {
        Ok((rem, b)) => Ok((rem, Some(b))),
        Err(DecodeError::Error(_)) => Ok((i, None)),
        Err(e) => Err(e),
    }
}

/// The SASL credentials at the start of `s`: the mechanism and the optional credentials.
pub open spec fn spec_sasl_credentials(s: Seq<u8>) -> SpecResult<SaslCredentialsView> {
    match LdapString::spec_from_ber(s) {
        Err(e) => Err(e),
        Ok((mechanism, s1)) => match spec_opt_octet_string(s1) {
            Err(e) => Err(e),
            Ok((credentials, s2)) => Ok((SaslCredentialsView { mechanism, credentials }, s2)),
        },
    }
}

/// Decodes SASL credentials.
pub fn parse_sasl_credentials<'a>(i: &'a [u8]) -> (r: ParseResult<'a, SaslCredentials<'a>>)
    ensures
        decoded(i, r, spec_sasl_credentials(i@)),
{
    let (i1, mechanism) = LdapString::from_ber(i)?;
    let (i2, creds) = parse_opt_octet_string(i1)?;
    let credentials = match creds {
        Some(b) => Some(Cow::Borrowed(b)),
        None => None,
    };
    Ok((i2, SaslCredentials { mechanism, credentials }))
}

/// The components of a bind request at the start of `s`: the version, which
/// must be below 128, the name and the authentication choice.
pub open spec fn spec_bind_request_content(s: Seq<u8>) -> SpecResult<BindRequestView> {
    match spec_u8(s) {
        Err(e) => Err(e),
        Ok((version, s1)) => if version >= 128 {
            Err(ber_err(BerError::NomError(ErrorKind::Verify)))
        } else {
            match LdapDN::spec_from_ber(s1) {
                Err(e) => Err(e),
                Ok((name, s2)) => match spec_authentication_choice(s2) {
                    Err(e) => Err(e),
                    Ok((authentication, s3)) => Ok((BindRequestView { version, name, authentication }, s3)),
                },
            }
        },
    }
}

/// Decodes the components of a bind request.
pub fn parse_bind_request_content<'a>(i: &'a [u8]) -> (r: ParseResult<'a, BindRequest<'a>>)
    ensures
        decoded(i, r, spec_bind_request_content(i@)),
{
    let (i1, version) = read_u8(i)?;
    if version >= 128 {
        return Err(ber_error(BerError::NomError(ErrorKind::Verify)));
    }
    let (i2, name) = LdapDN::from_ber(i1)?;
    let (i3, authentication) = AuthenticationChoice::from_ber(i2)?;
    Ok((i3, BindRequest { version, name, authentication }))
}

/// The bind request at the start of `s`: `[APPLICATION 0]` holding the components of a bind request.
pub open spec fn spec_bind_request(s: Seq<u8>) -> SpecResult<BindRequestView> {
    match spec_tagged(Class::Application, ProtocolOpTag::BIND_REQUEST, s) {
        Err(e) => Err(e),
        Ok((content, rest)) => spec_inner(spec_bind_request_content(content), rest),
    }
}

/// Decodes a bind request.
pub fn parse_ldap_bind_request<'a>(bytes: &'a [u8]) -> (r: ParseResult<'a, BindRequest<'a>>)
    ensures
        decoded(bytes, r, spec_bind_request(bytes@)),
{
    let (rem, content) = read_tagged(Class::Application, ProtocolOpTag::BIND_REQUEST, bytes)?;
    let (_, v) = parse_bind_request_content(content)?;
    Ok((rem, v))
}

impl<'a> FromBer<'a> for BindRequest<'a> {
    /// See [`spec_bind_request`].
    open spec fn spec_from_ber(s: Seq<u8>) -> SpecResult<BindRequestView> {
        spec_bind_request(s)
    }

    fn from_ber(bytes: &'a [u8]) -> (r: ParseResult<'a, Self>) {
        parse_ldap_bind_request(bytes)
    }
}

/// The content of an optional `[class tag]` element as opaque octets.
pub fn parse_opt_tagged_bytes<'a>(class: Class, tag: u32, i: &'a [u8]) -> (r: ParseResult<'a, Option<Cow<'a, [u8]>>>)
    ensures
        cow_bytes_view(r) == spec_opt_tagged(class, tag, i@),
        r matches Ok((rem, _)) ==> is_suffix(rem@, i@),
        r matches Ok((_, Some(content))) ==> is_part(content@, i@),
{
    let (rem, content) = read_opt_tagged(class, tag, i)?;
    match content {
        Some(b) => Ok((rem, Some(Cow::Borrowed(b)))),
        None => Ok((rem, None)),
    }
}

/// The view of a result whose value is optional opaque octets.
pub open spec fn cow_bytes_view(r: ParseResult<Option<Cow<[u8]>>>) -> SpecResult<Option<Seq<u8>>> {
    match r {
        Ok((rem, v)) => Ok((crate::ldap::opt_bytes(v), rem@)),
        Err(e) => Err(e),
    }
}

/// The content of an optional `[class tag]` element as an object identifier in text form.
pub fn parse_opt_tagged_oid<'a>(class: Class, tag: u32, i: &'a [u8]) -> (r: ParseResult<'a, Option<LdapOID<'a>>>)
    ensures
        decoded(i, r, spec_opt_tagged_utf8(class, tag, i@, LdapError::InvalidDN)),
{
    let (rem, name) = read_opt_tagged_utf8(class, tag, i, LdapError::InvalidDN)?;
    match name {
        Some(s) => Ok((rem, Some(LdapOID(Cow::Borrowed(s))))),
        None => Ok((rem, None)),
    }
}

/// The components of a bind response at the start of `s`: the result and
/// the optional `[7]` server SASL credentials.
pub open spec fn spec_bind_response_content(s: Seq<u8>) -> SpecResult<BindResponseView> {
    match spec_ldap_result_content(s) {
        Err(e) => Err(e),
        Ok((result, s1)) => match spec_opt_tagged(Class::ContextSpecific, 7, s1) {
            Err(e) => Err(e),
            Ok((server_sasl_creds, s2)) => Ok((BindResponseView { result, server_sasl_creds }, s2)),
        },
    }
}

/// Decodes the components of a bind response.
pub fn parse_bind_response_content<'a>(i: &'a [u8]) -> (r: ParseResult<'a, BindResponse<'a>>)
    ensures
        decoded(i, r, spec_bind_response_content(i@)),
{
    let (i1, result) = parse_ldap_result_content(i)?;
    let (i2, server_sasl_creds) = parse_opt_tagged_bytes(Class::ContextSpecific, 7, i1)?;
    Ok((i2, BindResponse { result, server_sasl_creds }))
}

/// The bind response at the start of `s`: `[APPLICATION 1]` holding the components of a bind response.
pub open spec fn spec_bind_response(s: Seq<u8>) -> SpecResult<BindResponseView> {
    match spec_tagged(Class::Application, ProtocolOpTag::BIND_RESPONSE, s) {
        Err(e) => Err(e),
        Ok((content, rest)) => spec_inner(spec_bind_response_content(content), rest),
    }
}

/// Decodes a bind response.
pub fn parse_ldap_bind_response<'a>(bytes: &'a [u8]) -> (r: ParseResult<'a, BindResponse<'a>>)
    ensures
        decoded(bytes, r, spec_bind_response(bytes@)),
{
    let (rem, content) = read_tagged(Class::Application, ProtocolOpTag::BIND_RESPONSE, bytes)?;
    let (_, v) = parse_bind_response_content(content)?;
    Ok((rem, v))
}

impl<'a> FromBer<'a> for BindResponse<'a> {
    /// See [`spec_bind_response`].
    open spec fn spec_from_ber(s: Seq<u8>) -> SpecResult<BindResponseView> {
        spec_bind_response(s)
    }

    fn from_ber(bytes: &'a [u8]) -> (r: ParseResult<'a, Self>) {
        parse_ldap_bind_response(bytes)
    }
}

/// The unbind request at the start of `s`: `[APPLICATION 2]` whose content is
/// empty or a NULL.
pub open spec fn spec_unbind_request(s: Seq<u8>) -> SpecResult<ProtocolOpView> {
    match spec_tagged(Class::Application, ProtocolOpTag::UNBIND_REQUEST, s) {
        Err(e) => Err(e),
        Ok((content, rest)) => if content.len() == 0 {
            Ok((ProtocolOpView::UnbindRequest, rest))
        } else {
            match spec_null(content) {
                Err(e) => Err(e),
                Ok(_) => Ok((ProtocolOpView::UnbindRequest, rest)),
            }
        },
    }
}

/// Decodes an unbind request.
pub fn parse_ldap_unbind_request<'a>(bytes: &'a [u8]) -> (r: ParseResult<'a, ProtocolOp<'a>>)
    ensures
        decoded(bytes, r, spec_unbind_request(bytes@)),
{
    let (rem, content) = read_tagged(Class::Application, ProtocolOpTag::UNBIND_REQUEST, bytes)?;
    if content.len() != 0 {
        let _ = read_null(content)?;
    }
    Ok((rem, ProtocolOp::UnbindRequest))
}

/// The attribute selection at the start of `s`: a SEQUENCE of zero or more LDAPStrings.
pub open spec fn spec_attribute_selection(s: Seq<u8>) -> SpecResult<Seq<Seq<char>>> {
    spec_sequence_of0::<LdapString>(s)
}

/// Decodes an attribute selection.
pub fn parse_attribute_selection<'a>(bytes: &'a [u8]) -> (r: ParseResult<'a, Vec<LdapString<'a>>>)
    ensures
        decoded(bytes, r, spec_attribute_selection(bytes@)),
{
    sequence_of0::<LdapString>(bytes)
}

/// The partial attribute list at the start of `s`: a SEQUENCE of zero or more partial attributes.
pub open spec fn spec_partial_attribute_list(s: Seq<u8>) -> SpecResult<Seq<PartialAttributeView>> {
    spec_sequence_of0::<PartialAttribute>(s)
}

/// Decodes a partial attribute list.
pub fn parse_partial_attribute_list<'a>(bytes: &'a [u8]) -> (r: ParseResult<'a, Vec<PartialAttribute<'a>>>)
    ensures
        decoded(bytes, r, spec_partial_attribute_list(bytes@)),
{
    sequence_of0::<PartialAttribute>(bytes)
}

/// The attribute list at the start of `s`: a SEQUENCE of zero or more attributes.
pub open spec fn spec_attribute_list(s: Seq<u8>) -> SpecResult<Seq<AttributeView>> {
    spec_sequence_of0::<Attribute>(s)
}

/// Decodes an attribute list.
pub fn parse_attribute_list<'a>(bytes: &'a [u8]) -> (r: ParseResult<'a, Vec<Attribute<'a>>>)
    ensures
        decoded(bytes, r, spec_attribute_list(bytes@)),
{
    sequence_of0::<Attribute>(bytes)
}

/// The components of a search request at the start of `s`, in the order of
/// the fields of [`SearchRequestView`].
pub open spec fn spec_search_request_content(s: Seq<u8>) -> SpecResult<SearchRequestView> {
    match LdapDN::spec_from_ber(s) {
        Err(e) => Err(e),
        Ok((base_object, s1)) => match spec_enumerated(s1) {
            Err(e) => Err(e),
            Ok((scope, s2)) => match spec_enumerated(s2) {
                Err(e) => Err(e),
                Ok((deref_aliases, s3)) => match spec_u32(s3) {
                    Err(e) => Err(e),
                    Ok((size_limit, s4)) => match spec_u32(s4) {
                        Err(e) => Err(e),
                        Ok((time_limit, s5)) => match spec_bool(s5) {
                            Err(e) => Err(e),
                            Ok((types_only, s6)) => match Filter::spec_from_ber(s6) {
                                Err(e) => Err(e),
                                Ok((filter, s7)) => match spec_attribute_selection(s7) {
                                    Err(e) => Err(e),
                                    Ok((attributes, s8)) => Ok(
                                        (
                                            SearchRequestView {
                                                base_object,
                                                scope: SearchScope(scope),
                                                deref_aliases: DerefAliases(deref_aliases),
                                                size_limit,
                                                time_limit,
                                                types_only,
                                                filter,
                                                attributes,
                                            },
                                            s8,
                                        ),
                                    ),
                                },
                            },
                        },
                    },
                },
            },
        },
    }
}

/// Decodes the components of a search request.
pub fn parse_search_request_content<'a>(i: &'a [u8]) -> (r: ParseResult<'a, SearchRequest<'a>>)
    ensures
        decoded(i, r, spec_search_request_content(i@)),
{
    let (i1, base_object) = LdapDN::from_ber(i)?;
    let (i2, scope) = read_enumerated(i1)?;
    let (i3, deref_aliases) = read_enumerated(i2)?;
    let (i4, size_limit) = read_u32(i3)?;
    let (i5, time_limit) = read_u32(i4)?;
    let (i6, types_only) = read_bool(i5)?;
    let (i7, filter) = Filter::from_ber(i6)?;
    let (i8, attributes) = parse_attribute_selection(i7)?;
    proof {
        filter.deep_view().lemma_within_part(i6@, i@);
        attributes.deep_view().lemma_within_part(i7@, i@);
    }
    Ok(
        (
            i8,
            SearchRequest {
                base_object,
                scope: SearchScope(scope),
                deref_aliases: DerefAliases(deref_aliases),
                size_limit,
                time_limit,
                types_only,
                filter,
                attributes,
            },
        ),
    )
}

/// The search request at the start of `s`: `[APPLICATION 3]` holding the components of a search request.
pub open spec fn spec_search_request(s: Seq<u8>) -> SpecResult<SearchRequestView> {
    match spec_tagged(Class::Application, ProtocolOpTag::SEARCH_REQUEST, s) {
        Err(e) => Err(e),
        Ok((content, rest)) => spec_inner(spec_search_request_content(content), rest),
    }
}

/// Decodes a search request.
pub fn parse_ldap_search_request<'a>(bytes: &'a [u8]) -> (r: ParseResult<'a, SearchRequest<'a>>)
    ensures
        decoded(bytes, r, spec_search_request(bytes@)),
{
    let (rem, content) = read_tagged(Class::Application, ProtocolOpTag::SEARCH_REQUEST, bytes)?;
    let (_, v) = parse_search_request_content(content)?;
    proof {
        v.deep_view().lemma_within_part(content@, bytes@);
    }
    Ok((rem, v))
}

impl<'a> FromBer<'a> for SearchRequest<'a> {
    /// See [`spec_search_request`].
    open spec fn spec_from_ber(s: Seq<u8>) -> SpecResult<SearchRequestView> {
        spec_search_request(s)
    }

    fn from_ber(bytes: &'a [u8]) -> (r: ParseResult<'a, Self>) {
        parse_ldap_search_request(bytes)
    }
}

/// The components of a search result entry at the start of `s`: the object
/// name and the partial attribute list.
pub open spec fn spec_search_result_entry_content(s: Seq<u8>) -> SpecResult<SearchResultEntryView> {
    match LdapDN::spec_from_ber(s) {
        Err(e) => Err(e),
        Ok((object_name, s1)) => match spec_partial_attribute_list(s1) {
            Err(e) => Err(e),
            Ok((attributes, s2)) => Ok((SearchResultEntryView { object_name, attributes }, s2)),
        },
    }
}

/// Decodes the components of a search result entry.
pub fn parse_search_result_entry_content<'a>(i: &'a [u8]) -> (r: ParseResult<'a, SearchResultEntry<'a>>)
    ensures
        decoded(i, r, spec_search_result_entry_content(i@)),
{
    let (i1, object_name) = LdapDN::from_ber(i)?;
    let (i2, attributes) = parse_partial_attribute_list(i1)?;
    Ok((i2, SearchResultEntry { object_name, attributes }))
}

/// The search result entry at the start of `s`: `[APPLICATION 4]` holding the components of a search result entry.
pub open spec fn spec_search_result_entry(s: Seq<u8>) -> SpecResult<SearchResultEntryView> {
    match spec_tagged(Class::Application, ProtocolOpTag::SEARCH_RESULT_ENTRY, s) {
        Err(e) => Err(e),
        Ok((content, rest)) => spec_inner(spec_search_result_entry_content(content), rest),
    }
}

/// Decodes a search result entry.
pub fn parse_ldap_search_result_entry<'a>(bytes: &'a [u8]) -> (r: ParseResult<'a, SearchResultEntry<'a>>)
    ensures
        decoded(bytes, r, spec_search_result_entry(bytes@)),
{
    let (rem, content) = read_tagged(Class::Application, ProtocolOpTag::SEARCH_RESULT_ENTRY, bytes)?;
    let (_, v) = parse_search_result_entry_content(content)?;
    Ok((rem, v))
}

impl<'a> FromBer<'a> for SearchResultEntry<'a> {
    /// See [`spec_search_result_entry`].
    open spec fn spec_from_ber(s: Seq<u8>) -> SpecResult<SearchResultEntryView> {
        spec_search_result_entry(s)
    }

    fn from_ber(bytes: &'a [u8]) -> (r: ParseResult<'a, Self>) {
        parse_ldap_search_result_entry(bytes)
    }
}

/// The search result done at the start of `s`: `[APPLICATION 5]` holding an LDAPResult.
pub open spec fn spec_search_result_done(s: Seq<u8>) -> SpecResult<LdapResultView> {
    match spec_tagged(Class::Application, ProtocolOpTag::SEARCH_RESULT_DONE, s) {
        Err(e) => Err(e),
        Ok((content, rest)) => spec_inner(spec_ldap_result_content(content), rest),
    }
}

/// Decodes the search result done at the start of `s`: `[APPLICATION 5]` holding an LDAPResult.
pub fn parse_ldap_search_result_done<'a>(bytes: &'a [u8]) -> (r: ParseResult<'a, LdapResult<'a>>)
    ensures
        decoded(bytes, r, spec_search_result_done(bytes@)),
{
    let (rem, content) = read_tagged(Class::Application, ProtocolOpTag::SEARCH_RESULT_DONE, bytes)?;
    let (_, v) = parse_ldap_result_content(content)?;
    Ok((rem, v))
}

/// The change at the start of `s`: a SEQUENCE of the kind of modification and a partial attribute.
pub open spec fn spec_change(s: Seq<u8>) -> SpecResult<ChangeView> {
    match spec_sequence(s) {
        Err(e) => Err(e),
        Ok((content, rest)) => match spec_enumerated(content) {
            Err(e) => Err(e),
            Ok((operation, s1)) => match PartialAttribute::spec_from_ber(s1) {
                Err(e) => Err(e),
                Ok((modification, _)) => Ok(
                    (ChangeView { operation: Operation(operation), modification }, rest),
                ),
            },
        },
    }
}

/// Decodes a change.
pub fn parse_ldap_change<'a>(bytes: &'a [u8]) -> (r: ParseResult<'a, Change<'a>>)
    ensures
        decoded(bytes, r, spec_change(bytes@)),
{
    let (rem, content) = read_sequence(bytes)?;
    let (i1, operation) = read_enumerated(content)?;
    let (_, modification) = PartialAttribute::from_ber(i1)?;
    Ok((rem, Change { operation: Operation(operation), modification }))
}

impl<'a> FromBer<'a> for Change<'a> {
    /// See [`spec_change`].
    open spec fn spec_from_ber(s: Seq<u8>) -> SpecResult<ChangeView> {
        spec_change(s)
    }

    fn from_ber(bytes: &'a [u8]) -> (r: ParseResult<'a, Self>) {
        parse_ldap_change(bytes)
    }
}

/// The components of a modify request at the start of `s`: the object and a
/// SEQUENCE of one or more changes.
pub open spec fn spec_modify_request_content(s: Seq<u8>) -> SpecResult<ModifyRequestView> {
    match LdapDN::spec_from_ber(s) {
        Err(e) => Err(e),
        Ok((object, s1)) => match spec_sequence_of1::<Change>(s1) {
            Err(e) => Err(e),
            Ok((changes, s2)) => Ok((ModifyRequestView { object, changes }, s2)),
        },
    }
}

/// Decodes the components of a modify request.
pub fn parse_modify_request_content<'a>(i: &'a [u8]) -> (r: ParseResult<'a, ModifyRequest<'a>>)
    ensures
        decoded(i, r, spec_modify_request_content(i@)),
{
    let (i1, object) = LdapDN::from_ber(i)?;
    let (i2, changes) = sequence_of1::<Change>(i1)?;
    Ok((i2, ModifyRequest { object, changes }))
}

/// The modify request at the start of `s`: `[APPLICATION 6]` holding the components of a modify request.
pub open spec fn spec_modify_request(s: Seq<u8>) -> SpecResult<ModifyRequestView> {
    match spec_tagged(Class::Application, ProtocolOpTag::MODIFY_REQUEST, s) {
        Err(e) => Err(e),
        Ok((content, rest)) => spec_inner(spec_modify_request_content(content), rest),
    }
}

/// Decodes a modify request.
pub fn parse_ldap_modify_request<'a>(bytes: &'a [u8]) -> (r: ParseResult<'a, ModifyRequest<'a>>)
    ensures
        decoded(bytes, r, spec_modify_request(bytes@)),
{
    let (rem, content) = read_tagged(Class::Application, ProtocolOpTag::MODIFY_REQUEST, bytes)?;
    let (_, v) = parse_modify_request_content(content)?;
    Ok((rem, v))
}

impl<'a> FromBer<'a> for ModifyRequest<'a> {
    /// See [`spec_modify_request`].
    open spec fn spec_from_ber(s: Seq<u8>) -> SpecResult<ModifyRequestView> {
        spec_modify_request(s)
    }

    fn from_ber(bytes: &'a [u8]) -> (r: ParseResult<'a, Self>) {
        parse_ldap_modify_request(bytes)
    }
}

/// The modify response at the start of `s`: `[APPLICATION 7]` holding an LDAPResult.
pub open spec fn spec_modify_response(s: Seq<u8>) -> SpecResult<ModifyResponseView> {
    match spec_tagged(Class::Application, ProtocolOpTag::MODIFY_RESPONSE, s) {
        Err(e) => Err(e),
        Ok((content, rest)) => match spec_ldap_result_content(content) {
            Err(e) => Err(e),
            Ok((result, _)) => Ok((ModifyResponseView { result }, rest)),
        },
    }
}

/// Decodes a modify response.
pub fn parse_ldap_modify_response<'a>(bytes: &'a [u8]) -> (r: ParseResult<'a, ModifyResponse<'a>>)
    ensures
        decoded(bytes, r, spec_modify_response(bytes@)),
{
    let (rem, content) = read_tagged(Class::Application, ProtocolOpTag::MODIFY_RESPONSE, bytes)?;
    let (_, result) = parse_ldap_result_content(content)?;
    Ok((rem, ModifyResponse { result }))
}

/// The components of an add request at the start of `s`: the entry and the attribute list.
pub open spec fn spec_add_request_content(s: Seq<u8>) -> SpecResult<AddRequestView> {
    match LdapDN::spec_from_ber(s) {
        Err(e) => Err(e),
        Ok((entry, s1)) => match spec_attribute_list(s1) {
            Err(e) => Err(e),
            Ok((attributes, s2)) => Ok((AddRequestView { entry, attributes }, s2)),
        },
    }
}

/// Decodes the components of an add request.
pub fn parse_add_request_content<'a>(i: &'a [u8]) -> (r: ParseResult<'a, AddRequest<'a>>)
    ensures
        decoded(i, r, spec_add_request_content(i@)),
{
    let (i1, entry) = LdapDN::from_ber(i)?;
    let (i2, attributes) = parse_attribute_list(i1)?;
    Ok((i2, AddRequest { entry, attributes }))
}

/// The add request at the start of `s`: `[APPLICATION 8]` holding the components of an add request.
pub open spec fn spec_add_request(s: Seq<u8>) -> SpecResult<AddRequestView> {
    match spec_tagged(Class::Application, ProtocolOpTag::ADD_REQUEST, s) {
        Err(e) => Err(e),
        Ok((content, rest)) => spec_inner(spec_add_request_content(content), rest),
    }
}

/// Decodes an add request.
pub fn parse_ldap_add_request<'a>(bytes: &'a [u8]) -> (r: ParseResult<'a, AddRequest<'a>>)
    ensures
        decoded(bytes, r, spec_add_request(bytes@)),
{
    let (rem, content) = read_tagged(Class::Application, ProtocolOpTag::ADD_REQUEST, bytes)?;
    let (_, v) = parse_add_request_content(content)?;
    Ok((rem, v))
}

impl<'a> FromBer<'a> for AddRequest<'a> {
    /// See [`spec_add_request`].
    open spec fn spec_from_ber(s: Seq<u8>) -> SpecResult<AddRequestView> {
        spec_add_request(s)
    }

    fn from_ber(bytes: &'a [u8]) -> (r: ParseResult<'a, Self>) {
        parse_ldap_add_request(bytes)
    }
}

/// The add response at the start of `s`: `[APPLICATION 9]` holding an LDAPResult.
pub open spec fn spec_add_response(s: Seq<u8>) -> SpecResult<LdapResultView> {
    match spec_tagged(Class::Application, ProtocolOpTag::ADD_RESPONSE, s) {
        Err(e) => Err(e),
        Ok((content, rest)) => spec_inner(spec_ldap_result_content(content), rest),
    }
}

/// Decodes the add response at the start of `s`: `[APPLICATION 9]` holding an LDAPResult.
pub fn parse_ldap_add_response<'a>(bytes: &'a [u8]) -> (r: ParseResult<'a, LdapResult<'a>>)
    ensures
        decoded(bytes, r, spec_add_response(bytes@)),
{
    let (rem, content) = read_tagged(Class::Application, ProtocolOpTag::ADD_RESPONSE, bytes)?;
    let (_, v) = parse_ldap_result_content(content)?;
    Ok((rem, v))
}

/// The delete request at the start of `s`: `[APPLICATION 10]` whose content
/// is the distinguished name itself.
pub open spec fn spec_del_request(s: Seq<u8>) -> SpecResult<Seq<char>> {
    spec_tagged_utf8(Class::Application, ProtocolOpTag::DEL_REQUEST, s, LdapError::InvalidDN)
}

/// Decodes a delete request.
pub fn parse_ldap_del_request<'a>(bytes: &'a [u8]) -> (r: ParseResult<'a, LdapDN<'a>>)
    ensures
        decoded(bytes, r, spec_del_request(bytes@)),
{
    let (rem, s) = read_tagged_utf8(Class::Application, ProtocolOpTag::DEL_REQUEST, bytes, LdapError::InvalidDN)?;
    Ok((rem, LdapDN(Cow::Borrowed(s))))
}

/// The delete response at the start of `s`: `[APPLICATION 11]` holding an LDAPResult.
pub open spec fn spec_del_response(s: Seq<u8>) -> SpecResult<LdapResultView> {
    match spec_tagged(Class::Application, ProtocolOpTag::DEL_RESPONSE, s) {
        Err(e) => Err(e),
        Ok((content, rest)) => spec_inner(spec_ldap_result_content(content), rest),
    }
}

/// Decodes the delete response at the start of `s`: `[APPLICATION 11]` holding an LDAPResult.
pub fn parse_ldap_del_response<'a>(bytes: &'a [u8]) -> (r: ParseResult<'a, LdapResult<'a>>)
    ensures
        decoded(bytes, r, spec_del_response(bytes@)),
{
    let (rem, content) = read_tagged(Class::Application, ProtocolOpTag::DEL_RESPONSE, bytes)?;
    let (_, v) = parse_ldap_result_content(content)?;
    Ok((rem, v))
}

/// The components of a modify DN request at the start of `s`: the entry, the
/// new relative name, the flag and the optional `[0]` new superior.
pub open spec fn spec_moddn_request_content(s: Seq<u8>) -> SpecResult<ModDnRequestView> {
    match LdapDN::spec_from_ber(s) {
        Err(e) => Err(e),
        Ok((entry, s1)) => match RelativeLdapDN::spec_from_ber(s1) {
            Err(e) => Err(e),
            Ok((newrdn, s2)) => match spec_bool(s2) {
                Err(e) => Err(e),
                Ok((deleteoldrdn, s3)) => match spec_opt_tagged_utf8(Class::ContextSpecific, 0, s3, LdapError::InvalidDN) {
                    Err(e) => Err(e),
                    Ok((newsuperior, s4)) => Ok(
                        (ModDnRequestView { entry, newrdn, deleteoldrdn, newsuperior }, s4),
                    ),
                },
            },
        },
    }
}

/// Decodes the components of a modify DN request.
pub fn parse_moddn_request_content<'a>(i: &'a [u8]) -> (r: ParseResult<'a, ModDnRequest<'a>>)
    ensures
        decoded(i, r, spec_moddn_request_content(i@)),
{
    let (i1, entry) = LdapDN::from_ber(i)?;
    let (i2, newrdn) = RelativeLdapDN::from_ber(i1)?;
    let (i3, deleteoldrdn) = read_bool(i2)?;
    let (i4, superior) = read_opt_tagged_utf8(Class::ContextSpecific, 0, i3, LdapError::InvalidDN)?;
    let newsuperior = match superior {
        Some(s) => Some(LdapDN(Cow::Borrowed(s))),
        None => None,
    };
    Ok((i4, ModDnRequest { entry, newrdn, deleteoldrdn, newsuperior }))
}

/// The modify DN request at the start of `s`: `[APPLICATION 12]` holding the components of a modify DN request.
pub open spec fn spec_moddn_request(s: Seq<u8>) -> SpecResult<ModDnRequestView> {
    match spec_tagged(Class::Application, ProtocolOpTag::MOD_DN_REQUEST, s) {
        Err(e) => Err(e),
        Ok((content, rest)) => spec_inner(spec_moddn_request_content(content), rest),
    }
}

/// Decodes a modify DN request.
pub fn parse_ldap_moddn_request<'a>(bytes: &'a [u8]) -> (r: ParseResult<'a, ModDnRequest<'a>>)
    ensures
        decoded(bytes, r, spec_moddn_request(bytes@)),
{
    let (rem, content) = read_tagged(Class::Application, ProtocolOpTag::MOD_DN_REQUEST, bytes)?;
    let (_, v) = parse_moddn_request_content(content)?;
    Ok((rem, v))
}

impl<'a> FromBer<'a> for ModDnRequest<'a> {
    /// See [`spec_moddn_request`].
    open spec fn spec_from_ber(s: Seq<u8>) -> SpecResult<ModDnRequestView> {
        spec_moddn_request(s)
    }

    fn from_ber(bytes: &'a [u8]) -> (r: ParseResult<'a, Self>) {
        parse_ldap_moddn_request(bytes)
    }
}

/// The modify DN response at the start of `s`: `[APPLICATION 13]` holding an LDAPResult.
pub open spec fn spec_moddn_response(s: Seq<u8>) -> SpecResult<LdapResultView> {
    match spec_tagged(Class::Application, ProtocolOpTag::MOD_DN_RESPONSE, s) {
        Err(e) => Err(e),
        Ok((content, rest)) => spec_inner(spec_ldap_result_content(content), rest),
    }
}

/// Decodes the modify DN response at the start of `s`: `[APPLICATION 13]` holding an LDAPResult.
pub fn parse_ldap_moddn_response<'a>(bytes: &'a [u8]) -> (r: ParseResult<'a, LdapResult<'a>>)
    ensures
        decoded(bytes, r, spec_moddn_response(bytes@)),
{
    let (rem, content) = read_tagged(Class::Application, ProtocolOpTag::MOD_DN_RESPONSE, bytes)?;
    let (_, v) = parse_ldap_result_content(content)?;
    Ok((rem, v))
}

/// The components of a compare request at the start of `s`: the entry and
/// the attribute value assertion.
pub open spec fn spec_compare_request_content(s: Seq<u8>) -> SpecResult<CompareRequestView> {
    match LdapDN::spec_from_ber(s) {
        Err(e) => Err(e),
        Ok((entry, s1)) => match AttributeValueAssertion::spec_from_ber(s1) {
            Err(e) => Err(e),
            Ok((ava, s2)) => Ok((CompareRequestView { entry, ava }, s2)),
        },
    }
}

/// Decodes the components of a compare request.
pub fn parse_compare_request_content<'a>(i: &'a [u8]) -> (r: ParseResult<'a, CompareRequest<'a>>)
    ensures
        decoded(i, r, spec_compare_request_content(i@)),
{
    let (i1, entry) = LdapDN::from_ber(i)?;
    let (i2, ava) = AttributeValueAssertion::from_ber(i1)?;
    Ok((i2, CompareRequest { entry, ava }))
}

/// The compare request at the start of `s`: `[APPLICATION 14]` holding the components of a compare request.
pub open spec fn spec_compare_request(s: Seq<u8>) -> SpecResult<CompareRequestView> {
    match spec_tagged(Class::Application, ProtocolOpTag::COMPARE_REQUEST, s) {
        Err(e) => Err(e),
        Ok((content, rest)) => spec_inner(spec_compare_request_content(content), rest),
    }
}

/// Decodes a compare request.
pub fn parse_ldap_compare_request<'a>(bytes: &'a [u8]) -> (r: ParseResult<'a, CompareRequest<'a>>)
    ensures
        decoded(bytes, r, spec_compare_request(bytes@)),
{
    let (rem, content) = read_tagged(Class::Application, ProtocolOpTag::COMPARE_REQUEST, bytes)?;
    let (_, v) = parse_compare_request_content(content)?;
    Ok((rem, v))
}

impl<'a> FromBer<'a> for CompareRequest<'a> {
    /// See [`spec_compare_request`].
    open spec fn spec_from_ber(s: Seq<u8>) -> SpecResult<CompareRequestView> {
        spec_compare_request(s)
    }

    fn from_ber(bytes: &'a [u8]) -> (r: ParseResult<'a, Self>) {
        parse_ldap_compare_request(bytes)
    }
}

/// The compare response at the start of `s`: `[APPLICATION 15]` holding an LDAPResult.
pub open spec fn spec_compare_response(s: Seq<u8>) -> SpecResult<LdapResultView> {
    match spec_tagged(Class::Application, ProtocolOpTag::COMPARE_RESPONSE, s) {
        Err(e) => Err(e),
        Ok((content, rest)) => spec_inner(spec_ldap_result_content(content), rest),
    }
}

/// Decodes the compare response at the start of `s`: `[APPLICATION 15]` holding an LDAPResult.
pub fn parse_ldap_compare_response<'a>(bytes: &'a [u8]) -> (r: ParseResult<'a, LdapResult<'a>>)
    ensures
        decoded(bytes, r, spec_compare_response(bytes@)),
{
    let (rem, content) = read_tagged(Class::Application, ProtocolOpTag::COMPARE_RESPONSE, bytes)?;
    let (_, v) = parse_ldap_result_content(content)?;
    Ok((rem, v))
}

/// The abandon request at the start of `s`: `[APPLICATION 16]` whose content
/// is the INTEGER octets of the message identifier.
pub open spec fn spec_abandon_request(s: Seq<u8>) -> SpecResult<MessageID> {
    match spec_tagged_u32(Class::Application, ProtocolOpTag::ABANDON_REQUEST, s) {
        Err(e) => Err(e),
        Ok((id, rest)) => Ok((MessageID(id), rest)),
    }
}

/// Decodes an abandon request.
pub fn parse_ldap_abandon_request<'a>(bytes: &'a [u8]) -> (r: ParseResult<'a, MessageID>)
    ensures
        decoded(bytes, r, spec_abandon_request(bytes@)),
{
    let (rem, id) = read_tagged_u32(Class::Application, ProtocolOpTag::ABANDON_REQUEST, bytes)?;
    Ok((rem, MessageID(id)))
}

/// The search result reference at the start of `s`: `[APPLICATION 19]`
/// holding one or more URIs.
pub open spec fn spec_search_result_ref(s: Seq<u8>) -> SpecResult<Seq<Seq<char>>> {
    match spec_tagged(Class::Application, ProtocolOpTag::SEARCH_RESULT_REFERENCE, s) {
        Err(e) => Err(e),
        Ok((content, rest)) => spec_inner(spec_many1::<LdapString>(content), rest),
    }
}

/// Decodes a search result reference.
pub fn parse_ldap_search_result_ref<'a>(bytes: &'a [u8]) -> (r: ParseResult<'a, Vec<LdapString<'a>>>)
    ensures
        decoded(bytes, r, spec_search_result_ref(bytes@)),
{
    let (rem, content) = read_tagged(Class::Application, ProtocolOpTag::SEARCH_RESULT_REFERENCE, bytes)?;
    let (_, v) = many1::<LdapString>(content)?;
    Ok((rem, v))
}

/// The components of an extended request at the start of `s`: the `[0]`
/// request name and the optional `[1]` request value.
pub open spec fn spec_extended_request_content(s: Seq<u8>) -> SpecResult<ExtendedRequestView> {
    match spec_tagged_utf8(Class::ContextSpecific, 0, s, LdapError::InvalidDN) {
        Err(e) => Err(e),
        Ok((request_name, s1)) => match spec_opt_tagged(Class::ContextSpecific, 1, s1) {
            Err(e) => Err(e),
            Ok((request_value, s2)) => Ok((ExtendedRequestView { request_name, request_value }, s2)),
        },
    }
}

/// Decodes the components of an extended request.
pub fn parse_extended_request_content<'a>(i: &'a [u8]) -> (r: ParseResult<'a, ExtendedRequest<'a>>)
    ensures
        decoded(i, r, spec_extended_request_content(i@)),
{
    let (i1, name) = read_tagged_utf8(Class::ContextSpecific, 0, i, LdapError::InvalidDN)?;
    let (i2, request_value) = parse_opt_tagged_bytes(Class::ContextSpecific, 1, i1)?;
    Ok((i2, ExtendedRequest { request_name: LdapOID(Cow::Borrowed(name)), request_value }))
}

/// The extended request at the start of `s`: `[APPLICATION 23]` holding the components of an extended request.
pub open spec fn spec_extended_request(s: Seq<u8>) -> SpecResult<ExtendedRequestView> {
    match spec_tagged(Class::Application, ProtocolOpTag::EXTENDED_REQUEST, s) {
        Err(e) => Err(e),
        Ok((content, rest)) => spec_inner(spec_extended_request_content(content), rest),
    }
}

/// Decodes an extended request.
pub fn parse_ldap_extended_request<'a>(bytes: &'a [u8]) -> (r: ParseResult<'a, ExtendedRequest<'a>>)
    ensures
        decoded(bytes, r, spec_extended_request(bytes@)),
{
    let (rem, content) = read_tagged(Class::Application, ProtocolOpTag::EXTENDED_REQUEST, bytes)?;
    let (_, v) = parse_extended_request_content(content)?;
    Ok((rem, v))
}

impl<'a> FromBer<'a> for ExtendedRequest<'a> {
    /// See [`spec_extended_request`].
    open spec fn spec_from_ber(s: Seq<u8>) -> SpecResult<ExtendedRequestView> {
        spec_extended_request(s)
    }

    fn from_ber(bytes: &'a [u8]) -> (r: ParseResult<'a, Self>) {
        parse_ldap_extended_request(bytes)
    }
}

/// The components of an extended response at the start of `s`: the result,
/// the optional `[10]` response name and the optional `[11]` response value.
pub open spec fn spec_extended_response_content(s: Seq<u8>) -> SpecResult<ExtendedResponseView> {
    match spec_ldap_result_content(s) {
        Err(e) => Err(e),
        Ok((result, s1)) => match spec_opt_tagged_utf8(Class::ContextSpecific, 10, s1, LdapError::InvalidDN) {
            Err(e) => Err(e),
            Ok((response_name, s2)) => match spec_opt_tagged(Class::ContextSpecific, 11, s2) {
                Err(e) => Err(e),
                Ok((response_value, s3)) => Ok(
                    (ExtendedResponseView { result, response_name, response_value }, s3),
                ),
            },
        },
    }
}

/// Decodes the components of an extended response.
pub fn parse_extended_response_content<'a>(i: &'a [u8]) -> (r: ParseResult<'a, ExtendedResponse<'a>>)
    ensures
        decoded(i, r, spec_extended_response_content(i@)),
{
    let (i1, result) = parse_ldap_result_content(i)?;
    let (i2, response_name) = parse_opt_tagged_oid(Class::ContextSpecific, 10, i1)?;
    let (i3, response_value) = parse_opt_tagged_bytes(Class::ContextSpecific, 11, i2)?;
    Ok((i3, ExtendedResponse { result, response_name, response_value }))
}

/// The extended response at the start of `s`: `[APPLICATION 24]` holding the components of an extended response.
pub open spec fn spec_extended_response(s: Seq<u8>) -> SpecResult<ExtendedResponseView> {
    match spec_tagged(Class::Application, ProtocolOpTag::EXTENDED_RESPONSE, s) {
        Err(e) => Err(e),
        Ok((content, rest)) => spec_inner(spec_extended_response_content(content), rest),
    }
}

/// Decodes an extended response.
pub fn parse_ldap_extended_response<'a>(bytes: &'a [u8]) -> (r: ParseResult<'a, ExtendedResponse<'a>>)
    ensures
        decoded(bytes, r, spec_extended_response(bytes@)),
{
    let (rem, content) = read_tagged(Class::Application, ProtocolOpTag::EXTENDED_RESPONSE, bytes)?;
    let (_, v) = parse_extended_response_content(content)?;
    Ok((rem, v))
}

impl<'a> FromBer<'a> for ExtendedResponse<'a> {
    /// See [`spec_extended_response`].
    open spec fn spec_from_ber(s: Seq<u8>) -> SpecResult<ExtendedResponseView> {
        spec_extended_response(s)
    }

    fn from_ber(bytes: &'a [u8]) -> (r: ParseResult<'a, Self>) {
        parse_ldap_extended_response(bytes)
    }
}

/// The components of an intermediate response at the start of `s`: the
/// optional `[0]` response name and the optional `[1]` response value.
pub open spec fn spec_intermediate_response_content(s: Seq<u8>) -> SpecResult<IntermediateResponseView> {
    match spec_opt_tagged_utf8(Class::ContextSpecific, 0, s, LdapError::InvalidDN) {
        Err(e) => Err(e),
        Ok((response_name, s1)) => match spec_opt_tagged(Class::ContextSpecific, 1, s1) {
            Err(e) => Err(e),
            Ok((response_value, s2)) => Ok((IntermediateResponseView { response_name, response_value }, s2)),
        },
    }
}

/// Decodes the components of an intermediate response.
pub fn parse_intermediate_response_content<'a>(i: &'a [u8]) -> (r: ParseResult<'a, IntermediateResponse<'a>>)
    ensures
        decoded(i, r, spec_intermediate_response_content(i@)),
{
    let (i1, response_name) = parse_opt_tagged_oid(Class::ContextSpecific, 0, i)?;
    let (i2, response_value) = parse_opt_tagged_bytes(Class::ContextSpecific, 1, i1)?;
    Ok((i2, IntermediateResponse { response_name, response_value }))
}

/// The intermediate response at the start of `s`: `[APPLICATION 25]` holding the components of an intermediate response.
pub open spec fn spec_intermediate_response(s: Seq<u8>) -> SpecResult<IntermediateResponseView> {
    match spec_tagged(Class::Application, ProtocolOpTag::INTERMEDIATE_RESPONSE, s) {
        Err(e) => Err(e),
        Ok((content, rest)) => spec_inner(spec_intermediate_response_content(content), rest),
    }
}

/// Decodes an intermediate response.
pub fn parse_ldap_intermediate_response<'a>(bytes: &'a [u8]) -> (r: ParseResult<'a, IntermediateResponse<'a>>)
    ensures
        decoded(bytes, r, spec_intermediate_response(bytes@)),
{
    let (rem, content) = read_tagged(Class::Application, ProtocolOpTag::INTERMEDIATE_RESPONSE, bytes)?;
    let (_, v) = parse_intermediate_response_content(content)?;
    Ok((rem, v))
}

impl<'a> FromBer<'a> for IntermediateResponse<'a> {
    /// See [`spec_intermediate_response`].
    open spec fn spec_from_ber(s: Seq<u8>) -> SpecResult<IntermediateResponseView> {
        spec_intermediate_response(s)
    }

    fn from_ber(bytes: &'a [u8]) -> (r: ParseResult<'a, Self>) {
        parse_ldap_intermediate_response(bytes)
    }
}

/// The criticality of a control whose optional BOOLEAN is `b`: false when absent.
pub open spec fn spec_criticality(b: Option<bool>) -> bool {
    match b {
        Some(c) => c,
        None => false,
    }
}

/// The components of a control at the start of `s`: the control type, the
/// optional criticality and the optional control value.
pub open spec fn spec_control_content(s: Seq<u8>) -> SpecResult<ControlView> {
    match LdapOID::spec_from_ber(s) {
        Err(e) => Err(e),
        Ok((control_type, s1)) => match spec_opt_bool(s1) {
            Err(e) => Err(e),
            Ok((critical, s2)) => match spec_opt_octet_string(s2) {
                Err(e) => Err(e),
                Ok((control_value, s3)) => Ok(
                    (ControlView { control_type, criticality: spec_criticality(critical), control_value }, s3),
                ),
            },
        },
    }
}

/// Decodes the components of a control.
pub fn parse_control_content<'a>(i: &'a [u8]) -> (r: ParseResult<'a, Control<'a>>)
    ensures
        decoded(i, r, spec_control_content(i@)),
{
    let (i1, control_type) = LdapOID::from_ber(i)?;
    let (i2, maybe_critical) = read_opt_bool(i1)?;
    let criticality = match maybe_critical {
        Some(c) => c,
        None => false,
    };
    let (i3, value) = parse_opt_octet_string(i2)?;
    let control_value = match value {
        Some(b) => Some(Cow::Borrowed(b)),
        None => None,
    };
    Ok((i3, Control { control_type, criticality, control_value }))
}

/// The control at the start of `s`: a SEQUENCE holding the components of a control.
pub open spec fn spec_control(s: Seq<u8>) -> SpecResult<ControlView> {
    match spec_sequence(s) {
        Err(e) => Err(e),
        Ok((content, rest)) => spec_inner(spec_control_content(content), rest),
    }
}

/// Decodes a control.
pub fn parse_ldap_control<'a>(bytes: &'a [u8]) -> (r: ParseResult<'a, Control<'a>>)
    ensures
        decoded(bytes, r, spec_control(bytes@)),
{
    let (rem, content) = read_sequence(bytes)?;
    let (_, v) = parse_control_content(content)?;
    Ok((rem, v))
}

impl<'a> FromBer<'a> for Control<'a> {
    /// See [`spec_control`].
    open spec fn spec_from_ber(s: Seq<u8>) -> SpecResult<ControlView> {
        spec_control(s)
    }

    fn from_ber(bytes: &'a [u8]) -> (r: ParseResult<'a, Self>) {
        parse_ldap_control(bytes)
    }
}

/// The optional controls at the start of `s`: `[0]` holding zero or more controls.
pub open spec fn spec_controls(s: Seq<u8>) -> SpecResult<Option<Seq<ControlView>>> {
    match spec_opt_tagged(Class::ContextSpecific, 0, s) {
        Err(e) => Err(e),
        Ok((None, rest)) => Ok((None, rest)),
        Ok((Some(content), rest)) => match spec_many0::<Control>(content) {
            Err(e) => Err(e),
            Ok((controls, _)) => Ok((Some(controls), rest)),
        },
    }
}

/// Decodes the optional controls of a message.
pub fn parse_controls<'a>(i: &'a [u8]) -> (r: ParseResult<'a, Option<Vec<Control<'a>>>>)
    ensures
        decoded(i, r, spec_controls(i@)),
{
    let (rem, content) = read_opt_tagged(Class::ContextSpecific, 0, i)?;
    match content {
        None => Ok((rem, None)),
        Some(c) => {
            let (_, controls) = many0::<Control>(c)?;
            Ok((rem, Some(controls)))
        },
    }
}

/// The protocol operation at the start of `s`: the tag of the first header
/// selects the operation, which is then decoded from `s`. A tag that stands
/// for no operation is an error.
pub open spec fn spec_protocol_op(s: Seq<u8>) -> SpecResult<ProtocolOpView> {
    match spec_header(s) {
        Err(e) => Err(e),
        Ok((h, _)) => {
            let tag = h.tag;
            if tag == ProtocolOpTag::BIND_REQUEST {
                match BindRequest::spec_from_ber(s) {
                    Ok((v, rest)) => Ok((ProtocolOpView::BindRequest(v), rest)),
                    Err(e) => Err(e),
                }
            } else if tag == ProtocolOpTag::BIND_RESPONSE {
                match BindResponse::spec_from_ber(s) {
                    Ok((v, rest)) => Ok((ProtocolOpView::BindResponse(v), rest)),
                    Err(e) => Err(e),
                }
            } else if tag == ProtocolOpTag::UNBIND_REQUEST {
                spec_unbind_request(s)
            } else if tag == ProtocolOpTag::SEARCH_REQUEST {
                match SearchRequest::spec_from_ber(s) {
                    Ok((v, rest)) => Ok((ProtocolOpView::SearchRequest(v), rest)),
                    Err(e) => Err(e),
                }
            } else if tag == ProtocolOpTag::SEARCH_RESULT_ENTRY {
                match SearchResultEntry::spec_from_ber(s) {
                    Ok((v, rest)) => Ok((ProtocolOpView::SearchResultEntry(v), rest)),
                    Err(e) => Err(e),
                }
            } else if tag == ProtocolOpTag::SEARCH_RESULT_DONE {
                match spec_search_result_done(s) {
                    Ok((v, rest)) => Ok((ProtocolOpView::SearchResultDone(v), rest)),
                    Err(e) => Err(e),
                }
            } else if tag == ProtocolOpTag::MODIFY_REQUEST {
                match ModifyRequest::spec_from_ber(s) {
                    Ok((v, rest)) => Ok((ProtocolOpView::ModifyRequest(v), rest)),
                    Err(e) => Err(e),
                }
            } else if tag == ProtocolOpTag::MODIFY_RESPONSE {
                match spec_modify_response(s) {
                    Ok((v, rest)) => Ok((ProtocolOpView::ModifyResponse(v), rest)),
                    Err(e) => Err(e),
                }
            } else if tag == ProtocolOpTag::ADD_REQUEST {
                match AddRequest::spec_from_ber(s) {
                    Ok((v, rest)) => Ok((ProtocolOpView::AddRequest(v), rest)),
                    Err(e) => Err(e),
                }
            } else if tag == ProtocolOpTag::ADD_RESPONSE {
                match spec_add_response(s) {
                    Ok((v, rest)) => Ok((ProtocolOpView::AddResponse(v), rest)),
                    Err(e) => Err(e),
                }
            } else if tag == ProtocolOpTag::DEL_REQUEST {
                match spec_del_request(s) {
                    Ok((v, rest)) => Ok((ProtocolOpView::DelRequest(v), rest)),
                    Err(e) => Err(e),
                }
            } else if tag == ProtocolOpTag::DEL_RESPONSE {
                match spec_del_response(s) {
                    Ok((v, rest)) => Ok((ProtocolOpView::DelResponse(v), rest)),
                    Err(e) => Err(e),
                }
            } else if tag == ProtocolOpTag::MOD_DN_REQUEST {
                match ModDnRequest::spec_from_ber(s) {
                    Ok((v, rest)) => Ok((ProtocolOpView::ModDnRequest(v), rest)),
                    Err(e) => Err(e),
                }
            } else if tag == ProtocolOpTag::MOD_DN_RESPONSE {
                match spec_moddn_response(s) {
                    Ok((v, rest)) => Ok((ProtocolOpView::ModDnResponse(v), rest)),
                    Err(e) => Err(e),
                }
            } else if tag == ProtocolOpTag::COMPARE_REQUEST {
                match CompareRequest::spec_from_ber(s) {
                    Ok((v, rest)) => Ok((ProtocolOpView::CompareRequest(v), rest)),
                    Err(e) => Err(e),
                }
            } else if tag == ProtocolOpTag::COMPARE_RESPONSE {
                match spec_compare_response(s) {
                    Ok((v, rest)) => Ok((ProtocolOpView::CompareResponse(v), rest)),
                    Err(e) => Err(e),
                }
            } else if tag == ProtocolOpTag::ABANDON_REQUEST {
                match spec_abandon_request(s) {
                    Ok((v, rest)) => Ok((ProtocolOpView::AbandonRequest(v), rest)),
                    Err(e) => Err(e),
                }
            } else if tag == ProtocolOpTag::SEARCH_RESULT_REFERENCE {
                match spec_search_result_ref(s) {
                    Ok((v, rest)) => Ok((ProtocolOpView::SearchResultReference(v), rest)),
                    Err(e) => Err(e),
                }
            } else if tag == ProtocolOpTag::EXTENDED_REQUEST {
                match ExtendedRequest::spec_from_ber(s) {
                    Ok((v, rest)) => Ok((ProtocolOpView::ExtendedRequest(v), rest)),
                    Err(e) => Err(e),
                }
            } else if tag == ProtocolOpTag::EXTENDED_RESPONSE {
                match ExtendedResponse::spec_from_ber(s) {
                    Ok((v, rest)) => Ok((ProtocolOpView::ExtendedResponse(v), rest)),
                    Err(e) => Err(e),
                }
            } else if tag == ProtocolOpTag::INTERMEDIATE_RESPONSE {
                match IntermediateResponse::spec_from_ber(s) {
                    Ok((v, rest)) => Ok((ProtocolOpView::IntermediateResponse(v), rest)),
                    Err(e) => Err(e),
                }
            } else {
                Err(DecodeError::Error(LdapError::InvalidMessageType))
            }
        },
    }
}

/// Decodes a protocol operation.
#[verifier::rlimit(60)]
pub fn parse_protocol_op<'a>(i: &'a [u8]) -> (r: ParseResult<'a, ProtocolOp<'a>>)
    ensures
        decoded(i, r, spec_protocol_op(i@)),
{
    let (_, header) = read_header(i)?;
    let tag = header.tag;
    if tag == ProtocolOpTag::BIND_REQUEST {
        let (rem, v) = BindRequest::from_ber(i)?;
        Ok((rem, ProtocolOp::BindRequest(v)))
    } else if tag == ProtocolOpTag::BIND_RESPONSE {
        let (rem, v) = BindResponse::from_ber(i)?;
        Ok((rem, ProtocolOp::BindResponse(v)))
    } else if tag == ProtocolOpTag::UNBIND_REQUEST {
        parse_ldap_unbind_request(i)
    } else if tag == ProtocolOpTag::SEARCH_REQUEST {
        let (rem, v) = SearchRequest::from_ber(i)?;
        Ok((rem, ProtocolOp::SearchRequest(v)))
    } else if tag == ProtocolOpTag::SEARCH_RESULT_ENTRY {
        let (rem, v) = SearchResultEntry::from_ber(i)?;
        Ok((rem, ProtocolOp::SearchResultEntry(v)))
    } else if tag == ProtocolOpTag::SEARCH_RESULT_DONE {
        let (rem, v) = parse_ldap_search_result_done(i)?;
        Ok((rem, ProtocolOp::SearchResultDone(v)))
    } else if tag == ProtocolOpTag::MODIFY_REQUEST {
        let (rem, v) = ModifyRequest::from_ber(i)?;
        Ok((rem, ProtocolOp::ModifyRequest(v)))
    } else if tag == ProtocolOpTag::MODIFY_RESPONSE {
        let (rem, v) = parse_ldap_modify_response(i)?;
        Ok((rem, ProtocolOp::ModifyResponse(v)))
    } else if tag == ProtocolOpTag::ADD_REQUEST {
        let (rem, v) = AddRequest::from_ber(i)?;
        Ok((rem, ProtocolOp::AddRequest(v)))
    } else if tag == ProtocolOpTag::ADD_RESPONSE {
        let (rem, v) = parse_ldap_add_response(i)?;
        Ok((rem, ProtocolOp::AddResponse(v)))
    } else if tag == ProtocolOpTag::DEL_REQUEST {
        let (rem, v) = parse_ldap_del_request(i)?;
        Ok((rem, ProtocolOp::DelRequest(v)))
    } else if tag == ProtocolOpTag::DEL_RESPONSE {
        let (rem, v) = parse_ldap_del_response(i)?;
        Ok((rem, ProtocolOp::DelResponse(v)))
    } else if tag == ProtocolOpTag::MOD_DN_REQUEST {
        let (rem, v) = ModDnRequest::from_ber(i)?;
        Ok((rem, ProtocolOp::ModDnRequest(v)))
    } else if tag == ProtocolOpTag::MOD_DN_RESPONSE {
        let (rem, v) = parse_ldap_moddn_response(i)?;
        Ok((rem, ProtocolOp::ModDnResponse(v)))
    } else if tag == ProtocolOpTag::COMPARE_REQUEST {
        let (rem, v) = CompareRequest::from_ber(i)?;
        Ok((rem, ProtocolOp::CompareRequest(v)))
    } else if tag == ProtocolOpTag::COMPARE_RESPONSE {
        let (rem, v) = parse_ldap_compare_response(i)?;
        Ok((rem, ProtocolOp::CompareResponse(v)))
    } else if tag == ProtocolOpTag::ABANDON_REQUEST {
        let (rem, v) = parse_ldap_abandon_request(i)?;
        Ok((rem, ProtocolOp::AbandonRequest(v)))
    } else if tag == ProtocolOpTag::SEARCH_RESULT_REFERENCE {
        let (rem, v) = parse_ldap_search_result_ref(i)?;
        Ok((rem, ProtocolOp::SearchResultReference(v)))
    } else if tag == ProtocolOpTag::EXTENDED_REQUEST {
        let (rem, v) = ExtendedRequest::from_ber(i)?;
        Ok((rem, ProtocolOp::ExtendedRequest(v)))
    } else if tag == ProtocolOpTag::EXTENDED_RESPONSE {
        let (rem, v) = ExtendedResponse::from_ber(i)?;
        Ok((rem, ProtocolOp::ExtendedResponse(v)))
    } else if tag == ProtocolOpTag::INTERMEDIATE_RESPONSE {
        let (rem, v) = IntermediateResponse::from_ber(i)?;
        Ok((rem, ProtocolOp::IntermediateResponse(v)))
    } else {
        Err(DecodeError::Error(LdapError::InvalidMessageType))
    }
}

/// The components of a message at the start of `s`: the message identifier,
/// the protocol operation and the optional controls.
pub open spec fn spec_ldap_message_content(s: Seq<u8>) -> SpecResult<LdapMessageView> {
    match MessageID::spec_from_ber(s) {
        Err(e) => Err(e),
        Ok((message_id, s1)) => match spec_protocol_op(s1) {
            Err(e) => Err(e),
            Ok((protocol_op, s2)) => match spec_controls(s2) {
                Err(e) => Err(e),
                Ok((controls, s3)) => Ok((LdapMessageView { message_id, protocol_op, controls }, s3)),
            },
        },
    }
}

/// Decodes the components of a message.
pub fn parse_ldap_message_content<'a>(i: &'a [u8]) -> (r: ParseResult<'a, LdapMessage<'a>>)
    ensures
        decoded(i, r, spec_ldap_message_content(i@)),
{
    let (i1, message_id) = MessageID::from_ber(i)?;
    let (i2, protocol_op) = parse_protocol_op(i1)?;
    let (i3, controls) = parse_controls(i2)?;
    proof {
        protocol_op.deep_view().lemma_within_part(i1@, i@);
        controls.deep_view().lemma_within_part(i2@, i@);
    }
    Ok((i3, LdapMessage { message_id, protocol_op, controls }))
}

/// The message at the start of `s`: a SEQUENCE holding the components of a
/// message. What the SEQUENCE holds after them is not looked at.
pub open spec fn spec_ldap_message(s: Seq<u8>) -> SpecResult<LdapMessageView> {
    match spec_sequence(s) {
        Err(e) => Err(e),
        Ok((content, rest)) => spec_inner(spec_ldap_message_content(content), rest),
    }
}

/// Parse a single LDAP message and return a structure borrowing fields from the input buffer
///
/// Defined on every input. The result is the one that [`spec_ldap_message`]
/// gives for the octets of the input. On success the input is the octets
/// of the message, which are at least two, followed by the returned tail,
/// and every string and every octet string of the message is a part of the
/// octets of the message. On an empty input the error is `Incomplete` with
/// one missing octet.
pub fn parse_ldap_message<'a>(i: &'a [u8]) -> (r: ParseResult<'a, LdapMessage<'a>>)
    ensures
        decoded(i, r, spec_ldap_message(i@)),
        r matches Ok((rem, _)) ==> rem@.len() + 2 <= i@.len() && i@ =~= consumed(i@, rem@) + rem@,
        r matches Ok((rem, msg)) ==> msg.deep_view().within(consumed(i@, rem@)),
        i@.len() == 0 ==> r is Err && r->Err_0 == short_input(1),
{
    let (rem, content) = read_sequence(i)?;
    let (_, msg) = parse_ldap_message_content(content)?;
    proof {
        msg.deep_view().lemma_within_part(content@, i@);
        msg.deep_view().lemma_within_part(content@, consumed(i@, rem@));
    }
    Ok((rem, msg))
}

impl<'a> FromBer<'a> for LdapMessage<'a> {
    /// See [`spec_ldap_message`].
    open spec fn spec_from_ber(s: Seq<u8>) -> SpecResult<LdapMessageView> {
        spec_ldap_message(s)
    }

    /// Parse a single LDAP message and return a structure borrowing fields from the input buffer
    fn from_ber(bytes: &'a [u8]) -> (r: ParseResult<'a, Self>) {
        parse_ldap_message(bytes)
    }
}

impl<'a> LdapMessage<'a> {
    /// Parse a single LDAP message and return a structure borrowing fields from the input buffer
    pub fn parse(i: &'a [u8]) -> (r: ParseResult<'a, LdapMessage<'a>>)
        ensures
            decoded(i, r, spec_ldap_message(i@)),
    {
        parse_ldap_message(i)
    }
}

/// The messages that fill `s`: one message after the other, at least one,
/// up to the end of `s`. Where a message cannot be decoded the result is
/// that message's error, whatever was decoded before it.
pub open spec fn spec_ldap_messages(s: Seq<u8>) -> SpecResult<Seq<LdapMessageView>>
    decreases s.len(),
{
    match spec_ldap_message(s) {
        Err(e) => Err(e),
        Ok((m, rest)) => if rest.len() == 0 {
            Ok((seq![m], rest))
        } else if rest.len() >= s.len() {
            Err(DecodeError::Error(LdapError::NomError(ErrorKind::Many1)))
        } else {
            spec_prepend(seq![m], spec_ldap_messages(rest))
        },
    }
}

/// The messages that fill a buffer are its elements decoded one after the
/// other as messages.
pub proof fn lemma_messages_are_elements(s: Seq<u8>)
    ensures
        spec_many_to_end::<LdapMessage>(s) == spec_ldap_messages(s),
    decreases s.len(),
{
    match spec_ldap_message(s) {
        Err(_) => {},
        Ok((_, rest)) => {
            if rest.len() != 0 && rest.len() < s.len() {
                lemma_messages_are_elements(rest);
            }
        },
    }
}

/// Parse a list of LDAP messages and return a structure borrowing fields from the input buffer
///
/// The buffer must hold one message after the other and nothing else: on
/// success the returned tail is empty. A message that cannot be decoded
/// gives its own error, and no message is returned then. On an empty
/// buffer the error is `Incomplete` with one missing octet.
pub fn parse_ldap_messages<'a>(i: &'a [u8]) -> (r: ParseResult<'a, Vec<LdapMessage<'a>>>)
    ensures
        decoded(i, r, spec_ldap_messages(i@)),
        r matches Ok((rem, msgs)) ==> rem@.len() == 0 && msgs.len() >= 1,
        i@.len() == 0 ==> r is Err && r->Err_0 == short_input(1),
{
    proof {
        lemma_messages_are_elements(i@);
    }
    if i.len() == 0 {
        // no message stands in an empty buffer: the error is that of the first message
        let (_, _) = parse_ldap_message(i)?;
    }
    many_to_end::<LdapMessage>(i)
}

} // verus!
