//! Decoders of search filters and of attributes.

use crate::ber::{
    class_error, read_any, read_octet_string, read_opt_tagged_bool, read_opt_tagged_utf8,
    read_sequence, read_tagged, spec_any, spec_complete, spec_inner, spec_octet_string,
    spec_opt_tagged_bool, spec_opt_tagged_utf8, spec_sequence, spec_tagged, spec_utf8,
    unexpected_class, utf8,
};
use crate::combinator::{
    complete, lemma_prepend_push, many1, set_of0, set_of1, spec_many1, spec_prepend, spec_set_of0,
    spec_set_of1, FromBer,
};
use crate::error::{
    decoded, group_parts, is_suffix, Class, DecodeError, ErrorKind, LdapError, ParseResult, Parts,
    SpecResult,
};
use crate::filter::{
    lemma_filter_views, AssertionValue, Attribute, AttributeDescription, AttributeValue,
    AttributeValueAssertion, AttributeValueAssertionView, AttributeView, Filter, FilterView,
    MatchingRuleAssertion, MatchingRuleAssertionView, PartialAttribute, PartialAttributeView,
    Substring, SubstringFilter, SubstringFilterView, SubstringView,
};
use crate::ldap::LdapString;
use std::borrow::Cow;
use vstd::prelude::*;

verus! {

broadcast use group_parts;

/// How deep filters may be nested: a filter that stands alone has depth one,
/// and each `and`, `or` or `not` adds one to the depth of what it holds.
pub const MAX_FILTER_DEPTH: u32 = 32;

/// Context tag of the `and` filter.
pub const FILTER_AND: u32 = 0;

/// Context tag of the `or` filter.
pub const FILTER_OR: u32 = 1;

/// Context tag of the `not` filter.
pub const FILTER_NOT: u32 = 2;

/// Context tag of the `equalityMatch` filter.
pub const FILTER_EQUALITY_MATCH: u32 = 3;

/// Context tag of the `substrings` filter.
pub const FILTER_SUBSTRINGS: u32 = 4;

/// Context tag of the `greaterOrEqual` filter.
pub const FILTER_GREATER_OR_EQUAL: u32 = 5;

/// Context tag of the `lessOrEqual` filter.
pub const FILTER_LESS_OR_EQUAL: u32 = 6;

/// Context tag of the `present` filter.
pub const FILTER_PRESENT: u32 = 7;

/// Context tag of the `approxMatch` filter.
pub const FILTER_APPROX_MATCH: u32 = 8;

/// Context tag of the `extensibleMatch` filter.
pub const FILTER_EXTENSIBLE_MATCH: u32 = 9;

/// The attribute description at the start of `s`: an LDAPString.
pub open spec fn spec_attribute_description(s: Seq<u8>) -> SpecResult<Seq<char>> {
    LdapString::spec_from_ber(s)
}

/// Decodes an attribute description.
pub fn parse_ldap_attribute_description<'a>(i: &'a [u8]) -> (r: ParseResult<'a, LdapString<'a>>)
    ensures
        decoded(i, r, spec_attribute_description(i@)),
{
    LdapString::from_ber(i)
}

/// The assertion value at the start of `s`: the content of an OCTET STRING.
pub open spec fn spec_assertion_value(s: Seq<u8>) -> SpecResult<Seq<u8>> {
    spec_octet_string(s)
}

/// Decodes an assertion value.
pub fn parse_ldap_assertion_value<'a>(i: &'a [u8]) -> (r: ParseResult<'a, AssertionValue<'a>>)
    ensures
        decoded(i, r, spec_assertion_value(i@)),
{
    let (rem, b) = read_octet_string(i)?;
    Ok((rem, AssertionValue(Cow::Borrowed(b))))
}

/// The two components of an attribute value assertion at the start of `s`:
/// attribute description and assertion value.
pub open spec fn spec_attribute_value_assertion_content(s: Seq<u8>) -> SpecResult<AttributeValueAssertionView> {
    match spec_attribute_description(s) {
        Err(e) => Err(e),
        Ok((attribute_desc, s1)) => match spec_assertion_value(s1) {
            Err(e) => Err(e),
            Ok((assertion_value, s2)) => Ok((AttributeValueAssertionView { attribute_desc, assertion_value }, s2)),
        },
    }
}

/// Decodes the two components of an attribute value assertion.
pub fn parse_ldap_attribute_value_assertion_content<'a>(content: &'a [u8]) -> (r: ParseResult<
    'a,
    AttributeValueAssertion<'a>,
>)
    ensures
        decoded(content, r, spec_attribute_value_assertion_content(content@)),
{
    let (i1, attribute_desc) = parse_ldap_attribute_description(content)?;
    let (i2, assertion_value) = parse_ldap_assertion_value(i1)?;
    Ok((i2, AttributeValueAssertion { attribute_desc, assertion_value: assertion_value.0 }))
}

/// The attribute value assertion at the start of `s`: a SEQUENCE of attribute description and assertion value.
pub open spec fn spec_attribute_value_assertion(s: Seq<u8>) -> SpecResult<AttributeValueAssertionView> {
    match spec_sequence(s) {
        Err(e) => Err(e),
        Ok((content, rest)) => spec_inner(spec_attribute_value_assertion_content(content), rest),
    }
}

/// Decodes an attribute value assertion.
pub fn parse_ldap_attribute_value_assertion<'a>(bytes: &'a [u8]) -> (r: ParseResult<'a, AttributeValueAssertion<'a>>)
    ensures
        decoded(bytes, r, spec_attribute_value_assertion(bytes@)),
{
    let (rem, content) = read_sequence(bytes)?;
    let (_, v) = parse_ldap_attribute_value_assertion_content(content)?;
    Ok((rem, v))
}

impl<'a> FromBer<'a> for AttributeValueAssertion<'a> {
    /// See [`spec_attribute_value_assertion`].
    open spec fn spec_from_ber(s: Seq<u8>) -> SpecResult<AttributeValueAssertionView> {
        spec_attribute_value_assertion(s)
    }

    fn from_ber(bytes: &'a [u8]) -> (r: ParseResult<'a, Self>) {
        parse_ldap_attribute_value_assertion(bytes)
    }
}

/// The attribute value at the start of `s`: the content of an OCTET STRING.
pub open spec fn spec_attribute_value(s: Seq<u8>) -> SpecResult<Seq<u8>> {
    spec_octet_string(s)
}

/// Decodes an attribute value.
pub fn parse_ldap_attribute_value<'a>(bytes: &'a [u8]) -> (r: ParseResult<'a, AttributeValue<'a>>)
    ensures
        decoded(bytes, r, spec_attribute_value(bytes@)),
{
    let (rem, b) = read_octet_string(bytes)?;
    Ok((rem, AttributeValue(Cow::Borrowed(b))))
}

impl<'a> FromBer<'a> for AttributeValue<'a> {
    /// See [`spec_attribute_value`].
    open spec fn spec_from_ber(s: Seq<u8>) -> SpecResult<Seq<u8>> {
        spec_attribute_value(s)
    }

    fn from_ber(bytes: &'a [u8]) -> (r: ParseResult<'a, Self>) {
        parse_ldap_attribute_value(bytes)
    }
}

/// The partial attribute at the start of `s`: a SEQUENCE of an attribute description and a SET of zero or more values.
pub open spec fn spec_partial_attribute(s: Seq<u8>) -> SpecResult<PartialAttributeView> {
    match spec_sequence(s) {
        Err(e) => Err(e),
        Ok((content, rest)) => match LdapString::spec_from_ber(content) {
            Err(e) => Err(e),
            Ok((attr_type, s1)) => match spec_set_of0::<AttributeValue>(s1) {
                Err(e) => Err(e),
                Ok((attr_vals, _)) => Ok((PartialAttributeView { attr_type, attr_vals }, rest)),
            },
        },
    }
}

/// Decodes a partial attribute.
pub fn parse_ldap_partial_attribute<'a>(bytes: &'a [u8]) -> (r: ParseResult<'a, PartialAttribute<'a>>)
    ensures
        decoded(bytes, r, spec_partial_attribute(bytes@)),
{
    let (rem, content) = read_sequence(bytes)?;
    let (i1, attr_type) = LdapString::from_ber(content)?;
    let (_, attr_vals) = set_of0::<AttributeValue>(i1)?;
    Ok((rem, PartialAttribute { attr_type, attr_vals }))
}

impl<'a> FromBer<'a> for PartialAttribute<'a> {
    /// See [`spec_partial_attribute`].
    open spec fn spec_from_ber(s: Seq<u8>) -> SpecResult<PartialAttributeView> {
        spec_partial_attribute(s)
    }

    fn from_ber(bytes: &'a [u8]) -> (r: ParseResult<'a, Self>) {
        parse_ldap_partial_attribute(bytes)
    }
}

/// The attribute at the start of `s`: a SEQUENCE of an attribute description and a SET of one or more values.
pub open spec fn spec_attribute(s: Seq<u8>) -> SpecResult<AttributeView> {
    match spec_sequence(s) {
        Err(e) => Err(e),
        Ok((content, rest)) => match LdapString::spec_from_ber(content) {
            Err(e) => Err(e),
            Ok((attr_type, s1)) => match spec_set_of1::<AttributeValue>(s1) {
                Err(e) => Err(e),
                Ok((attr_vals, _)) => Ok((AttributeView { attr_type, attr_vals }, rest)),
            },
        },
    }
}

/// Decodes an attribute.
pub fn parse_ldap_attribute<'a>(bytes: &'a [u8]) -> (r: ParseResult<'a, Attribute<'a>>)
    ensures
        decoded(bytes, r, spec_attribute(bytes@)),
{
    let (rem, content) = read_sequence(bytes)?;
    let (i1, attr_type) = LdapString::from_ber(content)?;
    let (_, attr_vals) = set_of1::<AttributeValue>(i1)?;
    Ok((rem, Attribute { attr_type, attr_vals }))
}

impl<'a> FromBer<'a> for Attribute<'a> {
    /// See [`spec_attribute`].
    open spec fn spec_from_ber(s: Seq<u8>) -> SpecResult<AttributeView> {
        spec_attribute(s)
    }

    fn from_ber(bytes: &'a [u8]) -> (r: ParseResult<'a, Self>) {
        parse_ldap_attribute(bytes)
    }
}

/// The substring at the start of `s`: an element with tag 0, 1 or 2, whose content is the assertion value.
pub open spec fn spec_substring(s: Seq<u8>) -> SpecResult<SubstringView> {
    match spec_any(s) {
        Err(e) => Err(e),
        Ok((any, rest)) => if any.header.tag == 0 {
            Ok((SubstringView::Initial(any.data), rest))
        } else if any.header.tag == 1 {
            Ok((SubstringView::Any(any.data), rest))
        } else if any.header.tag == 2 {
            Ok((SubstringView::Final(any.data), rest))
        } else {
            Err(DecodeError::Error(LdapError::InvalidSubstring))
        },
    }
}

/// Decodes a substring.
pub fn parse_ldap_substring<'a>(bytes: &'a [u8]) -> (r: ParseResult<'a, Substring<'a>>)
    ensures
        decoded(bytes, r, spec_substring(bytes@)),
{
    let (rem, any) = read_any(bytes)?;
    let b = AssertionValue(Cow::Borrowed(any.data));
    if any.header.tag == 0 {
        Ok((rem, Substring::Initial(b)))
    } else if any.header.tag == 1 {
        Ok((rem, Substring::Any(b)))
    } else if any.header.tag == 2 {
        Ok((rem, Substring::Final(b)))
    } else {
        Err(DecodeError::Error(LdapError::InvalidSubstring))
    }
}

impl<'a> FromBer<'a> for Substring<'a> {
    /// See [`spec_substring`].
    open spec fn spec_from_ber(s: Seq<u8>) -> SpecResult<SubstringView> {
        spec_substring(s)
    }

    fn from_ber(bytes: &'a [u8]) -> (r: ParseResult<'a, Self>) {
        parse_ldap_substring(bytes)
    }
}

/// The components of a substring filter at the start of `s`: an attribute
/// description and a SEQUENCE of one or more substrings.
pub open spec fn spec_substrings_filter_content(s: Seq<u8>) -> SpecResult<SubstringFilterView> {
    match spec_attribute_description(s) {
        Err(e) => Err(e),
        Ok((filter_type, s1)) => match spec_sequence(s1) {
            Err(e) => Err(e),
            Ok((content, s2)) => match spec_many1::<Substring>(content) {
                Err(e) => Err(e),
                Ok((substrings, _)) => Ok((SubstringFilterView { filter_type, substrings }, s2)),
            },
        },
    }
}

/// Decodes the components of a substring filter.
pub fn parse_ldap_substrings_filter_content<'a>(i: &'a [u8]) -> (r: ParseResult<'a, SubstringFilter<'a>>)
    ensures
        decoded(i, r, spec_substrings_filter_content(i@)),
{
    let (i1, filter_type) = parse_ldap_attribute_description(i)?;
    let (i2, content) = read_sequence(i1)?;
    let (_, substrings) = many1::<Substring>(content)?;
    Ok((i2, SubstringFilter { filter_type, substrings }))
}

/// The components of a matching rule assertion at the start of `s`: the
/// optional `[1]` matching rule, the optional `[2]` attribute description,
/// the `[3]` assertion value and the optional `[4]` flag.
pub open spec fn spec_matching_rule_assertion_content(s: Seq<u8>) -> SpecResult<MatchingRuleAssertionView> {
    match spec_opt_tagged_utf8(Class::ContextSpecific, 1, s, LdapError::InvalidString) {
        Err(e) => Err(e),
        Ok((matching_rule, s1)) => match spec_opt_tagged_utf8(Class::ContextSpecific, 2, s1, LdapError::InvalidString) {
            Err(e) => Err(e),
            Ok((rule_type, s2)) => match spec_tagged(Class::ContextSpecific, 3, s2) {
                Err(e) => Err(e),
                Ok((assertion_value, s3)) => match spec_opt_tagged_bool(4, s3) {
                    Err(e) => Err(e),
                    Ok((dn_attributes, s4)) => Ok(
                        (MatchingRuleAssertionView { matching_rule, rule_type, assertion_value, dn_attributes }, s4),
                    ),
                },
            },
        },
    }
}

/// Decodes the components of a matching rule assertion.
pub fn parse_ldap_matching_rule_assertion_content<'a>(i: &'a [u8]) -> (r: ParseResult<
    'a,
    MatchingRuleAssertion<'a>,
>)
    ensures
        decoded(i, r, spec_matching_rule_assertion_content(i@)),
{
    let (i1, rule) = read_opt_tagged_utf8(Class::ContextSpecific, 1, i, LdapError::InvalidString)?;
    let matching_rule = match rule {
        Some(s) => Some(LdapString(Cow::Borrowed(s))),
        None => None,
    };
    let (i2, desc) = read_opt_tagged_utf8(Class::ContextSpecific, 2, i1, LdapError::InvalidString)?;
    let rule_type = match desc {
        Some(s) => Some(AttributeDescription(Cow::Borrowed(s))),
        None => None,
    };
    let (i3, value) = read_tagged(Class::ContextSpecific, 3, i2)?;
    let assertion_value = AssertionValue(Cow::Borrowed(value));
    let (i4, dn_attributes) = read_opt_tagged_bool(4, i3)?;
    Ok((i4, MatchingRuleAssertion { matching_rule, rule_type, assertion_value, dn_attributes }))
}

/// The filter at the start of `s`, when `depth` more levels of nesting are
/// allowed: a context-specific element whose tag selects the kind of filter
/// and whose content holds its components. With no level left the input is
/// rejected for good.
pub open spec fn spec_filter(s: Seq<u8>, depth: nat) -> SpecResult<FilterView>
    decreases depth, 0nat, 0nat,
{
    if depth == 0 {
        Err(DecodeError::Failure(LdapError::DepthExceeded))
    } else {
        match spec_any(s) {
            Err(e) => Err(e),
            Ok((any, rest)) => if any.header.class != Class::ContextSpecific {
                Err(unexpected_class(Class::ContextSpecific, any.header.class))
            } else {
                let content = any.data;
                let tag = any.header.tag;
                if tag == FILTER_AND {
                    match spec_filters1(content, (depth - 1) as nat) {
                        Ok((subs, _)) => Ok((FilterView::And(subs), rest)),
                        Err(e) => Err(e),
                    }
                } else if tag == FILTER_OR {
                    match spec_filters1(content, (depth - 1) as nat) {
                        Ok((subs, _)) => Ok((FilterView::Or(subs), rest)),
                        Err(e) => Err(e),
                    }
                } else if tag == FILTER_NOT {
                    match spec_filter(content, (depth - 1) as nat) {
                        Ok((f, _)) => Ok((FilterView::Not(Box::new(f)), rest)),
                        Err(e) => Err(e),
                    }
                } else if tag == FILTER_EQUALITY_MATCH {
                    match spec_attribute_value_assertion_content(content) {
                        Ok((a, _)) => Ok((FilterView::EqualityMatch(a), rest)),
                        Err(e) => Err(e),
                    }
                } else if tag == FILTER_SUBSTRINGS {
                    match spec_substrings_filter_content(content) {
                        Ok((f, _)) => Ok((FilterView::Substrings(f), rest)),
                        Err(e) => Err(e),
                    }
                } else if tag == FILTER_GREATER_OR_EQUAL {
                    match spec_attribute_value_assertion_content(content) {
                        Ok((a, _)) => Ok((FilterView::GreaterOrEqual(a), rest)),
                        Err(e) => Err(e),
                    }
                } else if tag == FILTER_LESS_OR_EQUAL {
                    match spec_attribute_value_assertion_content(content) {
                        Ok((a, _)) => Ok((FilterView::LessOrEqual(a), rest)),
                        Err(e) => Err(e),
                    }
                } else if tag == FILTER_PRESENT {
                    match spec_utf8(content, LdapError::InvalidString) {
                        Ok(chars) => Ok((FilterView::Present(chars), rest)),
                        Err(e) => Err(e),
                    }
                } else if tag == FILTER_APPROX_MATCH {
                    match spec_attribute_value_assertion_content(content) {
                        Ok((a, _)) => Ok((FilterView::ApproxMatch(a), rest)),
                        Err(e) => Err(e),
                    }
                } else if tag == FILTER_EXTENSIBLE_MATCH {
                    match spec_matching_rule_assertion_content(content) {
                        Ok((m, _)) => Ok((FilterView::ExtensibleMatch(m), rest)),
                        Err(e) => Err(e),
                    }
                } else {
                    Err(DecodeError::Error(LdapError::InvalidFilterType))
                }
            },
        }
    }
}

/// The filters that stand one after the other at the start of `s`, up to the
/// first place where no complete filter can be decoded.
pub open spec fn spec_filters(s: Seq<u8>, depth: nat) -> SpecResult<Seq<FilterView>>
    decreases depth, 1nat, s.len(),
{
    match spec_complete(spec_filter(s, depth)) {
        Err(DecodeError::Error(_)) => Ok((Seq::empty(), s)),
        Err(e) => Err(e),
        Ok((f, rest)) => if rest.len() >= s.len() {
            Err(DecodeError::Error(LdapError::NomError(ErrorKind::Many1)))
        } else {
            spec_prepend(seq![f], spec_filters(rest, depth))
        },
    }
}

/// One or more filters at the start of `s`.
pub open spec fn spec_filters1(s: Seq<u8>, depth: nat) -> SpecResult<Seq<FilterView>>
    decreases depth, 2nat, s.len(),
{
    match spec_complete(spec_filter(s, depth)) {
        Err(DecodeError::Error(_)) => Err(DecodeError::Error(LdapError::NomError(ErrorKind::Many1))),
        Err(e) => Err(e),
        Ok((f, rest)) => spec_prepend(seq![f], spec_filters(rest, depth)),
    }
}

/// Decodes one or more filters, each with `depth` levels of nesting allowed.
pub fn parse_filters1<'a>(bytes: &'a [u8], depth: u32) -> (r: ParseResult<'a, Vec<Filter<'a>>>)
    ensures
        decoded(bytes, r, spec_filters1(bytes@, depth as nat)),
    decreases depth, 1nat,
{
    let mut acc: Vec<Filter<'a>> = Vec::new();
    let mut i = bytes;
    match complete(parse_filter(bytes, depth)) {
        Err(DecodeError::Error(_)) => {
            return Err(DecodeError::Error(LdapError::NomError(ErrorKind::Many1)));
        },
        Err(e) => {
            return Err(e);
        },
        Ok((rest, f)) => {
            acc.push(f);
            i = rest;
            proof {
                assert(acc.deep_view() =~= seq![f.deep_view()]);
            }
        },
    }
    loop
        invariant
            is_suffix(i@, bytes@),
            spec_prepend(acc.deep_view(), spec_filters(i@, depth as nat)) == spec_filters1(bytes@, depth as nat),
            acc.deep_view().within(bytes@),
        decreases i@.len(),
    {
        match complete(parse_filter(i, depth)) {
            Err(DecodeError::Error(_)) => {
                proof {
                    assert(acc.deep_view() + Seq::<FilterView>::empty() =~= acc.deep_view());
                }
                return Ok((i, acc));
            },
            Err(e) => {
                return Err(e);
            },
            Ok((rest, f)) => {
                if rest.len() >= i.len() {
                    return Err(DecodeError::Error(LdapError::NomError(ErrorKind::Many1)));
                }
                proof {
                    lemma_prepend_push(acc.deep_view(), f.deep_view(), spec_filters(rest@, depth as nat));
                    f.deep_view().lemma_within_part(i@, bytes@);
                }
                let ghost before = acc.deep_view();
                acc.push(f);
                proof {
                    assert(acc.deep_view() =~= before.push(f.deep_view()));
                }
                i = rest;
            },
        }
    }
}

/// Decodes a filter, with `depth` levels of nesting allowed.
pub fn parse_filter<'a>(bytes: &'a [u8], depth: u32) -> (r: ParseResult<'a, Filter<'a>>)
    ensures
        decoded(bytes, r, spec_filter(bytes@, depth as nat)),
    decreases depth, 0nat,
{
    if depth == 0 {
        return Err(DecodeError::Failure(LdapError::DepthExceeded));
    }
    let (rem, any) = read_any(bytes)?;
    if any.header.class != Class::ContextSpecific {
        return Err(class_error(Class::ContextSpecific, any.header.class));
    }
    let content = any.data;
    let tag = any.header.tag;
    let filter = if tag == FILTER_AND {
        let (_, subs) = parse_filters1(content, depth - 1)?;
        proof {
            lemma_filter_views(subs);
            subs.deep_view().lemma_within_part(content@, bytes@);
        }
        Filter::And(subs)
    } else if tag == FILTER_OR {
        let (_, subs) = parse_filters1(content, depth - 1)?;
        proof {
            lemma_filter_views(subs);
            subs.deep_view().lemma_within_part(content@, bytes@);
        }
        Filter::Or(subs)
    } else if tag == FILTER_NOT {
        let (_, f) = parse_filter(content, depth - 1)?;
        proof {
            f.deep_view().lemma_within_part(content@, bytes@);
        }
        Filter::Not(Box::new(f))
    } else if tag == FILTER_EQUALITY_MATCH {
        let (_, a) = parse_ldap_attribute_value_assertion_content(content)?;
        proof {
            a.deep_view().lemma_within_part(content@, bytes@);
        }
        Filter::EqualityMatch(a)
    } else if tag == FILTER_SUBSTRINGS {
        let (_, f) = parse_ldap_substrings_filter_content(content)?;
        proof {
            f.deep_view().lemma_within_part(content@, bytes@);
        }
        Filter::Substrings(f)
    } else if tag == FILTER_GREATER_OR_EQUAL {
        let (_, a) = parse_ldap_attribute_value_assertion_content(content)?;
        proof {
            a.deep_view().lemma_within_part(content@, bytes@);
        }
        Filter::GreaterOrEqual(a)
    } else if tag == FILTER_LESS_OR_EQUAL {
        let (_, a) = parse_ldap_attribute_value_assertion_content(content)?;
        proof {
            a.deep_view().lemma_within_part(content@, bytes@);
        }
        Filter::LessOrEqual(a)
    } else if tag == FILTER_PRESENT {
        let s = utf8(content, LdapError::InvalidString)?;
        Filter::Present(LdapString(Cow::Borrowed(s)))
    } else if tag == FILTER_APPROX_MATCH {
        let (_, a) = parse_ldap_attribute_value_assertion_content(content)?;
        proof {
            a.deep_view().lemma_within_part(content@, bytes@);
        }
        Filter::ApproxMatch(a)
    } else if tag == FILTER_EXTENSIBLE_MATCH {
        let (_, m) = parse_ldap_matching_rule_assertion_content(content)?;
        proof {
            m.deep_view().lemma_within_part(content@, bytes@);
        }
        Filter::ExtensibleMatch(m)
    } else {
        return Err(DecodeError::Error(LdapError::InvalidFilterType));
    };
    Ok((rem, filter))
}

/// The filter at the start of `s`, nested no deeper than [`MAX_FILTER_DEPTH`].
pub open spec fn spec_ldap_filter(s: Seq<u8>) -> SpecResult<FilterView> {
    spec_filter(s, MAX_FILTER_DEPTH as nat)
}

/// Decodes a filter.
pub fn parse_ldap_filter<'a>(bytes: &'a [u8]) -> (r: ParseResult<'a, Filter<'a>>)
    ensures
        decoded(bytes, r, spec_ldap_filter(bytes@)),
{
    parse_filter(bytes, MAX_FILTER_DEPTH)
}

impl<'a> FromBer<'a> for Filter<'a> {
    /// See [`spec_ldap_filter`].
    open spec fn spec_from_ber(s: Seq<u8>) -> SpecResult<FilterView> {
        spec_ldap_filter(s)
    }

    fn from_ber(bytes: &'a [u8]) -> (r: ParseResult<'a, Self>) {
        parse_ldap_filter(bytes)
    }
}

} // verus!
