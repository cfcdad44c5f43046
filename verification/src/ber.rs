//! BER elements: identifier and length octets, contents, tagged elements and
//! the universal primitive types that LDAP uses.

use crate::error::{
    ber_err, consumed, decoded, group_parts, is_part, is_suffix, lemma_subrange_is_part, lemma_suffix_refl,
    lemma_suffix_subrange, lemma_suffix_trans, result_view, BerError, Class, DecodeError, ErrorKind,
    LdapError, Needed, ParseResult, Parts, SpecResult,
};
use asn1_rs::nom::Err as NomErr;
use asn1_rs::nom::Needed as NomNeeded;
use asn1_rs::Error as Asn1Error;
use asn1_rs::FromBer as Asn1FromBer;
use vstd::prelude::*;
use vstd::slice::slice_subrange;
use vstd::string::StringSliceAdditionalSpecFns;
use vstd::utf8::{decode_utf8, encode_utf8_decode_utf8, valid_utf8};

verus! {

broadcast use group_parts;

/// Universal tag of BOOLEAN.
pub const TAG_BOOLEAN: u32 = 1;

/// Universal tag of INTEGER.
pub const TAG_INTEGER: u32 = 2;

/// Universal tag of OCTET STRING.
pub const TAG_OCTET_STRING: u32 = 4;

/// Universal tag of NULL.
pub const TAG_NULL: u32 = 5;

/// Universal tag of ENUMERATED.
pub const TAG_ENUMERATED: u32 = 10;

/// Universal tag of SEQUENCE.
pub const TAG_SEQUENCE: u32 = 16;

/// Universal tag of SET.
pub const TAG_SET: u32 = 17;

/// Length of the contents of an element.
#[derive(Clone, Copy, Debug, PartialEq, Eq, Structural)]
pub enum Length {
    /// Definite form: the number of content octets.
    Definite(usize),
    /// Indefinite form: the contents end at an end-of-contents marker.
    Indefinite,
}

/// Identifier and length of an element, as they stand on the wire: the class
/// as its number, and the length as `None` for the indefinite form.
#[derive(Clone, Copy, Debug, PartialEq, Eq, Structural)]
pub struct RawHeader {
    pub class: u8,
    pub constructed: bool,
    pub tag: u32,
    pub length: Option<usize>,
}

/// Identifier and length of an element.
#[derive(Clone, Copy, Debug, PartialEq, Eq, Structural)]
pub struct Header {
    pub class: Class,
    pub constructed: bool,
    pub tag: u32,
    pub length: Length,
}

/// An element of any type: its header and its content octets.
#[derive(Clone, Copy, Debug, PartialEq, Eq)]
pub struct Any<'a> {
    pub header: Header,
    pub data: &'a [u8],
}

/// Mathematical view of [`Any`].
pub struct AnyView {
    pub header: Header,
    pub data: Seq<u8>,
}

impl DeepView for RawHeader {
    type V = RawHeader;

    open spec fn deep_view(&self) -> RawHeader {
        *self
    }
}

impl DeepView for Header {
    type V = Header;

    open spec fn deep_view(&self) -> Header {
        *self
    }
}

impl<'a> DeepView for Any<'a> {
    type V = AnyView;

    open spec fn deep_view(&self) -> AnyView {
        AnyView { header: self.header, data: self.data@ }
    }
}

impl Parts for RawHeader {
    open spec fn within(self, input: Seq<u8>) -> bool {
        true
    }

    proof fn lemma_within_part(self, part: Seq<u8>, input: Seq<u8>) {
    }
}

impl Parts for Header {
    open spec fn within(self, input: Seq<u8>) -> bool {
        true
    }

    proof fn lemma_within_part(self, part: Seq<u8>, input: Seq<u8>) {
    }
}

impl Parts for AnyView {
    open spec fn within(self, input: Seq<u8>) -> bool {
        is_part(self.data, input)
    }

    proof fn lemma_within_part(self, part: Seq<u8>, input: Seq<u8>) {
        self.data.lemma_within_part(part, input);
    }
}

/// The identifier and length octets at the start of `bytes`, and what follows them;
/// or why they cannot be read.
pub uninterp spec fn ber_header(bytes: Seq<u8>) -> SpecResult<RawHeader>;

/// The number that `octets` stand for, most significant octet first.
pub open spec fn be_value(octets: Seq<u8>) -> nat
    decreases octets.len(),
{
    if octets.len() == 0 {
        0
    } else {
        be_value(octets.drop_last()) * 256 + octets.last() as nat
    }
}

/// The value of INTEGER content octets as an unsigned number of at most
/// `max`: negative where the first octet has its high bit set, too large
/// where the number exceeds `max`. No octets stand for zero.
pub open spec fn spec_unsigned(content: Seq<u8>, max: nat) -> Result<nat, BerError> {
    if content.len() > 0 && content[0] >= 0x80 {
        Err(BerError::IntegerNegative)
    } else if be_value(content) > max {
        Err(BerError::IntegerTooLarge)
    } else {
        Ok(be_value(content))
    }
}

/// The unsigned 32-bit value of INTEGER content octets, or why they have none.
pub open spec fn ber_u32(content: Seq<u8>) -> Result<u32, BerError> {
    match spec_unsigned(content, u32::MAX as nat) {
        Ok(v) => Ok(v as u32),
        Err(e) => Err(e),
    }
}

/// The unsigned 8-bit value of INTEGER content octets, or why they have none.
pub open spec fn ber_u8(content: Seq<u8>) -> Result<u8, BerError> {
    match spec_unsigned(content, u8::MAX as nat) {
        Ok(v) => Ok(v as u8),
        Err(e) => Err(e),
    }
}

/// The value of ENUMERATED content octets: the number they stand for, read
/// without a sign, or too large where it exceeds 32 bits.
pub open spec fn ber_enumerated(content: Seq<u8>) -> Result<u32, BerError> {
    if be_value(content) > u32::MAX {
        Err(BerError::IntegerTooLarge)
    } else {
        Ok(be_value(content) as u32)
    }
}

/// Calls `asn1_rs::Header::from_ber`, which reads the identifier octets (class,
/// constructed bit, tag number in short or long form) and the length octets
/// (short, long or indefinite form). The outcome is a function of the input,
/// named [`ber_header`]; the returned tail is the input without the octets
/// read, which are at least two (one of the identifier, one of the length).
/// On an empty input one more octet is asked for.
#[verifier::external_body]
fn header_from_ber<'a>(bytes: &'a [u8]) -> (r: ParseResult<'a, RawHeader>)
    ensures
        result_view(r) == ber_header(bytes@),
        r matches Ok((rem, _)) ==> is_suffix(rem@, bytes@) && rem@.len() + 2 <= bytes@.len(),
        bytes@.len() == 0 ==> r is Err && r->Err_0 == short_input(1),
{
    match asn1_rs::Header::from_ber(bytes) {
        Ok((rem, h)) => Ok((rem, RawHeader { class: h.class() as u8, constructed: h.constructed(), tag: h.tag().0, length: h.length().definite().ok() })),
        Err(NomErr::Incomplete(NomNeeded::Size(n))) => Err(DecodeError::Incomplete(Needed::Size(n.get()))),
        Err(NomErr::Incomplete(NomNeeded::Unknown)) => Err(DecodeError::Incomplete(Needed::Unknown)),
        Err(NomErr::Error(e)) | Err(NomErr::Failure(e)) => Err(DecodeError::Error(LdapError::Ber(match e {
            Asn1Error::InvalidTag => BerError::InvalidTag,
            Asn1Error::InvalidLength => BerError::InvalidLength,
            Asn1Error::ConstructExpected => BerError::ConstructExpected,
            _ => BerError::Unsupported,
        }))),
    }
}

/// Calls `asn1_rs::Integer::as_u32` on the content octets of an INTEGER. It
/// refuses octets whose first has the high bit set as negative, drops
/// leading zero octets, refuses what is then longer than four octets as too
/// large, and else returns the big-endian value: that is [`ber_u32`].
#[verifier::external_body]
fn integer_as_u32(content: &[u8]) -> (r: Result<u32, BerError>)
    ensures
        r == ber_u32(content@),
{
    match asn1_rs::Integer::new(content).as_u32() {
        Ok(v) => Ok(v),
        Err(Asn1Error::IntegerTooLarge) => Err(BerError::IntegerTooLarge),
        Err(Asn1Error::IntegerNegative) => Err(BerError::IntegerNegative),
        Err(_) => Err(BerError::Unsupported),
    }
}

/// Calls `asn1_rs::Integer::as_u8` on the content octets of an INTEGER. It
/// refuses octets whose first has the high bit set as negative, drops
/// leading zero octets, refuses what is then longer than one octet as too
/// large, and else returns the value: that is [`ber_u8`].
#[verifier::external_body]
fn integer_as_u8(content: &[u8]) -> (r: Result<u8, BerError>)
    ensures
        r == ber_u8(content@),
{
    match asn1_rs::Integer::new(content).as_u8() {
        Ok(v) => Ok(v),
        Err(Asn1Error::IntegerTooLarge) => Err(BerError::IntegerTooLarge),
        Err(Asn1Error::IntegerNegative) => Err(BerError::IntegerNegative),
        Err(_) => Err(BerError::Unsupported),
    }
}

/// Calls the conversion of `asn1_rs` from an element to `asn1_rs::Enumerated`, on
/// a primitive ENUMERATED element with the given content octets. It reads
/// the octets as a big-endian number without a sign and refuses a number
/// beyond 32 bits as too large: that is [`ber_enumerated`].
#[verifier::external_body]
fn enumerated_value(content: &[u8]) -> (r: Result<u32, BerError>)
    ensures
        r == ber_enumerated(content@),
{
    let any = asn1_rs::Any::from_tag_and_data(asn1_rs::Tag::Enumerated, content);
    match asn1_rs::Enumerated::try_from(any) {
        Ok(v) => Ok(v.0),
        Err(Asn1Error::IntegerTooLarge) => Err(BerError::IntegerTooLarge),
        Err(_) => Err(BerError::Unsupported),
    }
}

/// Calls `core::str::from_utf8`: it returns the octets as a string slice if
/// and only if they are well-formed UTF-8.
#[verifier::external_body]
fn str_from_utf8<'a>(bytes: &'a [u8]) -> (r: Option<&'a str>)
    ensures
        r is Some <==> valid_utf8(bytes@),
        r matches Some(s) ==> s.spec_bytes() == bytes@,
{
    core::str::from_utf8(bytes).ok()
}

/// The class that a class number stands for.
pub open spec fn spec_class(n: u8) -> Class {
    if n == 0 {
        Class::Universal
    } else if n == 1 {
        Class::Application
    } else if n == 2 {
        Class::ContextSpecific
    } else {
        Class::Private
    }
}

/// The header that raw header fields stand for.
pub open spec fn spec_header_of(raw: RawHeader) -> Header {
    Header {
        class: spec_class(raw.class),
        constructed: raw.constructed,
        tag: raw.tag,
        length: match raw.length {
            Some(n) => Length::Definite(n),
            None => Length::Indefinite,
        },
    }
}

/// The header at the start of `s` and the octets after it.
pub open spec fn spec_header(s: Seq<u8>) -> SpecResult<Header> {
    match ber_header(s) {
        Ok((raw, rest)) => Ok((spec_header_of(raw), rest)),
        Err(e) => Err(e),
    }
}

/// The error for an input that ends `missing` octets before the end of an element.
pub open spec fn short_input(missing: int) -> DecodeError {
    DecodeError::Incomplete(Needed::Size(missing as usize))
}

/// The element at the start of `s`: its header, then as many content octets as
/// the header's definite length says, and the octets after them. The
/// indefinite form is rejected; a length beyond the end of `s` is reported
/// with the number of missing octets.
pub open spec fn spec_any(s: Seq<u8>) -> SpecResult<AnyView> {
    match spec_header(s) {
        Err(e) => Err(e),
        Ok((h, rest)) => match h.length {
            Length::Indefinite => Err(ber_err(BerError::IndefiniteLengthUnexpected)),
            Length::Definite(n) => if rest.len() < n {
                Err(short_input(n - rest.len()))
            } else {
                Ok(
                    (
                        AnyView { header: h, data: rest.subrange(0, n as int) },
                        rest.subrange(n as int, rest.len() as int),
                    ),
                )
            },
        },
    }
}

/// The error for an element whose tag is not the expected one.
pub open spec fn unexpected_tag(expected: u32, actual: u32) -> DecodeError {
    ber_err(BerError::UnexpectedTag { expected: Some(expected), actual })
}

/// The error for an element whose class is not the expected one.
pub open spec fn unexpected_class(expected: Class, actual: Class) -> DecodeError {
    ber_err(BerError::UnexpectedClass { expected: Some(expected), actual })
}

/// Content of the element at the start of `s`, which must carry `tag` and
/// `class` (the tag is examined first).
pub open spec fn spec_tagged(class: Class, tag: u32, s: Seq<u8>) -> SpecResult<Seq<u8>> {
    match spec_any(s) {
        Err(e) => Err(e),
        Ok((any, rest)) => if any.header.tag != tag {
            Err(unexpected_tag(tag, any.header.tag))
        } else if any.header.class != class {
            Err(unexpected_class(class, any.header.class))
        } else {
            Ok((any.data, rest))
        },
    }
}

/// Content of an optional tagged element: absent, with nothing consumed,
/// when `s` is empty or starts with a header of another tag or another
/// class. Where class and tag match, the element is read.
pub open spec fn spec_opt_tagged(class: Class, tag: u32, s: Seq<u8>) -> SpecResult<Option<Seq<u8>>> {
    if s.len() == 0 {
        Ok((None, s))
    } else {
        match spec_header(s) {
            Err(e) => Err(e),
            Ok((h, _)) => if h.tag != tag || h.class != class {
                Ok((None, s))
            } else {
                match spec_any(s) {
                    Err(e) => Err(e),
                    Ok((any, rest)) => Ok((Some(any.data), rest)),
                }
            },
        }
    }
}

/// Content of the constructed element with universal tag number `tag` (SEQUENCE or SET)
/// at the start of `s`.
pub open spec fn spec_constructed(tag: u32, s: Seq<u8>) -> SpecResult<Seq<u8>> {
    match spec_any(s) {
        Err(e) => Err(e),
        Ok((any, rest)) => if any.header.tag != tag {
            Err(unexpected_tag(tag, any.header.tag))
        } else if !any.header.constructed {
            Err(ber_err(BerError::ConstructExpected))
        } else {
            Ok((any.data, rest))
        },
    }
}

/// Content of the SEQUENCE at the start of `s`.
pub open spec fn spec_sequence(s: Seq<u8>) -> SpecResult<Seq<u8>> {
    spec_constructed(TAG_SEQUENCE, s)
}

/// Content of the SET at the start of `s`.
pub open spec fn spec_set(s: Seq<u8>) -> SpecResult<Seq<u8>> {
    spec_constructed(TAG_SET, s)
}

/// Content of the OCTET STRING at the start of `s`.
pub open spec fn spec_octet_string(s: Seq<u8>) -> SpecResult<Seq<u8>> {
    match spec_any(s) {
        Err(e) => Err(e),
        Ok((any, rest)) => if any.header.tag != TAG_OCTET_STRING {
            Err(unexpected_tag(TAG_OCTET_STRING, any.header.tag))
        } else {
            Ok((any.data, rest))
        },
    }
}

/// Why `any` is not a primitive element with tag number `tag` (the tag is examined first).
pub open spec fn spec_primitive_error(any: AnyView, tag: u32) -> DecodeError {
    if any.header.tag != tag {
        unexpected_tag(tag, any.header.tag)
    } else {
        ber_err(BerError::ConstructUnexpected)
    }
}

/// Value of a primitive element with tag number `tag` whose content has the
/// value `value`.
pub open spec fn spec_primitive_value<T>(any: AnyView, tag: u32, value: Result<T, BerError>) -> Result<T, DecodeError> {
    if any.header.tag != tag || any.header.constructed {
        Err(spec_primitive_error(any, tag))
    } else {
        match value {
            Ok(v) => Ok(v),
            Err(e) => Err(ber_err(e)),
        }
    }
}

/// The INTEGER at the start of `s`, as an unsigned 32-bit number.
pub open spec fn spec_u32(s: Seq<u8>) -> SpecResult<u32> {
    match spec_any(s) {
        Err(e) => Err(e),
        Ok((any, rest)) => match spec_primitive_value(any, TAG_INTEGER, ber_u32(any.data)) {
            Ok(v) => Ok((v, rest)),
            Err(e) => Err(e),
        },
    }
}

/// The INTEGER at the start of `s`, as an unsigned 8-bit number.
pub open spec fn spec_u8(s: Seq<u8>) -> SpecResult<u8> {
    match spec_any(s) {
        Err(e) => Err(e),
        Ok((any, rest)) => match spec_primitive_value(any, TAG_INTEGER, ber_u8(any.data)) {
            Ok(v) => Ok((v, rest)),
            Err(e) => Err(e),
        },
    }
}

/// The ENUMERATED at the start of `s`.
pub open spec fn spec_enumerated(s: Seq<u8>) -> SpecResult<u32> {
    match spec_any(s) {
        Err(e) => Err(e),
        Ok((any, rest)) => match spec_primitive_value(any, TAG_ENUMERATED, ber_enumerated(any.data)) {
            Ok(v) => Ok((v, rest)),
            Err(e) => Err(e),
        },
    }
}

/// Value of the content of a BOOLEAN: one octet, false if and only if it is zero.
pub open spec fn spec_bool_content(any: AnyView) -> Result<bool, DecodeError> {
    if any.header.length != Length::Definite(1) {
        Err(ber_err(BerError::InvalidLength))
    } else {
        Ok(any.data[0] != 0)
    }
}

/// The BOOLEAN at the start of `s`.
pub open spec fn spec_bool(s: Seq<u8>) -> SpecResult<bool> {
    match spec_any(s) {
        Err(e) => Err(e),
        Ok((any, rest)) => if any.header.tag != TAG_BOOLEAN {
            Err(unexpected_tag(TAG_BOOLEAN, any.header.tag))
        } else {
            match spec_bool_content(any) {
                Ok(b) => Ok((b, rest)),
                Err(e) => Err(e),
            }
        },
    }
}

/// The optional BOOLEAN at the start of `s`: absent when `s` is empty or
/// starts with a header of another tag, in which case nothing is consumed.
pub open spec fn spec_opt_bool(s: Seq<u8>) -> SpecResult<Option<bool>> {
    if s.len() == 0 {
        Ok((None, s))
    } else if spec_header(s) matches Ok((h, _)) && h.tag != TAG_BOOLEAN {
        Ok((None, s))
    } else {
        match spec_bool(s) {
            Ok((b, rest)) => Ok((Some(b), rest)),
            Err(e) => Err(e),
        }
    }
}

/// Value of the content octets of an implicitly tagged BOOLEAN: one octet,
/// false if and only if it is zero.
pub open spec fn spec_bool_octets(content: Seq<u8>) -> Result<bool, DecodeError> {
    if content.len() != 1 {
        Err(ber_err(BerError::InvalidLength))
    } else {
        Ok(content[0] != 0)
    }
}

/// The optional context-specific element `[tag] IMPLICIT BOOLEAN` at the
/// start of `s`: absent, with nothing consumed, when `s` is empty or starts
/// with a header of another tag or another class.
pub open spec fn spec_opt_tagged_bool(tag: u32, s: Seq<u8>) -> SpecResult<Option<bool>> {
    match spec_opt_tagged(Class::ContextSpecific, tag, s) {
        Err(e) => Err(e),
        Ok((None, rest)) => Ok((None, rest)),
        Ok((Some(content), rest)) => match spec_bool_octets(content) {
            Ok(b) => Ok((Some(b), rest)),
            Err(e) => Err(e),
        },
    }
}

/// The NULL at the start of `s`.
pub open spec fn spec_null(s: Seq<u8>) -> SpecResult<()> {
    match spec_any(s) {
        Err(e) => Err(e),
        Ok((any, rest)) => if any.header.tag != TAG_NULL {
            Err(unexpected_tag(TAG_NULL, any.header.tag))
        } else if any.header.constructed {
            Err(ber_err(BerError::ConstructUnexpected))
        } else if any.header.length != Length::Definite(0) {
            Err(ber_err(BerError::InvalidLength))
        } else {
            Ok(((), rest))
        },
    }
}

/// The `[class tag] IMPLICIT INTEGER` at the start of `s`, as an unsigned
/// 32-bit number.
pub open spec fn spec_tagged_u32(class: Class, tag: u32, s: Seq<u8>) -> SpecResult<u32> {
    match spec_any(s) {
        Err(e) => Err(e),
        Ok((any, rest)) => if any.header.tag != tag {
            Err(unexpected_tag(tag, any.header.tag))
        } else if any.header.class != class {
            Err(unexpected_class(class, any.header.class))
        } else if any.header.constructed {
            Err(ber_err(BerError::ConstructUnexpected))
        } else {
            match ber_u32(any.data) {
                Ok(v) => Ok((v, rest)),
                Err(e) => Err(ber_err(e)),
            }
        },
    }
}

/// The characters that `content` encodes in UTF-8; `err` if it is not well formed.
pub open spec fn spec_utf8(content: Seq<u8>, err: LdapError) -> Result<Seq<char>, DecodeError> {
    if valid_utf8(content) {
        Ok(decode_utf8(content))
    } else {
        Err(DecodeError::Error(err))
    }
}

/// The OCTET STRING at the start of `s`, read as UTF-8; `err` if it is not well formed.
pub open spec fn spec_utf8_string(s: Seq<u8>, err: LdapError) -> SpecResult<Seq<char>> {
    match spec_octet_string(s) {
        Err(e) => Err(e),
        Ok((content, rest)) => match spec_utf8(content, err) {
            Ok(chars) => Ok((chars, rest)),
            Err(e) => Err(e),
        },
    }
}

/// The content of the `[class tag]` element at the start of `s`, read as UTF-8.
pub open spec fn spec_tagged_utf8(class: Class, tag: u32, s: Seq<u8>, err: LdapError) -> SpecResult<Seq<char>> {
    match spec_tagged(class, tag, s) {
        Err(e) => Err(e),
        Ok((content, rest)) => match spec_utf8(content, err) {
            Ok(chars) => Ok((chars, rest)),
            Err(e) => Err(e),
        },
    }
}

/// The content of the optional `[class tag]` element at the start of `s`, read as UTF-8.
pub open spec fn spec_opt_tagged_utf8(class: Class, tag: u32, s: Seq<u8>, err: LdapError) -> SpecResult<Option<Seq<char>>> {
    match spec_opt_tagged(class, tag, s) {
        Err(e) => Err(e),
        Ok((None, rest)) => Ok((None, rest)),
        Ok((Some(content), rest)) => match spec_utf8(content, err) {
            Ok(chars) => Ok((Some(chars), rest)),
            Err(e) => Err(e),
        },
    }
}

/// A decoder that must see its whole element: running out of input is an
/// error of the grammar, not a request for more input.
pub open spec fn spec_complete<T>(r: SpecResult<T>) -> SpecResult<T> {
    match r {
        Err(DecodeError::Incomplete(_)) => Err(DecodeError::Error(LdapError::NomError(ErrorKind::Complete))),
        _ => r,
    }
}

/// An optional element: a recoverable error means that it is absent, and nothing is consumed.
pub open spec fn spec_opt<T>(r: SpecResult<T>, s: Seq<u8>) -> SpecResult<Option<T>> {
    match r {
        Ok((v, rest)) => Ok((Some(v), rest)),
        Err(DecodeError::Error(_)) => Ok((None, s)),
        Err(e) => Err(e),
    }
}

/// The value of a decoder that ran on the content of an element: what was
/// left of the content is dropped, and `rest` is what follows the element.
pub open spec fn spec_inner<T>(r: SpecResult<T>, rest: Seq<u8>) -> SpecResult<T> {
    match r {
        Ok((v, _)) => Ok((v, rest)),
        Err(e) => Err(e),
    }
}

/// The view of a result whose value is a slice of octets.
pub open spec fn bytes_view(r: ParseResult<&[u8]>) -> SpecResult<Seq<u8>> {
    match r {
        Ok((rem, v)) => Ok((v@, rem@)),
        Err(e) => Err(e),
    }
}

/// The view of a result whose value is an optional slice of octets.
pub open spec fn opt_bytes_view(r: ParseResult<Option<&[u8]>>) -> SpecResult<Option<Seq<u8>>> {
    match r {
        Ok((rem, Some(v))) => Ok((Some(v@), rem@)),
        Ok((rem, None)) => Ok((None, rem@)),
        Err(e) => Err(e),
    }
}

/// The view of a string slice that was read from octets, or of the failure to do so.
pub open spec fn utf8_view(r: Result<&str, DecodeError>) -> Result<Seq<char>, DecodeError> {
    match r {
        Ok(s) => Ok(s@),
        Err(e) => Err(e),
    }
}

/// The view of a result whose value is a string slice.
pub open spec fn str_view(r: ParseResult<&str>) -> SpecResult<Seq<char>> {
    match r {
        Ok((rem, v)) => Ok((v@, rem@)),
        Err(e) => Err(e),
    }
}

/// The view of a result whose value is an optional string slice.
pub open spec fn opt_str_view(r: ParseResult<Option<&str>>) -> SpecResult<Option<Seq<char>>> {
    match r {
        Ok((rem, Some(v))) => Ok((Some(v@), rem@)),
        Ok((rem, None)) => Ok((None, rem@)),
        Err(e) => Err(e),
    }
}

/// The class of a class number.
pub fn class_of(n: u8) -> (c: Class)
    ensures
        c == spec_class(n),
{
    if n == 0 {
        Class::Universal
    } else if n == 1 {
        Class::Application
    } else if n == 2 {
        Class::ContextSpecific
    } else {
        Class::Private
    }
}

/// Reads the identifier and length octets of an element.
///
/// A header takes at least two octets. On an empty input the error is
/// `Incomplete` with one missing octet.
pub fn read_header<'a>(bytes: &'a [u8]) -> (r: ParseResult<'a, Header>)
    ensures
        decoded(bytes, r, spec_header(bytes@)),
        r matches Ok((rem, _)) ==> rem@.len() + 2 <= bytes@.len(),
        bytes@.len() == 0 ==> r is Err && r->Err_0 == short_input(1),
{
    match header_from_ber(bytes) {
        Ok((rem, raw)) => {
            let length = match raw.length {
                Some(n) => Length::Definite(n),
                None => Length::Indefinite,
            };
            Ok((rem, Header { class: class_of(raw.class), constructed: raw.constructed, tag: raw.tag, length }))
        },
        Err(e) => Err(e),
    }
}

/// Reads one element: header and content octets.
///
/// Where the header announces more content octets than the input holds, the
/// error is `Incomplete` with the number of missing octets. On success the
/// content lies in the octets that were consumed, which are at least two.
pub fn read_any<'a>(bytes: &'a [u8]) -> (r: ParseResult<'a, Any<'a>>)
    ensures
        decoded(bytes, r, spec_any(bytes@)),
        r matches Ok((rem, any)) ==> rem@.len() + 2 <= bytes@.len() && is_part(any.data@, consumed(bytes@, rem@)),
        bytes@.len() == 0 ==> r is Err && r->Err_0 == short_input(1),
        spec_header(bytes@) matches Ok((h, rest)) ==> (h.length matches Length::Definite(n) ==> (n > rest.len()
            ==> r is Err && r->Err_0 == short_input(n - rest.len()))),
{
    let (rest, header) = read_header(bytes)?;
    match header.length {
        Length::Indefinite => Err(DecodeError::Error(LdapError::Ber(BerError::IndefiniteLengthUnexpected))),
        Length::Definite(n) => {
            if rest.len() < n {
                Err(DecodeError::Incomplete(Needed::Size(n - rest.len())))
            } else {
                let data = slice_subrange(rest, 0, n);
                let rem = slice_subrange(rest, n, rest.len());
                proof {
                    lemma_suffix_subrange(rest@, n as int);
                    lemma_suffix_trans(rem@, rest@, bytes@);
                    lemma_subrange_is_part(rest@, 0, n as int);
                    let k = bytes@.len() - rest@.len();
                    let taken = consumed(bytes@, rem@);
                    assert(data@ =~= taken.subrange(k, k + n));
                    lemma_subrange_is_part(taken, k, k + n);
                }
                Ok((rem, Any { header, data }))
            }
        },
    }
}

/// The error for an element whose tag is not the expected one.
pub fn tag_error(expected: u32, actual: u32) -> (e: DecodeError)
    ensures
        e == unexpected_tag(expected, actual),
{
    DecodeError::Error(LdapError::Ber(BerError::UnexpectedTag { expected: Some(expected), actual }))
}

/// The error for an element whose class is not the expected one.
pub fn class_error(expected: Class, actual: Class) -> (e: DecodeError)
    ensures
        e == unexpected_class(expected, actual),
{
    DecodeError::Error(LdapError::Ber(BerError::UnexpectedClass { expected: Some(expected), actual }))
}

/// An error of the BER layer as a recoverable decoding error.
pub fn ber_error(e: BerError) -> (r: DecodeError)
    ensures
        r == ber_err(e),
{
    DecodeError::Error(LdapError::Ber(e))
}

/// Reads the element with the given class and tag, and returns its content.
pub fn read_tagged<'a>(class: Class, tag: u32, bytes: &'a [u8]) -> (r: ParseResult<'a, &'a [u8]>)
    ensures
        bytes_view(r) == spec_tagged(class, tag, bytes@),
        r matches Ok((rem, _)) ==> is_suffix(rem@, bytes@),
        r matches Ok((_, content)) ==> is_part(content@, bytes@),
        r matches Ok((rem, content)) ==> is_part(content@, consumed(bytes@, rem@)),
        r matches Ok((rem, _)) ==> rem@.len() + 2 <= bytes@.len(),
        bytes@.len() == 0 ==> r is Err && r->Err_0 == short_input(1),
{
    let (rem, any) = read_any(bytes)?;
    if any.header.tag != tag {
        Err(tag_error(tag, any.header.tag))
    } else if any.header.class != class {
        Err(class_error(class, any.header.class))
    } else {
        Ok((rem, any.data))
    }
}

/// Reads the element with the given class and tag if the input starts with
/// a header of that class and tag, and returns its content; else the input
/// is returned untouched.
pub fn read_opt_tagged<'a>(class: Class, tag: u32, bytes: &'a [u8]) -> (r: ParseResult<'a, Option<&'a [u8]>>)
    ensures
        opt_bytes_view(r) == spec_opt_tagged(class, tag, bytes@),
        r matches Ok((rem, _)) ==> is_suffix(rem@, bytes@),
        r matches Ok((_, Some(content))) ==> is_part(content@, bytes@),
        r matches Ok((rem, None)) ==> rem@ == bytes@,
{
    proof {
        lemma_suffix_refl(bytes@);
    }
    if bytes.len() == 0 {
        return Ok((bytes, None));
    }
    let (_, header) = read_header(bytes)?;
    if header.tag != tag || header.class != class {
        return Ok((bytes, None));
    }
    let (rem, any) = read_any(bytes)?;
    Ok((rem, Some(any.data)))
}

/// Reads a constructed element with universal tag number `tag`, and returns its content.
fn read_constructed<'a>(tag: u32, bytes: &'a [u8]) -> (r: ParseResult<'a, &'a [u8]>)
    ensures
        bytes_view(r) == spec_constructed(tag, bytes@),
        r matches Ok((rem, _)) ==> is_suffix(rem@, bytes@),
        r matches Ok((_, content)) ==> is_part(content@, bytes@),
        r matches Ok((rem, content)) ==> is_part(content@, consumed(bytes@, rem@)),
        r matches Ok((rem, _)) ==> rem@.len() + 2 <= bytes@.len(),
        bytes@.len() == 0 ==> r is Err && r->Err_0 == short_input(1),
{
    let (rem, any) = read_any(bytes)?;
    if any.header.tag != tag {
        Err(tag_error(tag, any.header.tag))
    } else if !any.header.constructed {
        Err(ber_error(BerError::ConstructExpected))
    } else {
        Ok((rem, any.data))
    }
}

/// Reads a SEQUENCE and returns its content.
pub fn read_sequence<'a>(bytes: &'a [u8]) -> (r: ParseResult<'a, &'a [u8]>)
    ensures
        bytes_view(r) == spec_sequence(bytes@),
        r matches Ok((rem, _)) ==> is_suffix(rem@, bytes@),
        r matches Ok((_, content)) ==> is_part(content@, bytes@),
        r matches Ok((rem, content)) ==> is_part(content@, consumed(bytes@, rem@)),
        r matches Ok((rem, _)) ==> rem@.len() + 2 <= bytes@.len(),
        bytes@.len() == 0 ==> r is Err && r->Err_0 == short_input(1),
{
    read_constructed(TAG_SEQUENCE, bytes)
}

/// Reads a SET and returns its content.
pub fn read_set<'a>(bytes: &'a [u8]) -> (r: ParseResult<'a, &'a [u8]>)
    ensures
        bytes_view(r) == spec_set(bytes@),
        r matches Ok((rem, _)) ==> is_suffix(rem@, bytes@),
        r matches Ok((_, content)) ==> is_part(content@, bytes@),
        r matches Ok((rem, content)) ==> is_part(content@, consumed(bytes@, rem@)),
        r matches Ok((rem, _)) ==> rem@.len() + 2 <= bytes@.len(),
        bytes@.len() == 0 ==> r is Err && r->Err_0 == short_input(1),
{
    read_constructed(TAG_SET, bytes)
}

/// Reads an OCTET STRING and returns its content.
pub fn read_octet_string<'a>(bytes: &'a [u8]) -> (r: ParseResult<'a, &'a [u8]>)
    ensures
        bytes_view(r) == spec_octet_string(bytes@),
        r matches Ok((rem, _)) ==> is_suffix(rem@, bytes@),
        r matches Ok((_, content)) ==> is_part(content@, bytes@),
        r matches Ok((rem, content)) ==> is_part(content@, consumed(bytes@, rem@)),
        r matches Ok((rem, _)) ==> rem@.len() + 2 <= bytes@.len(),
        bytes@.len() == 0 ==> r is Err && r->Err_0 == short_input(1),
{
    let (rem, any) = read_any(bytes)?;
    if any.header.tag != TAG_OCTET_STRING {
        Err(tag_error(TAG_OCTET_STRING, any.header.tag))
    } else {
        Ok((rem, any.data))
    }
}

/// Checks that `any` is a primitive element with tag number `tag`.
fn check_primitive(any: &Any, tag: u32) -> (r: Result<(), DecodeError>)
    ensures
        r is Ok <==> any.header.tag == tag && !any.header.constructed,
        r matches Err(e) ==> e == spec_primitive_error(any.deep_view(), tag),
{
    if any.header.tag != tag {
        Err(tag_error(tag, any.header.tag))
    } else if any.header.constructed {
        Err(ber_error(BerError::ConstructUnexpected))
    } else {
        Ok(())
    }
}

/// Reads an INTEGER as an unsigned 32-bit number.
pub fn read_u32<'a>(bytes: &'a [u8]) -> (r: ParseResult<'a, u32>)
    ensures
        decoded(bytes, r, spec_u32(bytes@)),
{
    let (rem, any) = read_any(bytes)?;
    check_primitive(&any, TAG_INTEGER)?;
    match integer_as_u32(any.data) {
        Ok(v) => Ok((rem, v)),
        Err(e) => Err(ber_error(e)),
    }
}

/// Reads an INTEGER as an unsigned 8-bit number.
pub fn read_u8<'a>(bytes: &'a [u8]) -> (r: ParseResult<'a, u8>)
    ensures
        result_view(r) == spec_u8(bytes@),
        r matches Ok((rem, _)) ==> is_suffix(rem@, bytes@),
{
    let (rem, any) = read_any(bytes)?;
    check_primitive(&any, TAG_INTEGER)?;
    match integer_as_u8(any.data) {
        Ok(v) => Ok((rem, v)),
        Err(e) => Err(ber_error(e)),
    }
}

/// Reads an ENUMERATED.
pub fn read_enumerated<'a>(bytes: &'a [u8]) -> (r: ParseResult<'a, u32>)
    ensures
        decoded(bytes, r, spec_enumerated(bytes@)),
{
    let (rem, any) = read_any(bytes)?;
    check_primitive(&any, TAG_ENUMERATED)?;
    match enumerated_value(any.data) {
        Ok(v) => Ok((rem, v)),
        Err(e) => Err(ber_error(e)),
    }
}

/// The value of the content of a BOOLEAN.
fn bool_content(any: &Any) -> (r: Result<bool, DecodeError>)
    requires
        any.header.length matches Length::Definite(n) && n == any.data@.len(),
    ensures
        r == spec_bool_content(any.deep_view()),
{
    match any.header.length {
        Length::Definite(1) => Ok(any.data[0] != 0),
        _ => Err(ber_error(BerError::InvalidLength)),
    }
}

/// Reads a BOOLEAN.
pub fn read_bool<'a>(bytes: &'a [u8]) -> (r: ParseResult<'a, bool>)
    ensures
        decoded(bytes, r, spec_bool(bytes@)),
{
    let (rem, any) = read_any(bytes)?;
    if any.header.tag != TAG_BOOLEAN {
        Err(tag_error(TAG_BOOLEAN, any.header.tag))
    } else {
        match bool_content(&any) {
            Ok(b) => Ok((rem, b)),
            Err(e) => Err(e),
        }
    }
}

/// Reads a BOOLEAN if the input starts with one.
pub fn read_opt_bool<'a>(bytes: &'a [u8]) -> (r: ParseResult<'a, Option<bool>>)
    ensures
        decoded(bytes, r, spec_opt_bool(bytes@)),
{
    proof {
        lemma_suffix_refl(bytes@);
    }
    if bytes.len() == 0 {
        return Ok((bytes, None));
    }
    if let Ok((_, header)) = read_header(bytes) {
        if header.tag != TAG_BOOLEAN {
            return Ok((bytes, None));
        }
    }
    match read_bool(bytes) {
        Ok((rem, b)) => Ok((rem, Some(b))),
        Err(e) => Err(e),
    }
}

/// Reads a context-specific `[tag] IMPLICIT BOOLEAN` if the input starts
/// with a header of that class and tag.
pub fn read_opt_tagged_bool<'a>(tag: u32, bytes: &'a [u8]) -> (r: ParseResult<'a, Option<bool>>)
    ensures
        decoded(bytes, r, spec_opt_tagged_bool(tag, bytes@)),
{
    let (rem, content) = read_opt_tagged(Class::ContextSpecific, tag, bytes)?;
    match content {
        None => Ok((rem, None)),
        Some(c) => {
            if c.len() != 1 {
                Err(ber_error(BerError::InvalidLength))
            } else {
                Ok((rem, Some(c[0] != 0)))
            }
        },
    }
}

/// Reads a NULL.
pub fn read_null<'a>(bytes: &'a [u8]) -> (r: ParseResult<'a, ()>)
    ensures
        decoded(bytes, r, spec_null(bytes@)),
{
    let (rem, any) = read_any(bytes)?;
    if any.header.tag != TAG_NULL {
        Err(tag_error(TAG_NULL, any.header.tag))
    } else if any.header.constructed {
        Err(ber_error(BerError::ConstructUnexpected))
    } else {
        match any.header.length {
            Length::Definite(0) => Ok((rem, ())),
            _ => Err(ber_error(BerError::InvalidLength)),
        }
    }
}

/// Reads a `[class tag] IMPLICIT INTEGER` as an unsigned 32-bit number.
pub fn read_tagged_u32<'a>(class: Class, tag: u32, bytes: &'a [u8]) -> (r: ParseResult<'a, u32>)
    ensures
        decoded(bytes, r, spec_tagged_u32(class, tag, bytes@)),
{
    let (rem, any) = read_any(bytes)?;
    if any.header.tag != tag {
        Err(tag_error(tag, any.header.tag))
    } else if any.header.class != class {
        Err(class_error(class, any.header.class))
    } else if any.header.constructed {
        Err(ber_error(BerError::ConstructUnexpected))
    } else {
        match integer_as_u32(any.data) {
            Ok(v) => Ok((rem, v)),
            Err(e) => Err(ber_error(e)),
        }
    }
}

/// Reads `content` as UTF-8.
pub fn utf8<'a>(content: &'a [u8], err: LdapError) -> (r: Result<&'a str, DecodeError>)
    ensures
        utf8_view(r) == spec_utf8(content@, err),
        r matches Ok(text) ==> vstd::utf8::encode_utf8(text@) == content@,
{
    match str_from_utf8(content) {
        Some(s) => {
            proof {
                encode_utf8_decode_utf8(s@);
            }
            Ok(s)
        },
        None => Err(DecodeError::Error(err)),
    }
}

/// Reads an OCTET STRING as UTF-8.
pub fn read_utf8_string<'a>(bytes: &'a [u8], err: LdapError) -> (r: ParseResult<'a, &'a str>)
    ensures
        str_view(r) == spec_utf8_string(bytes@, err),
        r matches Ok((rem, _)) ==> is_suffix(rem@, bytes@),
        r matches Ok((_, text)) ==> text@.within(bytes@),
{
    let (rem, content) = read_octet_string(bytes)?;
    let s = utf8(content, err)?;
    Ok((rem, s))
}

/// Reads the content of a `[class tag]` element as UTF-8.
pub fn read_tagged_utf8<'a>(class: Class, tag: u32, bytes: &'a [u8], err: LdapError) -> (r: ParseResult<'a, &'a str>)
    ensures
        str_view(r) == spec_tagged_utf8(class, tag, bytes@, err),
        r matches Ok((rem, _)) ==> is_suffix(rem@, bytes@),
        r matches Ok((_, text)) ==> text@.within(bytes@),
{
    let (rem, content) = read_tagged(class, tag, bytes)?;
    let s = utf8(content, err)?;
    Ok((rem, s))
}

/// Reads the content of an optional `[class tag]` element as UTF-8.
pub fn read_opt_tagged_utf8<'a>(class: Class, tag: u32, bytes: &'a [u8], err: LdapError) -> (r: ParseResult<'a, Option<&'a str>>)
    ensures
        opt_str_view(r) == spec_opt_tagged_utf8(class, tag, bytes@, err),
        r matches Ok((rem, _)) ==> is_suffix(rem@, bytes@),
        r matches Ok((_, Some(text))) ==> text@.within(bytes@),
{
    let (rem, content) = read_opt_tagged(class, tag, bytes)?;
    match content {
        None => Ok((rem, None)),
        Some(c) => {
            let s = utf8(c, err)?;
            Ok((rem, Some(s)))
        },
    }
}

} // verus!
