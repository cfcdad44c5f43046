//! Errors reported by the decoders, and the shape of their results.

use vstd::prelude::*;

verus! {

/// Class of a BER tag (the two high bits of the identifier octet).
#[derive(Clone, Copy, Debug, PartialEq, Eq, Structural)]
pub enum Class {
    Universal,
    Application,
    ContextSpecific,
    Private,
}

/// How many more octets a decoder would have needed.
#[derive(Clone, Copy, Debug, PartialEq, Eq, Structural)]
pub enum Needed {
    /// More input is needed, the amount is not known.
    Unknown,
    /// Exactly this many more octets are needed.
    Size(usize),
}

/// Which combinator rule rejected the input.
#[derive(Clone, Copy, Debug, PartialEq, Eq, Structural)]
pub enum ErrorKind {
    /// A value was decoded but is outside the accepted range.
    Verify,
    /// The input ended inside an element that had to be complete.
    Complete,
    /// An element of a possibly empty repetition consumed no input.
    Many0,
    /// A repetition that needs one element had none, or an element consumed no input.
    Many1,
}

/// Failure of the BER layer.
#[allow(inconsistent_fields)]
#[derive(Clone, Copy, Debug, PartialEq, Eq, Structural)]
pub enum BerError {
    /// The length octets are malformed, or the length does not fit the type.
    InvalidLength,
    /// The identifier octets are malformed.
    InvalidTag,
    /// The element does not carry the tag that the grammar asks for.
    UnexpectedTag { expected: Option<u32>, actual: u32 },
    /// The element does not carry the class that the grammar asks for.
    UnexpectedClass { expected: Option<Class>, actual: Class },
    /// The element uses the indefinite length form.
    IndefiniteLengthUnexpected,
    /// A primitive element stands where a constructed one is required.
    ConstructExpected,
    /// A constructed element stands where a primitive one is required.
    ConstructUnexpected,
    /// The integer does not fit the requested type.
    IntegerTooLarge,
    /// The integer is negative where an unsigned one is required.
    IntegerNegative,
    /// A combinator rule rejected a BER value.
    NomError(ErrorKind),
    /// Any other failure of the BER layer.
    Unsupported,
}

/// Failure of the LDAP layer.
#[derive(Clone, Copy, Debug, PartialEq, Eq, Structural)]
pub enum LdapError {
    /// The octets of an LDAPString are not UTF-8.
    InvalidString,
    /// The AuthenticationChoice tag is neither simple nor sasl.
    InvalidAuthenticationType,
    /// The octets of a distinguished name or of an object identifier are not UTF-8.
    InvalidDN,
    /// The tag of a substring is none of initial, any, final.
    InvalidSubstring,
    /// The tag of a filter is not one of the ten filter choices.
    InvalidFilterType,
    /// The tag of the protocol operation is not one of the known operations.
    InvalidMessageType,
    /// Filters are nested deeper than [`crate::filter_parser::MAX_FILTER_DEPTH`].
    DepthExceeded,
    /// Reserved.
    Unknown,
    /// The BER layer failed.
    Ber(BerError),
    /// A combinator rule rejected the input.
    NomError(ErrorKind),
}

/// Why a decoder returned no value.
#[derive(Clone, Copy, Debug, PartialEq, Eq, Structural)]
pub enum DecodeError {
    /// The input is too short.
    Incomplete(Needed),
    /// The input is not what this decoder accepts; an alternative may still apply.
    Error(LdapError),
    /// The input is rejected whatever the alternatives.
    Failure(LdapError),
}

/// Result of a decoder: the unconsumed tail of the input and the decoded value.
pub type ParseResult<'a, T> = Result<(&'a [u8], T), DecodeError>;

/// Mathematical counterpart of [`ParseResult`]: the decoded value and the unconsumed tail.
pub type SpecResult<T> = Result<(T, Seq<u8>), DecodeError>;

/// `tail` is what remains of `input` after some leading octets were consumed:
/// `input` is those octets followed by `tail`.
pub open spec fn is_suffix(tail: Seq<u8>, input: Seq<u8>) -> bool {
    &&& tail.len() <= input.len()
    &&& input =~= input.subrange(0, input.len() - tail.len()) + tail
}

/// The octets of `input` that stand before `tail`: what a decoder that
/// returned `tail` has consumed.
pub open spec fn consumed(input: Seq<u8>, tail: Seq<u8>) -> Seq<u8> {
    input.subrange(0, input.len() - tail.len())
}

/// An error of the BER layer as a recoverable decoding error.
pub open spec fn ber_err(e: BerError) -> DecodeError {
    DecodeError::Error(LdapError::Ber(e))
}

/// The view of an executable result.
pub open spec fn result_view<T: DeepView>(r: ParseResult<T>) -> SpecResult<T::V> {
    match r {
        Ok((rem, v)) => Ok((v.deep_view(), rem@)),
        Err(e) => Err(e),
    }
}

/// `part` is a run of consecutive octets of `whole`.
#[verifier::opaque]
pub open spec fn is_part(part: Seq<u8>, whole: Seq<u8>) -> bool {
    exists|k: int| 0 <= k && k + part.len() <= whole.len() && part == #[trigger] whole.subrange(k, k + part.len())
}

/// A decoded value whose strings and octet strings can be looked for in a buffer.
pub trait Parts {
    /// Every string and every octet string in `self` is a part of `input`:
    /// an octet string as it is, a string in its UTF-8 encoding.
    spec fn within(self, input: Seq<u8>) -> bool;

    /// What is within a part of a buffer is within the buffer.
    proof fn lemma_within_part(self, part: Seq<u8>, input: Seq<u8>)
        requires
            self.within(part),
            is_part(part, input),
        ensures
            self.within(input),
    ;
}

impl Parts for Seq<u8> {
    open spec fn within(self, input: Seq<u8>) -> bool {
        is_part(self, input)
    }

    proof fn lemma_within_part(self, part: Seq<u8>, input: Seq<u8>) {
        lemma_part_trans(self, part, input);
    }
}

impl Parts for Seq<char> {
    open spec fn within(self, input: Seq<u8>) -> bool {
        is_part(vstd::utf8::encode_utf8(self), input)
    }

    proof fn lemma_within_part(self, part: Seq<u8>, input: Seq<u8>) {
        lemma_part_trans(vstd::utf8::encode_utf8(self), part, input);
    }
}

impl<V: Parts> Parts for Seq<V> {
    open spec fn within(self, input: Seq<u8>) -> bool {
        forall|i: int| 0 <= i < self.len() ==> (#[trigger] self[i]).within(input)
    }

    proof fn lemma_within_part(self, part: Seq<u8>, input: Seq<u8>) {
        assert forall|i: int| 0 <= i < self.len() implies (#[trigger] self[i]).within(input) by {
            self[i].lemma_within_part(part, input);
        }
    }
}

impl<V: Parts> Parts for Option<V> {
    open spec fn within(self, input: Seq<u8>) -> bool {
        match self {
            Some(v) => v.within(input),
            None => true,
        }
    }

    proof fn lemma_within_part(self, part: Seq<u8>, input: Seq<u8>) {
        match self {
            Some(v) => {
                v.lemma_within_part(part, input);
            },
            None => {},
        }
    }
}

impl Parts for u32 {
    open spec fn within(self, input: Seq<u8>) -> bool {
        true
    }

    proof fn lemma_within_part(self, part: Seq<u8>, input: Seq<u8>) {
    }
}

impl Parts for bool {
    open spec fn within(self, input: Seq<u8>) -> bool {
        true
    }

    proof fn lemma_within_part(self, part: Seq<u8>, input: Seq<u8>) {
    }
}

impl Parts for () {
    open spec fn within(self, input: Seq<u8>) -> bool {
        true
    }

    proof fn lemma_within_part(self, part: Seq<u8>, input: Seq<u8>) {
    }
}

/// What every decoder promises: the result is the one the grammar gives for
/// the input, the returned tail is a suffix of the input, and the strings
/// and octet strings of the value are parts of the input.
pub open spec fn decoded<T: DeepView>(input: &[u8], r: ParseResult<T>, expected: SpecResult<T::V>) -> bool
    where T::V: Parts
{
    &&& result_view(r) == expected
    &&& r matches Ok((rem, _)) ==> is_suffix(rem@, input@)
    &&& r matches Ok((_, v)) ==> v.deep_view().within(input@)
}

/// A sequence is a suffix of itself.
pub proof fn lemma_suffix_refl(s: Seq<u8>)
    ensures
        is_suffix(s, s),
{
}

/// A suffix of a suffix is a suffix.
pub broadcast proof fn lemma_suffix_trans(a: Seq<u8>, b: Seq<u8>, c: Seq<u8>)
    requires
        #[trigger] is_suffix(a, b),
        #[trigger] is_suffix(b, c),
    ensures
        is_suffix(a, c),
{
    let kb = b.len() - a.len();
    let kc = c.len() - b.len();
    assert(b =~= b.subrange(0, kb) + a);
    assert(c =~= c.subrange(0, kc) + b);
    assert(c =~= c.subrange(0, kc + kb) + a);
}

/// A sequence is a part of itself.
pub broadcast proof fn lemma_part_refl(s: Seq<u8>)
    ensures
        #[trigger] is_part(s, s),
{
    reveal(is_part);
    assert(s == s.subrange(0, 0 + s.len() as int));
}

/// A suffix is a part.
pub broadcast proof fn lemma_suffix_is_part(a: Seq<u8>, b: Seq<u8>)
    requires
        #[trigger] is_suffix(a, b),
    ensures
        is_part(a, b),
{
    reveal(is_part);
    let k = b.len() - a.len();
    assert(a =~= b.subrange(k, k + a.len()));
}

/// A range of a sequence is a part of it.
pub broadcast proof fn lemma_subrange_is_part(s: Seq<u8>, i: int, j: int)
    requires
        0 <= i <= j <= s.len(),
    ensures
        is_part(#[trigger] s.subrange(i, j), s),
{
    reveal(is_part);
    assert(s.subrange(i, j) == s.subrange(i, i + s.subrange(i, j).len()));
}

/// A part of a part is a part.
pub broadcast proof fn lemma_part_trans(a: Seq<u8>, b: Seq<u8>, c: Seq<u8>)
    requires
        #[trigger] is_part(a, b),
        #[trigger] is_part(b, c),
    ensures
        is_part(a, c),
{
    reveal(is_part);
    let k1 = choose|k: int| 0 <= k && k + a.len() <= b.len() && a == #[trigger] b.subrange(k, k + a.len());
    let k2 = choose|k: int| 0 <= k && k + b.len() <= c.len() && b == #[trigger] c.subrange(k, k + b.len());
    assert(a =~= c.subrange(k1 + k2, k1 + k2 + a.len()));
}

/// The facts about parts that the decoders use.
pub broadcast group group_parts {
    lemma_part_refl,
    lemma_suffix_is_part,
    lemma_part_trans,
    lemma_suffix_trans,
}

/// What is left of a sequence from some place on is a suffix of it.
pub proof fn lemma_suffix_subrange(s: Seq<u8>, k: int)
    requires
        0 <= k <= s.len(),
    ensures
        is_suffix(s.subrange(k, s.len() as int), s),
{
}

} // verus!
