//! The decoder trait and the repetition of elements.

use crate::error::{
    decoded, group_parts, is_suffix, lemma_suffix_refl, lemma_suffix_trans, result_view,
    DecodeError, ErrorKind, LdapError, ParseResult, Parts, SpecResult,
};
use crate::ber::{read_sequence, read_set, spec_complete, spec_inner, spec_sequence, spec_set};
use vstd::prelude::*;

verus! {

broadcast use group_parts;

/// A type that is decoded from the BER element at the start of a buffer.
pub trait FromBer<'a>: Sized + DeepView<V: Parts> {
    /// What the grammar gives for the octets `s`: the view of the value and
    /// the octets after it, or the error.
    spec fn spec_from_ber(s: Seq<u8>) -> SpecResult<Self::V>;

    /// Decodes a value from the start of `bytes` and returns it with the
    /// unconsumed tail.
    fn from_ber(bytes: &'a [u8]) -> (r: ParseResult<'a, Self>)
        ensures
            decoded(bytes, r, Self::spec_from_ber(bytes@)),
    ;
}

/// `r` with `front` put before its elements.
pub open spec fn spec_prepend<V>(front: Seq<V>, r: SpecResult<Seq<V>>) -> SpecResult<Seq<V>> {
    match r {
        Ok((vs, rest)) => Ok((front + vs, rest)),
        Err(e) => Err(e),
    }
}

/// The elements that stand one after the other at the start of `s`, up to the
/// first place where no complete element can be decoded. An element that
/// consumes nothing is an error of kind `kind`.
pub open spec fn spec_many<'a, T: FromBer<'a>>(s: Seq<u8>, kind: ErrorKind) -> SpecResult<Seq<T::V>>
    decreases s.len(),
{
    match spec_complete(T::spec_from_ber(s)) {
        Err(DecodeError::Error(_)) => Ok((Seq::empty(), s)),
        Err(e) => Err(e),
        Ok((v, rest)) => if rest.len() >= s.len() {
            Err(DecodeError::Error(LdapError::NomError(kind)))
        } else {
            spec_prepend(seq![v], spec_many::<T>(rest, kind))
        },
    }
}

/// Zero or more elements.
pub open spec fn spec_many0<'a, T: FromBer<'a>>(s: Seq<u8>) -> SpecResult<Seq<T::V>> {
    spec_many::<T>(s, ErrorKind::Many0)
}

/// One or more elements.
pub open spec fn spec_many1<'a, T: FromBer<'a>>(s: Seq<u8>) -> SpecResult<Seq<T::V>> {
    match spec_complete(T::spec_from_ber(s)) {
        Err(DecodeError::Error(_)) => Err(DecodeError::Error(LdapError::NomError(ErrorKind::Many1))),
        Err(e) => Err(e),
        Ok((v, rest)) => spec_prepend(seq![v], spec_many::<T>(rest, ErrorKind::Many1)),
    }
}

/// Putting `front` and then one more element before a result is putting
/// `front` with that element before it.
pub proof fn lemma_prepend_push<V>(front: Seq<V>, v: V, r: SpecResult<Seq<V>>)
    ensures
        spec_prepend(front, spec_prepend(seq![v], r)) == spec_prepend(front.push(v), r),
{
    match r {
        Ok((vs, rest)) => {
            assert(front + (seq![v] + vs) =~= front.push(v) + vs);
        },
        Err(_) => {},
    }
}

/// `r`, with a request for more input turned into an error of the grammar.
pub open spec fn complete_of<T>(r: ParseResult<T>) -> ParseResult<T> {
    match r {
        Err(DecodeError::Incomplete(_)) => Err(DecodeError::Error(LdapError::NomError(ErrorKind::Complete))),
        _ => r,
    }
}

/// Turns a request for more input into an error of the grammar.
pub fn complete<'a, T>(r: ParseResult<'a, T>) -> (out: ParseResult<'a, T>)
    ensures
        out == complete_of(r),
{
    match r {
        Err(DecodeError::Incomplete(_)) => Err(DecodeError::Error(LdapError::NomError(ErrorKind::Complete))),
        other => other,
    }
}

/// Decodes elements after the ones in `front`, up to the first place where
/// no complete element can be decoded. The elements that are added have
/// their strings and octet strings within `bytes`.
pub fn many_after<'a, T: FromBer<'a>>(bytes: &'a [u8], front: Vec<T>, kind: ErrorKind) -> (r: ParseResult<'a, Vec<T>>)
    ensures
        result_view(r) == spec_prepend(front.deep_view(), spec_many::<T>(bytes@, kind)),
        r matches Ok((rem, _)) ==> is_suffix(rem@, bytes@),
        r matches Ok((_, v)) ==> v.len() >= front.len() && forall|k: int|
            front.len() <= k < v.len() ==> (#[trigger] v.deep_view()[k]).within(bytes@),
{
    let mut acc = front;
    let mut i = bytes;
    proof {
        lemma_suffix_refl(bytes@);
    }
    loop
        invariant
            is_suffix(i@, bytes@),
            spec_prepend(acc.deep_view(), spec_many::<T>(i@, kind)) == spec_prepend(
                front.deep_view(),
                spec_many::<T>(bytes@, kind),
            ),
            acc.len() >= front.len(),
            forall|k: int| front.len() <= k < acc.len() ==> (#[trigger] acc.deep_view()[k]).within(bytes@),
        decreases i@.len(),
    {
        match complete(T::from_ber(i)) {
            Err(DecodeError::Error(_)) => {
                proof {
                    assert(acc.deep_view() + Seq::<T::V>::empty() =~= acc.deep_view());
                }
                return Ok((i, acc));
            },
            Err(e) => {
                return Err(e);
            },
            Ok((rest, v)) => {
                if rest.len() >= i.len() {
                    return Err(DecodeError::Error(LdapError::NomError(kind)));
                }
                proof {
                    lemma_prepend_push(acc.deep_view(), v.deep_view(), spec_many::<T>(rest@, kind));
                    lemma_suffix_trans(rest@, i@, bytes@);
                    v.deep_view().lemma_within_part(i@, bytes@);
                }
                let ghost before = acc.deep_view();
                acc.push(v);
                proof {
                    assert(acc.deep_view() =~= before.push(v.deep_view()));
                }
                i = rest;
            },
        }
    }
}

/// The SEQUENCE at the start of `s`, holding zero or more elements.
pub open spec fn spec_sequence_of0<'a, T: FromBer<'a>>(s: Seq<u8>) -> SpecResult<Seq<T::V>> {
    match spec_sequence(s) {
        Err(e) => Err(e),
        Ok((content, rest)) => spec_inner(spec_many0::<T>(content), rest),
    }
}

/// The SEQUENCE at the start of `s`, holding one or more elements.
pub open spec fn spec_sequence_of1<'a, T: FromBer<'a>>(s: Seq<u8>) -> SpecResult<Seq<T::V>> {
    match spec_sequence(s) {
        Err(e) => Err(e),
        Ok((content, rest)) => spec_inner(spec_many1::<T>(content), rest),
    }
}

/// The SET at the start of `s`, holding zero or more elements.
pub open spec fn spec_set_of0<'a, T: FromBer<'a>>(s: Seq<u8>) -> SpecResult<Seq<T::V>> {
    match spec_set(s) {
        Err(e) => Err(e),
        Ok((content, rest)) => spec_inner(spec_many0::<T>(content), rest),
    }
}

/// The SET at the start of `s`, holding one or more elements.
pub open spec fn spec_set_of1<'a, T: FromBer<'a>>(s: Seq<u8>) -> SpecResult<Seq<T::V>> {
    match spec_set(s) {
        Err(e) => Err(e),
        Ok((content, rest)) => spec_inner(spec_many1::<T>(content), rest),
    }
}

/// Decodes zero or more elements.
pub fn many0<'a, T: FromBer<'a>>(bytes: &'a [u8]) -> (r: ParseResult<'a, Vec<T>>)
    ensures
        decoded(bytes, r, spec_many0::<T>(bytes@)),
{
    let front: Vec<T> = Vec::new();
    proof {
        let tail = spec_many::<T>(bytes@, ErrorKind::Many0);
        if let Ok((vs, rest)) = tail {
            assert(front.deep_view() + vs =~= vs);
        }
    }
    many_after(bytes, front, ErrorKind::Many0)
}

/// Decodes one or more elements.
pub fn many1<'a, T: FromBer<'a>>(bytes: &'a [u8]) -> (r: ParseResult<'a, Vec<T>>)
    ensures
        decoded(bytes, r, spec_many1::<T>(bytes@)),
{
    match complete(T::from_ber(bytes)) {
        Err(DecodeError::Error(_)) => Err(DecodeError::Error(LdapError::NomError(ErrorKind::Many1))),
        Err(e) => Err(e),
        Ok((rest, v)) => {
            let mut front: Vec<T> = Vec::new();
            front.push(v);
            proof {
                assert(front.deep_view() =~= seq![v.deep_view()]);
            }
            let r = many_after(rest, front, ErrorKind::Many1);
            proof {
                if r is Ok {
                    let rem = r->Ok_0.0;
                    let all = r->Ok_0.1;
                    lemma_suffix_trans(rem@, rest@, bytes@);
                    assert forall|k: int| 0 <= k < all.len() implies (#[trigger] all.deep_view()[k]).within(
                        bytes@,
                    ) by {
                        if k >= 1 {
                            all.deep_view()[k].lemma_within_part(rest@, bytes@);
                        }
                    }
                }
            }
            r
        },
    }
}

/// Decodes a SEQUENCE of zero or more elements.
pub fn sequence_of0<'a, T: FromBer<'a>>(bytes: &'a [u8]) -> (r: ParseResult<'a, Vec<T>>)
    ensures
        decoded(bytes, r, spec_sequence_of0::<T>(bytes@)),
{
    let (rem, content) = read_sequence(bytes)?;
    let (_, v) = many0::<T>(content)?;
    proof {
        v.deep_view().lemma_within_part(content@, bytes@);
    }
    Ok((rem, v))
}

/// Decodes a SEQUENCE of one or more elements.
pub fn sequence_of1<'a, T: FromBer<'a>>(bytes: &'a [u8]) -> (r: ParseResult<'a, Vec<T>>)
    ensures
        decoded(bytes, r, spec_sequence_of1::<T>(bytes@)),
{
    let (rem, content) = read_sequence(bytes)?;
    let (_, v) = many1::<T>(content)?;
    proof {
        v.deep_view().lemma_within_part(content@, bytes@);
    }
    Ok((rem, v))
}

/// Decodes a SET of zero or more elements.
pub fn set_of0<'a, T: FromBer<'a>>(bytes: &'a [u8]) -> (r: ParseResult<'a, Vec<T>>)
    ensures
        decoded(bytes, r, spec_set_of0::<T>(bytes@)),
{
    let (rem, content) = read_set(bytes)?;
    let (_, v) = many0::<T>(content)?;
    proof {
        v.deep_view().lemma_within_part(content@, bytes@);
    }
    Ok((rem, v))
}

/// Decodes a SET of one or more elements.
pub fn set_of1<'a, T: FromBer<'a>>(bytes: &'a [u8]) -> (r: ParseResult<'a, Vec<T>>)
    ensures
        decoded(bytes, r, spec_set_of1::<T>(bytes@)),
{
    let (rem, content) = read_set(bytes)?;
    let (_, v) = many1::<T>(content)?;
    proof {
        v.deep_view().lemma_within_part(content@, bytes@);
    }
    Ok((rem, v))
}

/// The elements that fill `s`: one element after the other, at least one,
/// up to the end of `s`. Where an element cannot be decoded the result is
/// that element's error, whatever was decoded before it.
pub open spec fn spec_many_to_end<'a, T: FromBer<'a>>(s: Seq<u8>) -> SpecResult<Seq<T::V>>
    decreases s.len(),
{
    match T::spec_from_ber(s) {
        Err(e) => Err(e),
        Ok((v, rest)) => if rest.len() == 0 {
            Ok((seq![v], rest))
        } else if rest.len() >= s.len() {
            Err(DecodeError::Error(LdapError::NomError(ErrorKind::Many1)))
        } else {
            spec_prepend(seq![v], spec_many_to_end::<T>(rest))
        },
    }
}

/// Decodes one element after the other, at least one, up to the end of the
/// input. An element that cannot be decoded gives its own error.
pub fn many_to_end<'a, T: FromBer<'a>>(bytes: &'a [u8]) -> (r: ParseResult<'a, Vec<T>>)
    ensures
        decoded(bytes, r, spec_many_to_end::<T>(bytes@)),
        r matches Ok((rem, v)) ==> rem@.len() == 0 && v.len() >= 1,
{
    let mut acc: Vec<T> = Vec::new();
    let mut i = bytes;
    proof {
        lemma_suffix_refl(bytes@);
        let all = spec_many_to_end::<T>(bytes@);
        if all is Ok {
            assert(acc.deep_view() + all->Ok_0.0 =~= all->Ok_0.0);
        }
    }
    loop
        invariant
            is_suffix(i@, bytes@),
            spec_prepend(acc.deep_view(), spec_many_to_end::<T>(i@)) == spec_many_to_end::<T>(bytes@),
            forall|k: int| 0 <= k < acc.len() ==> (#[trigger] acc.deep_view()[k]).within(bytes@),
        decreases i@.len(),
    {
        let (rest, v) = T::from_ber(i)?;
        proof {
            lemma_prepend_push(acc.deep_view(), v.deep_view(), spec_many_to_end::<T>(rest@));
            v.deep_view().lemma_within_part(i@, bytes@);
        }
        let ghost before = acc.deep_view();
        acc.push(v);
        proof {
            assert(acc.deep_view() =~= before.push(v.deep_view()));
            assert(before + seq![v.deep_view()] =~= before.push(v.deep_view()));
        }
        if rest.len() == 0 {
            return Ok((rest, acc));
        }
        if rest.len() >= i.len() {
            return Err(DecodeError::Error(LdapError::NomError(ErrorKind::Many1)));
        }
        i = rest;
    }
}

} // verus!
