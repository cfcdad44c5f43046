//! Laws of the decoders, stated over the grammar and proved.

use crate::ber::{
    spec_any, spec_complete, spec_header, spec_opt_tagged, spec_opt_tagged_bool, TAG_BOOLEAN,
};
use crate::error::{decoded, result_view, Class, ParseResult, Parts};
use crate::filter::FilterView;
use crate::filter_parser::{
    spec_filter, spec_filters, spec_filters1, spec_ldap_filter, MAX_FILTER_DEPTH,
};
use crate::ldap::LdapMessage;
use crate::parser::{
    spec_control_content, spec_ldap_message, spec_ldap_messages, spec_ldap_oid, spec_protocol_op,
};
use vstd::prelude::*;

verus! {

impl FilterView {
    /// The context tag number of the filter.
    pub open spec fn tag(self) -> u32 {
        match self {
            FilterView::And(_) => 0,
            FilterView::Or(_) => 1,
            FilterView::Not(_) => 2,
            FilterView::EqualityMatch(_) => 3,
            FilterView::Substrings(_) => 4,
            FilterView::GreaterOrEqual(_) => 5,
            FilterView::LessOrEqual(_) => 6,
            FilterView::Present(_) => 7,
            FilterView::ApproxMatch(_) => 8,
            FilterView::ExtensibleMatch(_) => 9,
        }
    }

    /// The filter is nested no deeper than `depth`: a filter that holds no
    /// other filter has depth one.
    pub open spec fn within_depth(self, depth: nat) -> bool
        decreases self,
    {
        depth > 0 && match self {
            FilterView::And(subs) => forall|i: int|
                0 <= i < subs.len() ==> (#[trigger] subs[i]).within_depth((depth - 1) as nat),
            FilterView::Or(subs) => forall|i: int|
                0 <= i < subs.len() ==> (#[trigger] subs[i]).within_depth((depth - 1) as nat),
            FilterView::Not(f) => f.within_depth((depth - 1) as nat),
            _ => true,
        }
    }
}

/// The application tags that stand for a protocol operation.
pub open spec fn is_protocol_op_tag(tag: u32) -> bool {
    tag <= 16 || tag == 19 || tag == 23 || tag == 24 || tag == 25
}

/// A decoded protocol operation is the one that the tag of its header
/// stands for: the header is of class application, its tag is one of the
/// tags of the protocol operations, and it is the tag of the operation.
pub proof fn law_protocol_op_tag(s: Seq<u8>)
    requires
        spec_protocol_op(s) is Ok,
    ensures
        spec_header(s) is Ok,
        spec_header(s)->Ok_0.0.class == Class::Application,
        is_protocol_op_tag(spec_header(s)->Ok_0.0.tag),
        spec_protocol_op(s)->Ok_0.0.tag() == spec_header(s)->Ok_0.0.tag,
{
}

/// A header whose tag stands for no protocol operation is rejected.
pub proof fn law_protocol_op_unknown_tag(s: Seq<u8>)
    requires
        spec_header(s) is Ok,
        !is_protocol_op_tag(spec_header(s)->Ok_0.0.tag),
    ensures
        spec_protocol_op(s) is Err,
{
}

/// A decoded filter is the one that the tag of its header stands for: the
/// header is of class context-specific, its tag is at most 9, and it is the
/// tag of the filter.
pub proof fn law_filter_tag(s: Seq<u8>, depth: nat)
    requires
        spec_filter(s, depth) is Ok,
    ensures
        spec_header(s) is Ok,
        spec_header(s)->Ok_0.0.class == Class::ContextSpecific,
        spec_header(s)->Ok_0.0.tag <= 9,
        spec_filter(s, depth)->Ok_0.0.tag() == spec_header(s)->Ok_0.0.tag,
{
}

/// The filters of a decoded list are nested no deeper than the depth allowed.
pub proof fn lemma_filters_within_depth(s: Seq<u8>, depth: nat)
    requires
        spec_filters(s, depth) is Ok,
    ensures
        forall|i: int|
            0 <= i < spec_filters(s, depth)->Ok_0.0.len() ==> (#[trigger] spec_filters(
                s,
                depth,
            )->Ok_0.0[i]).within_depth(depth),
    decreases depth, 1nat, s.len(),
{
    match spec_complete(spec_filter(s, depth)) {
        Ok((f, rest)) => {
            law_filter_within_depth(s, depth);
            lemma_filters_within_depth(rest, depth);
            let tail = spec_filters(rest, depth)->Ok_0.0;
            let all = spec_filters(s, depth)->Ok_0.0;
            assert(all =~= seq![f] + tail);
            assert forall|i: int| 0 <= i < all.len() implies (#[trigger] all[i]).within_depth(depth) by {
                if i > 0 {
                    assert(all[i] == tail[i - 1]);
                }
            }
        },
        Err(_) => {},
    }
}

/// The filters of a decoded non-empty list are nested no deeper than the depth allowed.
pub proof fn lemma_filters1_within_depth(s: Seq<u8>, depth: nat)
    requires
        spec_filters1(s, depth) is Ok,
    ensures
        forall|i: int|
            0 <= i < spec_filters1(s, depth)->Ok_0.0.len() ==> (#[trigger] spec_filters1(
                s,
                depth,
            )->Ok_0.0[i]).within_depth(depth),
    decreases depth, 2nat, s.len(),
{
    match spec_complete(spec_filter(s, depth)) {
        Ok((f, rest)) => {
            law_filter_within_depth(s, depth);
            lemma_filters_within_depth(rest, depth);
            let tail = spec_filters(rest, depth)->Ok_0.0;
            let all = spec_filters1(s, depth)->Ok_0.0;
            assert(all =~= seq![f] + tail);
            assert forall|i: int| 0 <= i < all.len() implies (#[trigger] all[i]).within_depth(depth) by {
                if i > 0 {
                    assert(all[i] == tail[i - 1]);
                }
            }
        },
        Err(_) => {},
    }
}

/// A decoded filter is nested no deeper than the depth allowed.
pub proof fn law_filter_within_depth(s: Seq<u8>, depth: nat)
    requires
        spec_filter(s, depth) is Ok,
    ensures
        spec_filter(s, depth)->Ok_0.0.within_depth(depth),
    decreases depth, 0nat, 0nat,
{
    let any = spec_any(s)->Ok_0.0;
    let tag = any.header.tag;
    if tag == 0 || tag == 1 {
        lemma_filters1_within_depth(any.data, (depth - 1) as nat);
    } else if tag == 2 {
        law_filter_within_depth(any.data, (depth - 1) as nat);
    }
}

/// Every filter that the decoder returns is nested no deeper than
/// [`MAX_FILTER_DEPTH`].
pub proof fn law_filter_depth_bounded(s: Seq<u8>)
    requires
        spec_ldap_filter(s) is Ok,
    ensures
        spec_ldap_filter(s)->Ok_0.0.within_depth(MAX_FILTER_DEPTH as nat),
{
    law_filter_within_depth(s, MAX_FILTER_DEPTH as nat);
}

/// Where the criticality of a control is absent, the control is not critical.
/// It is absent where, after the control type, the content is at its end or
/// goes on with an element that is no BOOLEAN.
pub proof fn law_criticality_defaults_to_false(s: Seq<u8>)
    requires
        spec_control_content(s) is Ok,
        ({
            let after_type = spec_ldap_oid(s)->Ok_0.1;
            after_type.len() == 0 || (spec_header(after_type) is Ok && spec_header(
                after_type,
            )->Ok_0.0.tag != TAG_BOOLEAN)
        }),
    ensures
        spec_control_content(s)->Ok_0.0.criticality == false,
{
}

/// Where the `[4]` flag of a matching rule assertion is absent, the decoded
/// flag is `None`. It is absent where, after the `[3]` assertion value, the
/// content is at its end or goes on with a header of another tag.
pub proof fn law_dn_attributes_absent(after_value: Seq<u8>)
    requires
        after_value.len() == 0 || (spec_header(after_value) is Ok && spec_header(
            after_value,
        )->Ok_0.0.tag != 4),
    ensures
        spec_opt_tagged_bool(4, after_value) is Ok,
        spec_opt_tagged_bool(4, after_value)->Ok_0.0 is None,
        spec_opt_tagged_bool(4, after_value)->Ok_0.1 == after_value,
{
}

/// Decoding is a function of the octets: two buffers that hold the same
/// octets give results with the same view.
pub proof fn law_decode_message_deterministic(
    a: &[u8],
    b: &[u8],
    ra: ParseResult<LdapMessage>,
    rb: ParseResult<LdapMessage>,
)
    requires
        a@ == b@,
        decoded(a, ra, spec_ldap_message(a@)),
        decoded(b, rb, spec_ldap_message(b@)),
    ensures
        result_view(ra) == result_view(rb),
{
}

/// On success the input is the octets that were consumed followed by the
/// returned tail.
pub proof fn law_decode_message_prefix(input: &[u8], r: ParseResult<LdapMessage>)
    requires
        decoded(input, r, spec_ldap_message(input@)),
        r is Ok,
    ensures
        r->Ok_0.0@.len() <= input@.len(),
        input@ == input@.subrange(0, input@.len() - r->Ok_0.0@.len()) + r->Ok_0.0@,
{
}

/// Every string and every octet string of a decoded message is a part of
/// the input: an octet string as it stands, a string in its UTF-8 encoding.
pub proof fn law_decode_message_parts(input: &[u8], r: ParseResult<LdapMessage>)
    requires
        decoded(input, r, spec_ldap_message(input@)),
        r is Ok,
    ensures
        r->Ok_0.1.deep_view().within(input@),
{
}

/// An optional tagged element is absent, and nothing is consumed, where
/// the input is empty or starts with a header of another tag or of another
/// class.
pub proof fn law_optional_tagged_absent(class: Class, tag: u32, s: Seq<u8>)
    requires
        s.len() == 0 || (spec_header(s) is Ok && (spec_header(s)->Ok_0.0.tag != tag || spec_header(
            s,
        )->Ok_0.0.class != class)),
    ensures
        spec_opt_tagged(class, tag, s) is Ok,
        spec_opt_tagged(class, tag, s)->Ok_0.0 is None,
        spec_opt_tagged(class, tag, s)->Ok_0.1 == s,
{
}

/// Where the messages of a buffer are decoded, they are at least one and
/// nothing is left of the buffer.
pub proof fn law_messages_fill_the_buffer(s: Seq<u8>)
    requires
        spec_ldap_messages(s) is Ok,
    ensures
        spec_ldap_messages(s)->Ok_0.0.len() >= 1,
        spec_ldap_messages(s)->Ok_0.1.len() == 0,
    decreases s.len(),
{
    match spec_ldap_message(s) {
        Err(_) => {},
        Ok((_, rest)) => {
            if rest.len() != 0 && rest.len() < s.len() {
                law_messages_fill_the_buffer(rest);
            }
        },
    }
}

/// A message that cannot be decoded gives its error to the whole buffer:
/// the first message its own, and a later one through what follows the
/// message before it.
pub proof fn law_messages_fail_with_the_message(s: Seq<u8>)
    ensures
        spec_ldap_message(s) is Err ==> spec_ldap_messages(s) is Err && spec_ldap_messages(s)->Err_0
            == spec_ldap_message(s)->Err_0,
        spec_ldap_message(s) is Ok && 0 < spec_ldap_message(s)->Ok_0.1.len() < s.len()
            && spec_ldap_messages(spec_ldap_message(s)->Ok_0.1) is Err ==> spec_ldap_messages(s) is Err
            && spec_ldap_messages(s)->Err_0 == spec_ldap_messages(spec_ldap_message(s)->Ok_0.1)->Err_0,
{
}

} // verus!
