//! Types of the search filter and of attributes, with their mathematical views.

use crate::error::{is_part, Parts};
use crate::ldap::LdapString;
use std::borrow::Cow;
use vstd::prelude::*;

verus! {

/// A search filter.
#[derive(Debug, Eq, PartialEq)]
pub enum Filter<'a> {
    And(Vec<Filter<'a>>),
    Or(Vec<Filter<'a>>),
    Not(Box<Filter<'a>>),
    EqualityMatch(AttributeValueAssertion<'a>),
    Substrings(SubstringFilter<'a>),
    GreaterOrEqual(AttributeValueAssertion<'a>),
    LessOrEqual(AttributeValueAssertion<'a>),
    Present(LdapString<'a>),
    ApproxMatch(AttributeValueAssertion<'a>),
    ExtensibleMatch(MatchingRuleAssertion<'a>),
}

#[derive(Clone, Debug, Eq, PartialEq)]
pub struct PartialAttribute<'a> {
    pub attr_type: LdapString<'a>,
    pub attr_vals: Vec<AttributeValue<'a>>,
}

#[derive(Clone, Debug, Eq, PartialEq)]
pub struct Attribute<'a> {
    pub attr_type: LdapString<'a>,
    pub attr_vals: Vec<AttributeValue<'a>>,
}

#[derive(Clone, Debug, Eq, PartialEq)]
pub struct AttributeValueAssertion<'a> {
    pub attribute_desc: LdapString<'a>,
    pub assertion_value: Cow<'a, [u8]>,
}

#[derive(Clone, Debug, Eq, PartialEq)]
pub struct AttributeDescription<'a>(pub Cow<'a, str>);

#[derive(Clone, Debug, Eq, PartialEq)]
pub struct MatchingRuleAssertion<'a> {
    pub matching_rule: Option<LdapString<'a>>,
    pub rule_type: Option<AttributeDescription<'a>>,
    pub assertion_value: AssertionValue<'a>,
    pub dn_attributes: Option<bool>,
}

#[derive(Clone, Debug, Eq, PartialEq)]
pub struct MatchingRuleId<'a>(pub Cow<'a, str>);

#[derive(Clone, Debug, Eq, PartialEq)]
pub struct SubstringFilter<'a> {
    pub filter_type: LdapString<'a>,
    pub substrings: Vec<Substring<'a>>,
}

#[derive(Clone, Debug, Eq, PartialEq)]
pub enum Substring<'a> {
    Initial(AssertionValue<'a>),
    Any(AssertionValue<'a>),
    Final(AssertionValue<'a>),
}

#[derive(Clone, Debug, Eq, PartialEq)]
pub struct AssertionValue<'a>(pub Cow<'a, [u8]>);

#[derive(Clone, Debug, Eq, PartialEq)]
pub struct AttributeValue<'a>(pub Cow<'a, [u8]>);

impl<'a> Clone for Filter<'a> {
    fn clone(&self) -> (out: Self)
        decreases self,
    {
        match self {
            Filter::And(v) => Filter::And(clone_filters(v)),
            Filter::Or(v) => Filter::Or(clone_filters(v)),
            Filter::Not(b) => Filter::Not(Box::new((**b).clone())),
            Filter::EqualityMatch(a) => Filter::EqualityMatch(a.clone()),
            Filter::Substrings(s) => Filter::Substrings(s.clone()),
            Filter::GreaterOrEqual(a) => Filter::GreaterOrEqual(a.clone()),
            Filter::LessOrEqual(a) => Filter::LessOrEqual(a.clone()),
            Filter::Present(s) => Filter::Present(s.clone()),
            Filter::ApproxMatch(a) => Filter::ApproxMatch(a.clone()),
            Filter::ExtensibleMatch(m) => Filter::ExtensibleMatch(m.clone()),
        }
    }
}

/// Copies of the filters in `v`, in order.
fn clone_filters<'a>(v: &Vec<Filter<'a>>) -> (out: Vec<Filter<'a>>)
    ensures
        out.len() == v.len(),
    decreases v,
{
    let mut out: Vec<Filter<'a>> = Vec::new();
    let mut i: usize = 0;
    while i < v.len()
        invariant
            i <= v.len(),
            out.len() == i,
        decreases v.len() - i,
    {
        out.push(v[i].clone());
        i += 1;
    }
    out
}

/// View of [`Filter`].
pub enum FilterView {
    And(Seq<FilterView>),
    Or(Seq<FilterView>),
    Not(Box<FilterView>),
    EqualityMatch(AttributeValueAssertionView),
    Substrings(SubstringFilterView),
    GreaterOrEqual(AttributeValueAssertionView),
    LessOrEqual(AttributeValueAssertionView),
    Present(Seq<char>),
    ApproxMatch(AttributeValueAssertionView),
    ExtensibleMatch(MatchingRuleAssertionView),
}

/// View of [`PartialAttribute`].
pub struct PartialAttributeView {
    pub attr_type: Seq<char>,
    pub attr_vals: Seq<Seq<u8>>,
}

/// View of [`Attribute`].
pub struct AttributeView {
    pub attr_type: Seq<char>,
    pub attr_vals: Seq<Seq<u8>>,
}

/// View of [`AttributeValueAssertion`].
pub struct AttributeValueAssertionView {
    pub attribute_desc: Seq<char>,
    pub assertion_value: Seq<u8>,
}

/// View of [`MatchingRuleAssertion`].
pub struct MatchingRuleAssertionView {
    pub matching_rule: Option<Seq<char>>,
    pub rule_type: Option<Seq<char>>,
    pub assertion_value: Seq<u8>,
    pub dn_attributes: Option<bool>,
}

/// View of [`SubstringFilter`].
pub struct SubstringFilterView {
    pub filter_type: Seq<char>,
    pub substrings: Seq<SubstringView>,
}

/// View of [`Substring`].
pub enum SubstringView {
    Initial(Seq<u8>),
    Any(Seq<u8>),
    Final(Seq<u8>),
}

impl<'a> DeepView for AttributeValue<'a> {
    type V = Seq<u8>;

    open spec fn deep_view(&self) -> Seq<u8> {
        self.0@
    }
}

impl<'a> DeepView for AssertionValue<'a> {
    type V = Seq<u8>;

    open spec fn deep_view(&self) -> Seq<u8> {
        self.0@
    }
}

impl<'a> DeepView for AttributeDescription<'a> {
    type V = Seq<char>;

    open spec fn deep_view(&self) -> Seq<char> {
        self.0@
    }
}

impl<'a> DeepView for MatchingRuleId<'a> {
    type V = Seq<char>;

    open spec fn deep_view(&self) -> Seq<char> {
        self.0@
    }
}

impl<'a> DeepView for PartialAttribute<'a> {
    type V = PartialAttributeView;

    open spec fn deep_view(&self) -> PartialAttributeView {
        PartialAttributeView { attr_type: self.attr_type.deep_view(), attr_vals: self.attr_vals.deep_view() }
    }
}

impl<'a> DeepView for Attribute<'a> {
    type V = AttributeView;

    open spec fn deep_view(&self) -> AttributeView {
        AttributeView { attr_type: self.attr_type.deep_view(), attr_vals: self.attr_vals.deep_view() }
    }
}

impl<'a> DeepView for AttributeValueAssertion<'a> {
    type V = AttributeValueAssertionView;

    open spec fn deep_view(&self) -> AttributeValueAssertionView {
        AttributeValueAssertionView {
            attribute_desc: self.attribute_desc.deep_view(),
            assertion_value: self.assertion_value@,
        }
    }
}

impl<'a> DeepView for MatchingRuleAssertion<'a> {
    type V = MatchingRuleAssertionView;

    open spec fn deep_view(&self) -> MatchingRuleAssertionView {
        MatchingRuleAssertionView {
            matching_rule: self.matching_rule.deep_view(),
            rule_type: self.rule_type.deep_view(),
            assertion_value: self.assertion_value.deep_view(),
            dn_attributes: self.dn_attributes,
        }
    }
}

impl<'a> DeepView for Substring<'a> {
    type V = SubstringView;

    open spec fn deep_view(&self) -> SubstringView {
        match self {
            Substring::Initial(v) => SubstringView::Initial(v.deep_view()),
            Substring::Any(v) => SubstringView::Any(v.deep_view()),
            Substring::Final(v) => SubstringView::Final(v.deep_view()),
        }
    }
}

impl<'a> DeepView for SubstringFilter<'a> {
    type V = SubstringFilterView;

    open spec fn deep_view(&self) -> SubstringFilterView {
        SubstringFilterView { filter_type: self.filter_type.deep_view(), substrings: self.substrings.deep_view() }
    }
}

/// The views of the filters in `v`, in order.
pub open spec fn filter_views(v: Vec<Filter>) -> Seq<FilterView>
    decreases v, 1int,
{
    Seq::new(
        v.len() as nat,
        |i: int|
            if 0 <= i < v.len() {
                filter_view(v[i])
            } else {
                arbitrary()
            },
    )
}

/// The view of a filter: the same tree, with the views of its leaves.
pub open spec fn filter_view(f: Filter) -> FilterView
    decreases f, 0int,
{
    match f {
        Filter::And(v) => FilterView::And(filter_views(v)),
        Filter::Or(v) => FilterView::Or(filter_views(v)),
        Filter::Not(b) => FilterView::Not(Box::new(filter_view(*b))),
        Filter::EqualityMatch(a) => FilterView::EqualityMatch(a.deep_view()),
        Filter::Substrings(s) => FilterView::Substrings(s.deep_view()),
        Filter::GreaterOrEqual(a) => FilterView::GreaterOrEqual(a.deep_view()),
        Filter::LessOrEqual(a) => FilterView::LessOrEqual(a.deep_view()),
        Filter::Present(s) => FilterView::Present(s.deep_view()),
        Filter::ApproxMatch(a) => FilterView::ApproxMatch(a.deep_view()),
        Filter::ExtensibleMatch(m) => FilterView::ExtensibleMatch(m.deep_view()),
    }
}

impl<'a> DeepView for Filter<'a> {
    type V = FilterView;

    open spec fn deep_view(&self) -> FilterView {
        filter_view(*self)
    }
}

/// The deep view of a vector of filters is the sequence of their views.
pub proof fn lemma_filter_views(v: Vec<Filter>)
    ensures
        filter_views(v) == v.deep_view(),
{
    assert(filter_views(v) =~= v.deep_view());
}

impl Parts for PartialAttributeView {
    open spec fn within(self, input: Seq<u8>) -> bool {
        self.attr_type.within(input) && self.attr_vals.within(input)
    }

    proof fn lemma_within_part(self, part: Seq<u8>, input: Seq<u8>) {
        self.attr_type.lemma_within_part(part, input);
        self.attr_vals.lemma_within_part(part, input);
    }
}

impl Parts for AttributeView {
    open spec fn within(self, input: Seq<u8>) -> bool {
        self.attr_type.within(input) && self.attr_vals.within(input)
    }

    proof fn lemma_within_part(self, part: Seq<u8>, input: Seq<u8>) {
        self.attr_type.lemma_within_part(part, input);
        self.attr_vals.lemma_within_part(part, input);
    }
}

impl Parts for AttributeValueAssertionView {
    open spec fn within(self, input: Seq<u8>) -> bool {
        self.attribute_desc.within(input) && self.assertion_value.within(input)
    }

    proof fn lemma_within_part(self, part: Seq<u8>, input: Seq<u8>) {
        self.attribute_desc.lemma_within_part(part, input);
        self.assertion_value.lemma_within_part(part, input);
    }
}

impl Parts for MatchingRuleAssertionView {
    open spec fn within(self, input: Seq<u8>) -> bool {
        self.matching_rule.within(input) && self.rule_type.within(input) && self.assertion_value.within(input)
    }

    proof fn lemma_within_part(self, part: Seq<u8>, input: Seq<u8>) {
        self.matching_rule.lemma_within_part(part, input);
        self.rule_type.lemma_within_part(part, input);
        self.assertion_value.lemma_within_part(part, input);
    }
}

impl Parts for SubstringFilterView {
    open spec fn within(self, input: Seq<u8>) -> bool {
        self.filter_type.within(input) && self.substrings.within(input)
    }

    proof fn lemma_within_part(self, part: Seq<u8>, input: Seq<u8>) {
        self.filter_type.lemma_within_part(part, input);
        self.substrings.lemma_within_part(part, input);
    }
}

impl Parts for SubstringView {
    open spec fn within(self, input: Seq<u8>) -> bool {
        match self {
            SubstringView::Initial(x) => x.within(input),
            SubstringView::Any(x) => x.within(input),
            SubstringView::Final(x) => x.within(input),
        }
    }

    proof fn lemma_within_part(self, part: Seq<u8>, input: Seq<u8>) {
        match self {
            SubstringView::Initial(x) => {
                x.lemma_within_part(part, input);
            },
            SubstringView::Any(x) => {
                x.lemma_within_part(part, input);
            },
            SubstringView::Final(x) => {
                x.lemma_within_part(part, input);
            },
        }
    }
}

/// Every string and every octet string in the filter is a part of `input`.
pub open spec fn filter_within(f: FilterView, input: Seq<u8>) -> bool
    decreases f,
{
    match f {
        FilterView::And(subs) => forall|i: int| 0 <= i < subs.len() ==> filter_within(#[trigger] subs[i], input),
        FilterView::Or(subs) => forall|i: int| 0 <= i < subs.len() ==> filter_within(#[trigger] subs[i], input),
        FilterView::Not(g) => filter_within(*g, input),
        FilterView::EqualityMatch(a) => a.within(input),
        FilterView::Substrings(s) => s.within(input),
        FilterView::GreaterOrEqual(a) => a.within(input),
        FilterView::LessOrEqual(a) => a.within(input),
        FilterView::Present(s) => s.within(input),
        FilterView::ApproxMatch(a) => a.within(input),
        FilterView::ExtensibleMatch(m) => m.within(input),
    }
}

/// What holds of a filter in a part of a buffer holds of it in the buffer.
pub proof fn lemma_filter_within_part(f: FilterView, part: Seq<u8>, input: Seq<u8>)
    requires
        filter_within(f, part),
        is_part(part, input),
    ensures
        filter_within(f, input),
    decreases f,
{
    match f {
        FilterView::And(subs) => {
            assert forall|i: int| 0 <= i < subs.len() implies filter_within(#[trigger] subs[i], input) by {
                lemma_filter_within_part(subs[i], part, input);
            }
        },
        FilterView::Or(subs) => {
            assert forall|i: int| 0 <= i < subs.len() implies filter_within(#[trigger] subs[i], input) by {
                lemma_filter_within_part(subs[i], part, input);
            }
        },
        FilterView::Not(g) => {
            lemma_filter_within_part(*g, part, input);
        },
        FilterView::EqualityMatch(a) => {
            a.lemma_within_part(part, input);
        },
        FilterView::Substrings(s) => {
            s.lemma_within_part(part, input);
        },
        FilterView::GreaterOrEqual(a) => {
            a.lemma_within_part(part, input);
        },
        FilterView::LessOrEqual(a) => {
            a.lemma_within_part(part, input);
        },
        FilterView::Present(s) => {
            s.lemma_within_part(part, input);
        },
        FilterView::ApproxMatch(a) => {
            a.lemma_within_part(part, input);
        },
        FilterView::ExtensibleMatch(m) => {
            m.lemma_within_part(part, input);
        },
    }
}

impl Parts for FilterView {
    open spec fn within(self, input: Seq<u8>) -> bool {
        filter_within(self, input)
    }

    proof fn lemma_within_part(self, part: Seq<u8>, input: Seq<u8>) {
        lemma_filter_within_part(self, part, input);
    }
}

} // verus!
