//! Types of LDAP messages, with their mathematical views.

use crate::filter::{
    Attribute, AttributeValueAssertion, AttributeValueAssertionView, AttributeView, Filter,
    FilterView, PartialAttribute, PartialAttributeView,
};
use crate::error::Parts;
use std::borrow::Cow;
use vstd::prelude::*;

verus! {

/// `clone` of a `Cow` is declared so that types holding one can derive `Clone`;
/// nothing is claimed of the copy.
pub assume_specification<'a, B>[ <Cow<'a, B> as Clone>::clone ](c: &Cow<'a, B>) -> Cow<'a, B>
    where B: std::marker::MetaSized + std::borrow::ToOwned + ?Sized,
;

/// Application tag of a protocol operation.
#[derive(Debug, Default, PartialEq, Eq, PartialOrd, Ord, Clone, Copy)]
pub struct ProtocolOpTag(pub u32);

impl ProtocolOpTag {
    pub const BIND_REQUEST: u32 = 0;
    pub const BIND_RESPONSE: u32 = 1;
    pub const UNBIND_REQUEST: u32 = 2;
    pub const SEARCH_REQUEST: u32 = 3;
    pub const SEARCH_RESULT_ENTRY: u32 = 4;
    pub const SEARCH_RESULT_DONE: u32 = 5;
    pub const MODIFY_REQUEST: u32 = 6;
    pub const MODIFY_RESPONSE: u32 = 7;
    pub const ADD_REQUEST: u32 = 8;
    pub const ADD_RESPONSE: u32 = 9;
    pub const DEL_REQUEST: u32 = 10;
    pub const DEL_RESPONSE: u32 = 11;
    pub const MOD_DN_REQUEST: u32 = 12;
    pub const MOD_DN_RESPONSE: u32 = 13;
    pub const COMPARE_REQUEST: u32 = 14;
    pub const COMPARE_RESPONSE: u32 = 15;
    pub const ABANDON_REQUEST: u32 = 16;
    pub const SEARCH_RESULT_REFERENCE: u32 = 19;
    pub const EXTENDED_REQUEST: u32 = 23;
    pub const EXTENDED_RESPONSE: u32 = 24;
    pub const INTERMEDIATE_RESPONSE: u32 = 25;
}

/// Result code of an operation.
#[derive(Debug, Default, PartialEq, Eq, PartialOrd, Ord, Clone, Copy)]
pub struct ResultCode(pub u32);

impl ResultCode {
    pub const SUCCESS: u32 = 0;
    pub const OPERATIONS_ERROR: u32 = 1;
    pub const PROTOCOL_ERROR: u32 = 2;
    pub const TIME_LIMIT_EXCEEDED: u32 = 3;
    pub const SIZE_LIMIT_EXCEEDED: u32 = 4;
    pub const COMPARE_FALSE: u32 = 5;
    pub const COMPARE_TRUE: u32 = 6;
    pub const AUTH_METHOD_NOT_SUPPORTED: u32 = 7;
    pub const STRONGER_AUTH_REQUIRED: u32 = 8;
    pub const REFERRAL: u32 = 10;
    pub const ADMIN_LIMIT_EXCEEDED: u32 = 11;
    pub const UNAVAILABLE_CRITICAL_EXTENSION: u32 = 12;
    pub const CONFIDENTIALITY_REQUIRED: u32 = 13;
    pub const SASL_BIND_IN_PROGRESS: u32 = 14;
    pub const NO_SUCH_ATTRIBUTE: u32 = 16;
    pub const UNDEFINED_ATTRIBUTE_TYPE: u32 = 17;
    pub const INAPPROPRIATE_MATCHING: u32 = 18;
    pub const CONSTRAINT_VIOLATION: u32 = 19;
    pub const ATTRIBUTE_OR_VALUE_EXISTS: u32 = 20;
    pub const INVALID_ATTRIBUTE_SYNTAX: u32 = 21;
    pub const NO_SUCH_OBJECT: u32 = 32;
    pub const ALIAS_PROBLEM: u32 = 33;
    pub const INVALID_DN_SYNTAX: u32 = 34;
    pub const ALIAS_DEREFERENCING_PROBLEM: u32 = 36;
    pub const INAPPROPRIATE_AUTHENTICATION: u32 = 48;
    pub const INVALID_CREDENTIALS: u32 = 49;
    pub const INSUFFICIENT_ACCESS_RIGHTS: u32 = 50;
    pub const BUSY: u32 = 51;
    pub const UNAVAILABLE: u32 = 52;
    pub const UNWILLING_TO_PERFORM: u32 = 53;
    pub const LOOP_DETECT: u32 = 54;
    pub const NAMING_VIOLATION: u32 = 64;
    pub const OBJECT_CLASS_VIOLATION: u32 = 65;
    pub const NOT_ALLOWED_ON_NON_LEAF: u32 = 66;
    pub const NOT_ALLOWED_ON_R_DN: u32 = 67;
    pub const ENTRY_ALREADY_EXISTS: u32 = 68;
    pub const OBJECT_CLASS_MODS_PROHIBITED: u32 = 69;
    pub const AFFECTS_MULTIPLE_DSAS: u32 = 71;
    pub const OTHER: u32 = 80;
}

/// Identifier of a message within a session.
#[derive(Debug, PartialEq, Eq, PartialOrd, Ord, Clone, Copy)]
pub struct MessageID(pub u32);

/// Scope of a search.
#[derive(Debug, PartialEq, Eq, Clone, Copy)]
pub struct SearchScope(pub u32);

impl SearchScope {
    pub const BASE_OBJECT: u32 = 0;
    pub const SINGLE_LEVEL: u32 = 1;
    pub const WHOLE_SUBTREE: u32 = 2;
}

/// How aliases are dereferenced during a search.
#[derive(Debug, PartialEq, Eq, Clone, Copy)]
pub struct DerefAliases(pub u32);

impl DerefAliases {
    pub const NEVER_DEREF_ALIASES: u32 = 0;
    pub const DEREF_IN_SEARCHING: u32 = 1;
    pub const DEREF_FINDING_BASE_OBJ: u32 = 2;
    pub const DEREF_ALWAYS: u32 = 3;
}

/// Kind of a modification.
#[derive(Debug, PartialEq, Eq, Clone, Copy)]
pub struct Operation(pub u32);

impl Operation {
    pub const ADD: u32 = 0;
    pub const DELETE: u32 = 1;
    pub const REPLACE: u32 = 2;
}

#[derive(Clone, Debug, Eq, PartialEq)]
pub struct LdapString<'a>(pub Cow<'a, str>);

#[derive(Clone, Debug, Eq, PartialEq)]
pub struct LdapDN<'a>(pub Cow<'a, str>);

#[derive(Clone, Debug, Eq, PartialEq)]
pub struct RelativeLdapDN<'a>(pub Cow<'a, str>);

#[derive(Clone, Debug, Eq, PartialEq)]
pub struct LdapOID<'a>(pub Cow<'a, str>);

#[derive(Clone, Debug, Eq, PartialEq)]
pub struct LdapResult<'a> {
    pub result_code: ResultCode,
    pub matched_dn: LdapDN<'a>,
    pub diagnostic_message: LdapString<'a>,
}

#[derive(Clone, Debug, Eq, PartialEq)]
pub struct BindRequest<'a> {
    pub version: u8,
    pub name: LdapDN<'a>,
    pub authentication: AuthenticationChoice<'a>,
}

#[derive(Clone, Debug, Eq, PartialEq)]
pub struct SaslCredentials<'a> {
    pub mechanism: LdapString<'a>,
    pub credentials: Option<Cow<'a, [u8]>>,
}

#[derive(Clone, Debug, Eq, PartialEq)]
pub enum AuthenticationChoice<'a> {
    Simple(Cow<'a, [u8]>),
    Sasl(SaslCredentials<'a>),
}

#[derive(Clone, Debug, Eq, PartialEq)]
pub struct BindResponse<'a> {
    pub result: LdapResult<'a>,
    pub server_sasl_creds: Option<Cow<'a, [u8]>>,
}

#[derive(Clone, Debug, Eq, PartialEq)]
pub struct SearchRequest<'a> {
    pub base_object: LdapDN<'a>,
    pub scope: SearchScope,
    pub deref_aliases: DerefAliases,
    pub size_limit: u32,
    pub time_limit: u32,
    pub types_only: bool,
    pub filter: Filter<'a>,
    pub attributes: Vec<LdapString<'a>>,
}

#[derive(Clone, Debug, Eq, PartialEq)]
pub struct SearchResultEntry<'a> {
    pub object_name: LdapDN<'a>,
    pub attributes: Vec<PartialAttribute<'a>>,
}

#[derive(Clone, Debug, Eq, PartialEq)]
pub struct ModifyRequest<'a> {
    pub object: LdapDN<'a>,
    pub changes: Vec<Change<'a>>,
}

#[derive(Clone, Debug, Eq, PartialEq)]
pub struct ModifyResponse<'a> {
    pub result: LdapResult<'a>,
}

#[derive(Clone, Debug, Eq, PartialEq)]
pub struct Change<'a> {
    pub operation: Operation,
    pub modification: PartialAttribute<'a>,
}

#[derive(Clone, Debug, Eq, PartialEq)]
pub struct AddRequest<'a> {
    pub entry: LdapDN<'a>,
    pub attributes: Vec<Attribute<'a>>,
}

#[derive(Clone, Debug, Eq, PartialEq)]
pub struct ModDnRequest<'a> {
    pub entry: LdapDN<'a>,
    pub newrdn: RelativeLdapDN<'a>,
    pub deleteoldrdn: bool,
    pub newsuperior: Option<LdapDN<'a>>,
}

#[derive(Clone, Debug, Eq, PartialEq)]
pub struct CompareRequest<'a> {
    pub entry: LdapDN<'a>,
    pub ava: AttributeValueAssertion<'a>,
}

#[derive(Clone, Debug, Eq, PartialEq)]
pub struct ExtendedRequest<'a> {
    pub request_name: LdapOID<'a>,
    pub request_value: Option<Cow<'a, [u8]>>,
}

#[derive(Clone, Debug, Eq, PartialEq)]
pub struct ExtendedResponse<'a> {
    pub result: LdapResult<'a>,
    pub response_name: Option<LdapOID<'a>>,
    pub response_value: Option<Cow<'a, [u8]>>,
}

#[derive(Clone, Debug, Eq, PartialEq)]
pub struct IntermediateResponse<'a> {
    pub response_name: Option<LdapOID<'a>>,
    pub response_value: Option<Cow<'a, [u8]>>,
}

/// The operation that a message carries.
#[derive(Clone, Debug, Eq, PartialEq)]
pub enum ProtocolOp<'a> {
    BindRequest(BindRequest<'a>),
    BindResponse(BindResponse<'a>),
    UnbindRequest,
    SearchRequest(SearchRequest<'a>),
    SearchResultEntry(SearchResultEntry<'a>),
    SearchResultDone(LdapResult<'a>),
    SearchResultReference(Vec<LdapString<'a>>),
    ModifyRequest(ModifyRequest<'a>),
    ModifyResponse(ModifyResponse<'a>),
    AddRequest(AddRequest<'a>),
    AddResponse(LdapResult<'a>),
    DelRequest(LdapDN<'a>),
    DelResponse(LdapResult<'a>),
    ModDnRequest(ModDnRequest<'a>),
    ModDnResponse(LdapResult<'a>),
    CompareRequest(CompareRequest<'a>),
    CompareResponse(LdapResult<'a>),
    AbandonRequest(MessageID),
    ExtendedRequest(ExtendedRequest<'a>),
    ExtendedResponse(ExtendedResponse<'a>),
    IntermediateResponse(IntermediateResponse<'a>),
}

#[derive(Clone, Debug, Eq, PartialEq)]
pub struct Control<'a> {
    pub control_type: LdapOID<'a>,
    pub criticality: bool,
    pub control_value: Option<Cow<'a, [u8]>>,
}

/// An LDAP message: identifier, operation and optional controls.
#[derive(Clone, Debug, Eq, PartialEq)]
pub struct LdapMessage<'a> {
    /// Message identifier; zero is kept for unsolicited notifications.
    pub message_id: MessageID,
    /// The operation of this message.
    pub protocol_op: ProtocolOp<'a>,
    /// Controls attached to the message, if any.
    pub controls: Option<Vec<Control<'a>>>,
}

/// The view of optional octets.
pub open spec fn opt_bytes(b: Option<Cow<[u8]>>) -> Option<Seq<u8>> {
    match b {
        Some(c) => Some(c@),
        None => None,
    }
}

impl<'a> DeepView for LdapString<'a> {
    type V = Seq<char>;

    open spec fn deep_view(&self) -> Seq<char> {
        self.0@
    }
}

impl<'a> DeepView for LdapDN<'a> {
    type V = Seq<char>;

    open spec fn deep_view(&self) -> Seq<char> {
        self.0@
    }
}

impl<'a> DeepView for RelativeLdapDN<'a> {
    type V = Seq<char>;

    open spec fn deep_view(&self) -> Seq<char> {
        self.0@
    }
}

impl<'a> DeepView for LdapOID<'a> {
    type V = Seq<char>;

    open spec fn deep_view(&self) -> Seq<char> {
        self.0@
    }
}

impl DeepView for ProtocolOpTag {
    type V = ProtocolOpTag;

    open spec fn deep_view(&self) -> ProtocolOpTag {
        *self
    }
}

impl DeepView for ResultCode {
    type V = ResultCode;

    open spec fn deep_view(&self) -> ResultCode {
        *self
    }
}

impl DeepView for MessageID {
    type V = MessageID;

    open spec fn deep_view(&self) -> MessageID {
        *self
    }
}

impl DeepView for SearchScope {
    type V = SearchScope;

    open spec fn deep_view(&self) -> SearchScope {
        *self
    }
}

impl DeepView for DerefAliases {
    type V = DerefAliases;

    open spec fn deep_view(&self) -> DerefAliases {
        *self
    }
}

impl DeepView for Operation {
    type V = Operation;

    open spec fn deep_view(&self) -> Operation {
        *self
    }
}

/// View of [`LdapResult`].
pub struct LdapResultView {
    pub result_code: ResultCode,
    pub matched_dn: Seq<char>,
    pub diagnostic_message: Seq<char>,
}

impl<'a> DeepView for LdapResult<'a> {
    type V = LdapResultView;

    open spec fn deep_view(&self) -> LdapResultView {
        LdapResultView {
            result_code: self.result_code,
            matched_dn: self.matched_dn.deep_view(),
            diagnostic_message: self.diagnostic_message.deep_view(),
        }
    }
}

/// View of [`BindRequest`].
pub struct BindRequestView {
    pub version: u8,
    pub name: Seq<char>,
    pub authentication: AuthenticationChoiceView,
}

impl<'a> DeepView for BindRequest<'a> {
    type V = BindRequestView;

    open spec fn deep_view(&self) -> BindRequestView {
        BindRequestView {
            version: self.version,
            name: self.name.deep_view(),
            authentication: self.authentication.deep_view(),
        }
    }
}

/// View of [`SaslCredentials`].
pub struct SaslCredentialsView {
    pub mechanism: Seq<char>,
    pub credentials: Option<Seq<u8>>,
}

impl<'a> DeepView for SaslCredentials<'a> {
    type V = SaslCredentialsView;

    open spec fn deep_view(&self) -> SaslCredentialsView {
        SaslCredentialsView {
            mechanism: self.mechanism.deep_view(),
            credentials: opt_bytes(self.credentials),
        }
    }
}

/// View of [`BindResponse`].
pub struct BindResponseView {
    pub result: LdapResultView,
    pub server_sasl_creds: Option<Seq<u8>>,
}

impl<'a> DeepView for BindResponse<'a> {
    type V = BindResponseView;

    open spec fn deep_view(&self) -> BindResponseView {
        BindResponseView {
            result: self.result.deep_view(),
            server_sasl_creds: opt_bytes(self.server_sasl_creds),
        }
    }
}

/// View of [`SearchRequest`].
pub struct SearchRequestView {
    pub base_object: Seq<char>,
    pub scope: SearchScope,
    pub deref_aliases: DerefAliases,
    pub size_limit: u32,
    pub time_limit: u32,
    pub types_only: bool,
    pub filter: FilterView,
    pub attributes: Seq<Seq<char>>,
}

impl<'a> DeepView for SearchRequest<'a> {
    type V = SearchRequestView;

    open spec fn deep_view(&self) -> SearchRequestView {
        SearchRequestView {
            base_object: self.base_object.deep_view(),
            scope: self.scope,
            deref_aliases: self.deref_aliases,
            size_limit: self.size_limit,
            time_limit: self.time_limit,
            types_only: self.types_only,
            filter: self.filter.deep_view(),
            attributes: self.attributes.deep_view(),
        }
    }
}

/// View of [`SearchResultEntry`].
pub struct SearchResultEntryView {
    pub object_name: Seq<char>,
    pub attributes: Seq<PartialAttributeView>,
}

impl<'a> DeepView for SearchResultEntry<'a> {
    type V = SearchResultEntryView;

    open spec fn deep_view(&self) -> SearchResultEntryView {
        SearchResultEntryView {
            object_name: self.object_name.deep_view(),
            attributes: self.attributes.deep_view(),
        }
    }
}

/// View of [`ModifyRequest`].
pub struct ModifyRequestView {
    pub object: Seq<char>,
    pub changes: Seq<ChangeView>,
}

impl<'a> DeepView for ModifyRequest<'a> {
    type V = ModifyRequestView;

    open spec fn deep_view(&self) -> ModifyRequestView {
        ModifyRequestView {
            object: self.object.deep_view(),
            changes: self.changes.deep_view(),
        }
    }
}

/// View of [`ModifyResponse`].
pub struct ModifyResponseView {
    pub result: LdapResultView,
}

impl<'a> DeepView for ModifyResponse<'a> {
    type V = ModifyResponseView;

    open spec fn deep_view(&self) -> ModifyResponseView {
        ModifyResponseView {
            result: self.result.deep_view(),
        }
    }
}

/// View of [`Change`].
pub struct ChangeView {
    pub operation: Operation,
    pub modification: PartialAttributeView,
}

impl<'a> DeepView for Change<'a> {
    type V = ChangeView;

    open spec fn deep_view(&self) -> ChangeView {
        ChangeView {
            operation: self.operation,
            modification: self.modification.deep_view(),
        }
    }
}

/// View of [`AddRequest`].
pub struct AddRequestView {
    pub entry: Seq<char>,
    pub attributes: Seq<AttributeView>,
}

impl<'a> DeepView for AddRequest<'a> {
    type V = AddRequestView;

    open spec fn deep_view(&self) -> AddRequestView {
        AddRequestView {
            entry: self.entry.deep_view(),
            attributes: self.attributes.deep_view(),
        }
    }
}

/// View of [`ModDnRequest`].
pub struct ModDnRequestView {
    pub entry: Seq<char>,
    pub newrdn: Seq<char>,
    pub deleteoldrdn: bool,
    pub newsuperior: Option<Seq<char>>,
}

impl<'a> DeepView for ModDnRequest<'a> {
    type V = ModDnRequestView;

    open spec fn deep_view(&self) -> ModDnRequestView {
        ModDnRequestView {
            entry: self.entry.deep_view(),
            newrdn: self.newrdn.deep_view(),
            deleteoldrdn: self.deleteoldrdn,
            newsuperior: self.newsuperior.deep_view(),
        }
    }
}

/// View of [`CompareRequest`].
pub struct CompareRequestView {
    pub entry: Seq<char>,
    pub ava: AttributeValueAssertionView,
}

impl<'a> DeepView for CompareRequest<'a> {
    type V = CompareRequestView;

    open spec fn deep_view(&self) -> CompareRequestView {
        CompareRequestView {
            entry: self.entry.deep_view(),
            ava: self.ava.deep_view(),
        }
    }
}

/// View of [`ExtendedRequest`].
pub struct ExtendedRequestView {
    pub request_name: Seq<char>,
    pub request_value: Option<Seq<u8>>,
}

impl<'a> DeepView for ExtendedRequest<'a> {
    type V = ExtendedRequestView;

    open spec fn deep_view(&self) -> ExtendedRequestView {
        ExtendedRequestView {
            request_name: self.request_name.deep_view(),
            request_value: opt_bytes(self.request_value),
        }
    }
}

/// View of [`ExtendedResponse`].
pub struct ExtendedResponseView {
    pub result: LdapResultView,
    pub response_name: Option<Seq<char>>,
    pub response_value: Option<Seq<u8>>,
}

impl<'a> DeepView for ExtendedResponse<'a> {
    type V = ExtendedResponseView;

    open spec fn deep_view(&self) -> ExtendedResponseView {
        ExtendedResponseView {
            result: self.result.deep_view(),
            response_name: self.response_name.deep_view(),
            response_value: opt_bytes(self.response_value),
        }
    }
}

/// View of [`IntermediateResponse`].
pub struct IntermediateResponseView {
    pub response_name: Option<Seq<char>>,
    pub response_value: Option<Seq<u8>>,
}

impl<'a> DeepView for IntermediateResponse<'a> {
    type V = IntermediateResponseView;

    open spec fn deep_view(&self) -> IntermediateResponseView {
        IntermediateResponseView {
            response_name: self.response_name.deep_view(),
            response_value: opt_bytes(self.response_value),
        }
    }
}

/// View of [`Control`].
pub struct ControlView {
    pub control_type: Seq<char>,
    pub criticality: bool,
    pub control_value: Option<Seq<u8>>,
}

impl<'a> DeepView for Control<'a> {
    type V = ControlView;

    open spec fn deep_view(&self) -> ControlView {
        ControlView {
            control_type: self.control_type.deep_view(),
            criticality: self.criticality,
            control_value: opt_bytes(self.control_value),
        }
    }
}

/// View of [`LdapMessage`].
pub struct LdapMessageView {
    pub message_id: MessageID,
    pub protocol_op: ProtocolOpView,
    pub controls: Option<Seq<ControlView>>,
}

impl<'a> DeepView for LdapMessage<'a> {
    type V = LdapMessageView;

    open spec fn deep_view(&self) -> LdapMessageView {
        LdapMessageView {
            message_id: self.message_id,
            protocol_op: self.protocol_op.deep_view(),
            controls: self.controls.deep_view(),
        }
    }
}

/// View of [`AuthenticationChoice`].
pub enum AuthenticationChoiceView {
    Simple(Seq<u8>),
    Sasl(SaslCredentialsView),
}

impl<'a> DeepView for AuthenticationChoice<'a> {
    type V = AuthenticationChoiceView;

    open spec fn deep_view(&self) -> AuthenticationChoiceView {
        match self {
            AuthenticationChoice::Simple(b) => AuthenticationChoiceView::Simple(b@),
            AuthenticationChoice::Sasl(c) => AuthenticationChoiceView::Sasl(c.deep_view()),
        }
    }
}

/// View of [`ProtocolOp`].
pub enum ProtocolOpView {
    BindRequest(BindRequestView),
    BindResponse(BindResponseView),
    UnbindRequest,
    SearchRequest(SearchRequestView),
    SearchResultEntry(SearchResultEntryView),
    SearchResultDone(LdapResultView),
    SearchResultReference(Seq<Seq<char>>),
    ModifyRequest(ModifyRequestView),
    ModifyResponse(ModifyResponseView),
    AddRequest(AddRequestView),
    AddResponse(LdapResultView),
    DelRequest(Seq<char>),
    DelResponse(LdapResultView),
    ModDnRequest(ModDnRequestView),
    ModDnResponse(LdapResultView),
    CompareRequest(CompareRequestView),
    CompareResponse(LdapResultView),
    AbandonRequest(MessageID),
    ExtendedRequest(ExtendedRequestView),
    ExtendedResponse(ExtendedResponseView),
    IntermediateResponse(IntermediateResponseView),
}

impl<'a> DeepView for ProtocolOp<'a> {
    type V = ProtocolOpView;

    open spec fn deep_view(&self) -> ProtocolOpView {
        match self {
            ProtocolOp::BindRequest(x) => ProtocolOpView::BindRequest(x.deep_view()),
            ProtocolOp::BindResponse(x) => ProtocolOpView::BindResponse(x.deep_view()),
            ProtocolOp::UnbindRequest => ProtocolOpView::UnbindRequest,
            ProtocolOp::SearchRequest(x) => ProtocolOpView::SearchRequest(x.deep_view()),
            ProtocolOp::SearchResultEntry(x) => ProtocolOpView::SearchResultEntry(x.deep_view()),
            ProtocolOp::SearchResultDone(x) => ProtocolOpView::SearchResultDone(x.deep_view()),
            ProtocolOp::SearchResultReference(x) => ProtocolOpView::SearchResultReference(x.deep_view()),
            ProtocolOp::ModifyRequest(x) => ProtocolOpView::ModifyRequest(x.deep_view()),
            ProtocolOp::ModifyResponse(x) => ProtocolOpView::ModifyResponse(x.deep_view()),
            ProtocolOp::AddRequest(x) => ProtocolOpView::AddRequest(x.deep_view()),
            ProtocolOp::AddResponse(x) => ProtocolOpView::AddResponse(x.deep_view()),
            ProtocolOp::DelRequest(x) => ProtocolOpView::DelRequest(x.deep_view()),
            ProtocolOp::DelResponse(x) => ProtocolOpView::DelResponse(x.deep_view()),
            ProtocolOp::ModDnRequest(x) => ProtocolOpView::ModDnRequest(x.deep_view()),
            ProtocolOp::ModDnResponse(x) => ProtocolOpView::ModDnResponse(x.deep_view()),
            ProtocolOp::CompareRequest(x) => ProtocolOpView::CompareRequest(x.deep_view()),
            ProtocolOp::CompareResponse(x) => ProtocolOpView::CompareResponse(x.deep_view()),
            ProtocolOp::AbandonRequest(x) => ProtocolOpView::AbandonRequest(x.deep_view()),
            ProtocolOp::ExtendedRequest(x) => ProtocolOpView::ExtendedRequest(x.deep_view()),
            ProtocolOp::ExtendedResponse(x) => ProtocolOpView::ExtendedResponse(x.deep_view()),
            ProtocolOp::IntermediateResponse(x) => ProtocolOpView::IntermediateResponse(x.deep_view()),
        }
    }
}

impl ProtocolOpView {
    /// The application tag number of the operation.
    pub open spec fn tag(self) -> u32 {
        match self {
            ProtocolOpView::BindRequest(_) => 0,
            ProtocolOpView::BindResponse(_) => 1,
            ProtocolOpView::UnbindRequest => 2,
            ProtocolOpView::SearchRequest(_) => 3,
            ProtocolOpView::SearchResultEntry(_) => 4,
            ProtocolOpView::SearchResultDone(_) => 5,
            ProtocolOpView::SearchResultReference(_) => 19,
            ProtocolOpView::ModifyRequest(_) => 6,
            ProtocolOpView::ModifyResponse(_) => 7,
            ProtocolOpView::AddRequest(_) => 8,
            ProtocolOpView::AddResponse(_) => 9,
            ProtocolOpView::DelRequest(_) => 10,
            ProtocolOpView::DelResponse(_) => 11,
            ProtocolOpView::ModDnRequest(_) => 12,
            ProtocolOpView::ModDnResponse(_) => 13,
            ProtocolOpView::CompareRequest(_) => 14,
            ProtocolOpView::CompareResponse(_) => 15,
            ProtocolOpView::AbandonRequest(_) => 16,
            ProtocolOpView::ExtendedRequest(_) => 23,
            ProtocolOpView::ExtendedResponse(_) => 24,
            ProtocolOpView::IntermediateResponse(_) => 25,
        }
    }

    /// The result that the operation carries, if it is a response with one.
    pub open spec fn result(self) -> Option<LdapResultView> {
        match self {
            ProtocolOpView::BindResponse(r) => Some(r.result),
            ProtocolOpView::ModifyResponse(r) => Some(r.result),
            ProtocolOpView::ExtendedResponse(r) => Some(r.result),
            ProtocolOpView::SearchResultDone(r) => Some(r),
            ProtocolOpView::AddResponse(r) => Some(r),
            ProtocolOpView::DelResponse(r) => Some(r),
            ProtocolOpView::ModDnResponse(r) => Some(r),
            ProtocolOpView::CompareResponse(r) => Some(r),
            _ => None,
        }
    }
}

impl<'a> ProtocolOp<'a> {
    /// Get tag number associated with the operation
    pub fn tag(&self) -> (t: ProtocolOpTag)
        ensures
            t.0 == self.deep_view().tag(),
    {
        let op: u32 = match self {
            ProtocolOp::BindRequest(_) => 0,
            ProtocolOp::BindResponse(_) => 1,
            ProtocolOp::UnbindRequest => 2,
            ProtocolOp::SearchRequest(_) => 3,
            ProtocolOp::SearchResultEntry(_) => 4,
            ProtocolOp::SearchResultDone(_) => 5,
            ProtocolOp::SearchResultReference(_) => 19,
            ProtocolOp::ModifyRequest(_) => 6,
            ProtocolOp::ModifyResponse(_) => 7,
            ProtocolOp::AddRequest(_) => 8,
            ProtocolOp::AddResponse(_) => 9,
            ProtocolOp::DelRequest(_) => 10,
            ProtocolOp::DelResponse(_) => 11,
            ProtocolOp::ModDnRequest(_) => 12,
            ProtocolOp::ModDnResponse(_) => 13,
            ProtocolOp::CompareRequest(_) => 14,
            ProtocolOp::CompareResponse(_) => 15,
            ProtocolOp::AbandonRequest(_) => 16,
            ProtocolOp::ExtendedRequest(_) => 23,
            ProtocolOp::ExtendedResponse(_) => 24,
            ProtocolOp::IntermediateResponse(_) => 25,
        };
        ProtocolOpTag(op)
    }

    /// Get the LDAP result, if present
    pub fn result(&self) -> (r: Option<&LdapResult<'a>>)
        ensures
            r.deep_view() == self.deep_view().result(),
    {
        match self {
            ProtocolOp::BindResponse(r) => Some(&r.result),
            ProtocolOp::ModifyResponse(r) => Some(&r.result),
            ProtocolOp::ExtendedResponse(r) => Some(&r.result),
            ProtocolOp::SearchResultDone(r) => Some(r),
            ProtocolOp::AddResponse(r) => Some(r),
            ProtocolOp::DelResponse(r) => Some(r),
            ProtocolOp::ModDnResponse(r) => Some(r),
            ProtocolOp::CompareResponse(r) => Some(r),
            _ => None,
        }
    }
}

impl Parts for ProtocolOpTag {
    open spec fn within(self, input: Seq<u8>) -> bool {
        true
    }

    proof fn lemma_within_part(self, part: Seq<u8>, input: Seq<u8>) {
    }
}

impl Parts for ResultCode {
    open spec fn within(self, input: Seq<u8>) -> bool {
        true
    }

    proof fn lemma_within_part(self, part: Seq<u8>, input: Seq<u8>) {
    }
}

impl Parts for MessageID {
    open spec fn within(self, input: Seq<u8>) -> bool {
        true
    }

    proof fn lemma_within_part(self, part: Seq<u8>, input: Seq<u8>) {
    }
}

impl Parts for SearchScope {
    open spec fn within(self, input: Seq<u8>) -> bool {
        true
    }

    proof fn lemma_within_part(self, part: Seq<u8>, input: Seq<u8>) {
    }
}

impl Parts for DerefAliases {
    open spec fn within(self, input: Seq<u8>) -> bool {
        true
    }

    proof fn lemma_within_part(self, part: Seq<u8>, input: Seq<u8>) {
    }
}

impl Parts for Operation {
    open spec fn within(self, input: Seq<u8>) -> bool {
        true
    }

    proof fn lemma_within_part(self, part: Seq<u8>, input: Seq<u8>) {
    }
}

impl Parts for LdapResultView {
    open spec fn within(self, input: Seq<u8>) -> bool {
        self.matched_dn.within(input) && self.diagnostic_message.within(input)
    }

    proof fn lemma_within_part(self, part: Seq<u8>, input: Seq<u8>) {
        self.matched_dn.lemma_within_part(part, input);
        self.diagnostic_message.lemma_within_part(part, input);
    }
}

impl Parts for BindRequestView {
    open spec fn within(self, input: Seq<u8>) -> bool {
        self.name.within(input) && self.authentication.within(input)
    }

    proof fn lemma_within_part(self, part: Seq<u8>, input: Seq<u8>) {
        self.name.lemma_within_part(part, input);
        self.authentication.lemma_within_part(part, input);
    }
}

impl Parts for SaslCredentialsView {
    open spec fn within(self, input: Seq<u8>) -> bool {
        self.mechanism.within(input) && self.credentials.within(input)
    }

    proof fn lemma_within_part(self, part: Seq<u8>, input: Seq<u8>) {
        self.mechanism.lemma_within_part(part, input);
        self.credentials.lemma_within_part(part, input);
    }
}

impl Parts for BindResponseView {
    open spec fn within(self, input: Seq<u8>) -> bool {
        self.result.within(input) && self.server_sasl_creds.within(input)
    }

    proof fn lemma_within_part(self, part: Seq<u8>, input: Seq<u8>) {
        self.result.lemma_within_part(part, input);
        self.server_sasl_creds.lemma_within_part(part, input);
    }
}

impl Parts for SearchRequestView {
    open spec fn within(self, input: Seq<u8>) -> bool {
        self.base_object.within(input) && self.filter.within(input) && self.attributes.within(input)
    }

    proof fn lemma_within_part(self, part: Seq<u8>, input: Seq<u8>) {
        self.base_object.lemma_within_part(part, input);
        self.filter.lemma_within_part(part, input);
        self.attributes.lemma_within_part(part, input);
    }
}

impl Parts for SearchResultEntryView {
    open spec fn within(self, input: Seq<u8>) -> bool {
        self.object_name.within(input) && self.attributes.within(input)
    }

    proof fn lemma_within_part(self, part: Seq<u8>, input: Seq<u8>) {
        self.object_name.lemma_within_part(part, input);
        self.attributes.lemma_within_part(part, input);
    }
}

impl Parts for ModifyRequestView {
    open spec fn within(self, input: Seq<u8>) -> bool {
        self.object.within(input) && self.changes.within(input)
    }

    proof fn lemma_within_part(self, part: Seq<u8>, input: Seq<u8>) {
        self.object.lemma_within_part(part, input);
        self.changes.lemma_within_part(part, input);
    }
}

impl Parts for ModifyResponseView {
    open spec fn within(self, input: Seq<u8>) -> bool {
        self.result.within(input)
    }

    proof fn lemma_within_part(self, part: Seq<u8>, input: Seq<u8>) {
        self.result.lemma_within_part(part, input);
    }
}

impl Parts for ChangeView {
    open spec fn within(self, input: Seq<u8>) -> bool {
        self.modification.within(input)
    }

    proof fn lemma_within_part(self, part: Seq<u8>, input: Seq<u8>) {
        self.modification.lemma_within_part(part, input);
    }
}

impl Parts for AddRequestView {
    open spec fn within(self, input: Seq<u8>) -> bool {
        self.entry.within(input) && self.attributes.within(input)
    }

    proof fn lemma_within_part(self, part: Seq<u8>, input: Seq<u8>) {
        self.entry.lemma_within_part(part, input);
        self.attributes.lemma_within_part(part, input);
    }
}

impl Parts for ModDnRequestView {
    open spec fn within(self, input: Seq<u8>) -> bool {
        self.entry.within(input) && self.newrdn.within(input) && self.newsuperior.within(input)
    }

    proof fn lemma_within_part(self, part: Seq<u8>, input: Seq<u8>) {
        self.entry.lemma_within_part(part, input);
        self.newrdn.lemma_within_part(part, input);
        self.newsuperior.lemma_within_part(part, input);
    }
}

impl Parts for CompareRequestView {
    open spec fn within(self, input: Seq<u8>) -> bool {
        self.entry.within(input) && self.ava.within(input)
    }

    proof fn lemma_within_part(self, part: Seq<u8>, input: Seq<u8>) {
        self.entry.lemma_within_part(part, input);
        self.ava.lemma_within_part(part, input);
    }
}

impl Parts for ExtendedRequestView {
    open spec fn within(self, input: Seq<u8>) -> bool {
        self.request_name.within(input) && self.request_value.within(input)
    }

    proof fn lemma_within_part(self, part: Seq<u8>, input: Seq<u8>) {
        self.request_name.lemma_within_part(part, input);
        self.request_value.lemma_within_part(part, input);
    }
}

impl Parts for ExtendedResponseView {
    open spec fn within(self, input: Seq<u8>) -> bool {
        self.result.within(input) && self.response_name.within(input) && self.response_value.within(input)
    }

    proof fn lemma_within_part(self, part: Seq<u8>, input: Seq<u8>) {
        self.result.lemma_within_part(part, input);
        self.response_name.lemma_within_part(part, input);
        self.response_value.lemma_within_part(part, input);
    }
}

impl Parts for IntermediateResponseView {
    open spec fn within(self, input: Seq<u8>) -> bool {
        self.response_name.within(input) && self.response_value.within(input)
    }

    proof fn lemma_within_part(self, part: Seq<u8>, input: Seq<u8>) {
        self.response_name.lemma_within_part(part, input);
        self.response_value.lemma_within_part(part, input);
    }
}

impl Parts for ControlView {
    open spec fn within(self, input: Seq<u8>) -> bool {
        self.control_type.within(input) && self.control_value.within(input)
    }

    proof fn lemma_within_part(self, part: Seq<u8>, input: Seq<u8>) {
        self.control_type.lemma_within_part(part, input);
        self.control_value.lemma_within_part(part, input);
    }
}

impl Parts for LdapMessageView {
    open spec fn within(self, input: Seq<u8>) -> bool {
        self.protocol_op.within(input) && self.controls.within(input)
    }

    proof fn lemma_within_part(self, part: Seq<u8>, input: Seq<u8>) {
        self.protocol_op.lemma_within_part(part, input);
        self.controls.lemma_within_part(part, input);
    }
}

impl Parts for AuthenticationChoiceView {
    open spec fn within(self, input: Seq<u8>) -> bool {
        match self {
            AuthenticationChoiceView::Simple(x) => x.within(input),
            AuthenticationChoiceView::Sasl(x) => x.within(input),
        }
    }

    proof fn lemma_within_part(self, part: Seq<u8>, input: Seq<u8>) {
        match self {
            AuthenticationChoiceView::Simple(x) => {
                x.lemma_within_part(part, input);
            },
            AuthenticationChoiceView::Sasl(x) => {
                x.lemma_within_part(part, input);
            },
        }
    }
}

impl Parts for ProtocolOpView {
    open spec fn within(self, input: Seq<u8>) -> bool {
        match self {
            ProtocolOpView::BindRequest(x) => x.within(input),
            ProtocolOpView::BindResponse(x) => x.within(input),
            ProtocolOpView::SearchRequest(x) => x.within(input),
            ProtocolOpView::SearchResultEntry(x) => x.within(input),
            ProtocolOpView::SearchResultDone(x) => x.within(input),
            ProtocolOpView::SearchResultReference(x) => x.within(input),
            ProtocolOpView::ModifyRequest(x) => x.within(input),
            ProtocolOpView::ModifyResponse(x) => x.within(input),
            ProtocolOpView::AddRequest(x) => x.within(input),
            ProtocolOpView::AddResponse(x) => x.within(input),
            ProtocolOpView::DelRequest(x) => x.within(input),
            ProtocolOpView::DelResponse(x) => x.within(input),
            ProtocolOpView::ModDnRequest(x) => x.within(input),
            ProtocolOpView::ModDnResponse(x) => x.within(input),
            ProtocolOpView::CompareRequest(x) => x.within(input),
            ProtocolOpView::CompareResponse(x) => x.within(input),
            ProtocolOpView::ExtendedRequest(x) => x.within(input),
            ProtocolOpView::ExtendedResponse(x) => x.within(input),
            ProtocolOpView::IntermediateResponse(x) => x.within(input),
            ProtocolOpView::UnbindRequest => true,
            ProtocolOpView::AbandonRequest(_) => true,
        }
    }

    proof fn lemma_within_part(self, part: Seq<u8>, input: Seq<u8>) {
        match self {
            ProtocolOpView::BindRequest(x) => {
                x.lemma_within_part(part, input);
            },
            ProtocolOpView::BindResponse(x) => {
                x.lemma_within_part(part, input);
            },
            ProtocolOpView::SearchRequest(x) => {
                x.lemma_within_part(part, input);
            },
            ProtocolOpView::SearchResultEntry(x) => {
                x.lemma_within_part(part, input);
            },
            ProtocolOpView::SearchResultDone(x) => {
                x.lemma_within_part(part, input);
            },
            ProtocolOpView::SearchResultReference(x) => {
                x.lemma_within_part(part, input);
            },
            ProtocolOpView::ModifyRequest(x) => {
                x.lemma_within_part(part, input);
            },
            ProtocolOpView::ModifyResponse(x) => {
                x.lemma_within_part(part, input);
            },
            ProtocolOpView::AddRequest(x) => {
                x.lemma_within_part(part, input);
            },
            ProtocolOpView::AddResponse(x) => {
                x.lemma_within_part(part, input);
            },
            ProtocolOpView::DelRequest(x) => {
                x.lemma_within_part(part, input);
            },
            ProtocolOpView::DelResponse(x) => {
                x.lemma_within_part(part, input);
            },
            ProtocolOpView::ModDnRequest(x) => {
                x.lemma_within_part(part, input);
            },
            ProtocolOpView::ModDnResponse(x) => {
                x.lemma_within_part(part, input);
            },
            ProtocolOpView::CompareRequest(x) => {
                x.lemma_within_part(part, input);
            },
            ProtocolOpView::CompareResponse(x) => {
                x.lemma_within_part(part, input);
            },
            ProtocolOpView::ExtendedRequest(x) => {
                x.lemma_within_part(part, input);
            },
            ProtocolOpView::ExtendedResponse(x) => {
                x.lemma_within_part(part, input);
            },
            ProtocolOpView::IntermediateResponse(x) => {
                x.lemma_within_part(part, input);
            },
            ProtocolOpView::UnbindRequest => {},
            ProtocolOpView::AbandonRequest(_) => {},
        }
    }
}

/// The text for a number that has no name in the type called `kind`.
pub uninterp spec fn unnamed_text(kind: Seq<char>, n: u32) -> Seq<char>;

/// Calls `format!` of std: the type's name, then in round brackets the
/// number in decimal, a slash and the number in hexadecimal. The text is a
/// function of the two arguments, named [`unnamed_text`].
#[verifier::external_body]
fn format_unnamed(kind: &str, n: u32) -> (r: String)
    ensures
        r@ == unnamed_text(kind@, n),
{
    format!("{}({} / 0x{:x})", kind, n, n)
}

impl ProtocolOpTag {
    /// The name of the number, where it has one.
    pub open spec fn spec_name(self) -> Option<Seq<char>> {
        if self.0 == 0 {
            Some("BindRequest"@)
        } else if self.0 == 1 {
            Some("BindResponse"@)
        } else if self.0 == 2 {
            Some("UnbindRequest"@)
        } else if self.0 == 3 {
            Some("SearchRequest"@)
        } else if self.0 == 4 {
            Some("SearchResultEntry"@)
        } else if self.0 == 5 {
            Some("SearchResultDone"@)
        } else if self.0 == 6 {
            Some("ModifyRequest"@)
        } else if self.0 == 7 {
            Some("ModifyResponse"@)
        } else if self.0 == 8 {
            Some("AddRequest"@)
        } else if self.0 == 9 {
            Some("AddResponse"@)
        } else if self.0 == 10 {
            Some("DelRequest"@)
        } else if self.0 == 11 {
            Some("DelResponse"@)
        } else if self.0 == 12 {
            Some("ModDnRequest"@)
        } else if self.0 == 13 {
            Some("ModDnResponse"@)
        } else if self.0 == 14 {
            Some("CompareRequest"@)
        } else if self.0 == 15 {
            Some("CompareResponse"@)
        } else if self.0 == 16 {
            Some("AbandonRequest"@)
        } else if self.0 == 19 {
            Some("SearchResultReference"@)
        } else if self.0 == 23 {
            Some("ExtendedRequest"@)
        } else if self.0 == 24 {
            Some("ExtendedResponse"@)
        } else if self.0 == 25 {
            Some("IntermediateResponse"@)
        } else {
            None
        }
    }

    /// The text that stands for the number: its name, or for a number
    /// without a name the name of the type with the number in brackets.
    pub open spec fn spec_text(self) -> Seq<char> {
        match self.spec_name() {
            Some(name) => name,
            None => unnamed_text("ProtocolOpTag"@, self.0),
        }
    }

    /// The name of the number, where it has one.
    pub fn name(&self) -> (r: Option<&'static str>)
        ensures
            r matches Some(s) ==> self.spec_name() == Some(s@),
            r is None ==> self.spec_name() is None,
    {
        if self.0 == 0 {
            Some("BindRequest")
        } else if self.0 == 1 {
            Some("BindResponse")
        } else if self.0 == 2 {
            Some("UnbindRequest")
        } else if self.0 == 3 {
            Some("SearchRequest")
        } else if self.0 == 4 {
            Some("SearchResultEntry")
        } else if self.0 == 5 {
            Some("SearchResultDone")
        } else if self.0 == 6 {
            Some("ModifyRequest")
        } else if self.0 == 7 {
            Some("ModifyResponse")
        } else if self.0 == 8 {
            Some("AddRequest")
        } else if self.0 == 9 {
            Some("AddResponse")
        } else if self.0 == 10 {
            Some("DelRequest")
        } else if self.0 == 11 {
            Some("DelResponse")
        } else if self.0 == 12 {
            Some("ModDnRequest")
        } else if self.0 == 13 {
            Some("ModDnResponse")
        } else if self.0 == 14 {
            Some("CompareRequest")
        } else if self.0 == 15 {
            Some("CompareResponse")
        } else if self.0 == 16 {
            Some("AbandonRequest")
        } else if self.0 == 19 {
            Some("SearchResultReference")
        } else if self.0 == 23 {
            Some("ExtendedRequest")
        } else if self.0 == 24 {
            Some("ExtendedResponse")
        } else if self.0 == 25 {
            Some("IntermediateResponse")
        } else {
            None
        }
    }

    /// The text that stands for the number.
    pub fn to_string(&self) -> (r: String)
        ensures
            r@ == self.spec_text(),
    {
        match self.name() {
            Some(s) => s.to_string(),
            None => format_unnamed("ProtocolOpTag", self.0),
        }
    }
}

impl ResultCode {
    /// The name of the number, where it has one.
    pub open spec fn spec_name(self) -> Option<Seq<char>> {
        if self.0 == 0 {
            Some("Success"@)
        } else if self.0 == 1 {
            Some("OperationsError"@)
        } else if self.0 == 2 {
            Some("ProtocolError"@)
        } else if self.0 == 3 {
            Some("TimeLimitExceeded"@)
        } else if self.0 == 4 {
            Some("SizeLimitExceeded"@)
        } else if self.0 == 5 {
            Some("CompareFalse"@)
        } else if self.0 == 6 {
            Some("CompareTrue"@)
        } else if self.0 == 7 {
            Some("AuthMethodNotSupported"@)
        } else if self.0 == 8 {
            Some("StrongerAuthRequired"@)
        } else if self.0 == 10 {
            Some("Referral"@)
        } else if self.0 == 11 {
            Some("AdminLimitExceeded"@)
        } else if self.0 == 12 {
            Some("UnavailableCriticalExtension"@)
        } else if self.0 == 13 {
            Some("ConfidentialityRequired"@)
        } else if self.0 == 14 {
            Some("SaslBindInProgress"@)
        } else if self.0 == 16 {
            Some("NoSuchAttribute"@)
        } else if self.0 == 17 {
            Some("UndefinedAttributeType"@)
        } else if self.0 == 18 {
            Some("InappropriateMatching"@)
        } else if self.0 == 19 {
            Some("ConstraintViolation"@)
        } else if self.0 == 20 {
            Some("AttributeOrValueExists"@)
        } else if self.0 == 21 {
            Some("InvalidAttributeSyntax"@)
        } else if self.0 == 32 {
            Some("NoSuchObject"@)
        } else if self.0 == 33 {
            Some("AliasProblem"@)
        } else if self.0 == 34 {
            Some("InvalidDNSyntax"@)
        } else if self.0 == 36 {
            Some("AliasDereferencingProblem"@)
        } else if self.0 == 48 {
            Some("InappropriateAuthentication"@)
        } else if self.0 == 49 {
            Some("InvalidCredentials"@)
        } else if self.0 == 50 {
            Some("InsufficientAccessRights"@)
        } else if self.0 == 51 {
            Some("Busy"@)
        } else if self.0 == 52 {
            Some("Unavailable"@)
        } else if self.0 == 53 {
            Some("UnwillingToPerform"@)
        } else if self.0 == 54 {
            Some("LoopDetect"@)
        } else if self.0 == 64 {
            Some("NamingViolation"@)
        } else if self.0 == 65 {
            Some("ObjectClassViolation"@)
        } else if self.0 == 66 {
            Some("NotAllowedOnNonLeaf"@)
        } else if self.0 == 67 {
            Some("NotAllowedOnRDN"@)
        } else if self.0 == 68 {
            Some("EntryAlreadyExists"@)
        } else if self.0 == 69 {
            Some("ObjectClassModsProhibited"@)
        } else if self.0 == 71 {
            Some("AffectsMultipleDSAs"@)
        } else if self.0 == 80 {
            Some("Other"@)
        } else {
            None
        }
    }

    /// The text that stands for the number: its name, or for a number
    /// without a name the name of the type with the number in brackets.
    pub open spec fn spec_text(self) -> Seq<char> {
        match self.spec_name() {
            Some(name) => name,
            None => unnamed_text("ResultCode"@, self.0),
        }
    }

    /// The name of the number, where it has one.
    pub fn name(&self) -> (r: Option<&'static str>)
        ensures
            r matches Some(s) ==> self.spec_name() == Some(s@),
            r is None ==> self.spec_name() is None,
    {
        if self.0 == 0 {
            Some("Success")
        } else if self.0 == 1 {
            Some("OperationsError")
        } else if self.0 == 2 {
            Some("ProtocolError")
        } else if self.0 == 3 {
            Some("TimeLimitExceeded")
        } else if self.0 == 4 {
            Some("SizeLimitExceeded")
        } else if self.0 == 5 {
            Some("CompareFalse")
        } else if self.0 == 6 {
            Some("CompareTrue")
        } else if self.0 == 7 {
            Some("AuthMethodNotSupported")
        } else if self.0 == 8 {
            Some("StrongerAuthRequired")
        } else if self.0 == 10 {
            Some("Referral")
        } else if self.0 == 11 {
            Some("AdminLimitExceeded")
        } else if self.0 == 12 {
            Some("UnavailableCriticalExtension")
        } else if self.0 == 13 {
            Some("ConfidentialityRequired")
        } else if self.0 == 14 {
            Some("SaslBindInProgress")
        } else if self.0 == 16 {
            Some("NoSuchAttribute")
        } else if self.0 == 17 {
            Some("UndefinedAttributeType")
        } else if self.0 == 18 {
            Some("InappropriateMatching")
        } else if self.0 == 19 {
            Some("ConstraintViolation")
        } else if self.0 == 20 {
            Some("AttributeOrValueExists")
        } else if self.0 == 21 {
            Some("InvalidAttributeSyntax")
        } else if self.0 == 32 {
            Some("NoSuchObject")
        } else if self.0 == 33 {
            Some("AliasProblem")
        } else if self.0 == 34 {
            Some("InvalidDNSyntax")
        } else if self.0 == 36 {
            Some("AliasDereferencingProblem")
        } else if self.0 == 48 {
            Some("InappropriateAuthentication")
        } else if self.0 == 49 {
            Some("InvalidCredentials")
        } else if self.0 == 50 {
            Some("InsufficientAccessRights")
        } else if self.0 == 51 {
            Some("Busy")
        } else if self.0 == 52 {
            Some("Unavailable")
        } else if self.0 == 53 {
            Some("UnwillingToPerform")
        } else if self.0 == 54 {
            Some("LoopDetect")
        } else if self.0 == 64 {
            Some("NamingViolation")
        } else if self.0 == 65 {
            Some("ObjectClassViolation")
        } else if self.0 == 66 {
            Some("NotAllowedOnNonLeaf")
        } else if self.0 == 67 {
            Some("NotAllowedOnRDN")
        } else if self.0 == 68 {
            Some("EntryAlreadyExists")
        } else if self.0 == 69 {
            Some("ObjectClassModsProhibited")
        } else if self.0 == 71 {
            Some("AffectsMultipleDSAs")
        } else if self.0 == 80 {
            Some("Other")
        } else {
            None
        }
    }

    /// The text that stands for the number.
    pub fn to_string(&self) -> (r: String)
        ensures
            r@ == self.spec_text(),
    {
        match self.name() {
            Some(s) => s.to_string(),
            None => format_unnamed("ResultCode", self.0),
        }
    }
}

impl SearchScope {
    /// The name of the number, where it has one.
    pub open spec fn spec_name(self) -> Option<Seq<char>> {
        if self.0 == 0 {
            Some("BaseObject"@)
        } else if self.0 == 1 {
            Some("SingleLevel"@)
        } else if self.0 == 2 {
            Some("WholeSubtree"@)
        } else {
            None
        }
    }

    /// The text that stands for the number: its name, or for a number
    /// without a name the name of the type with the number in brackets.
    pub open spec fn spec_text(self) -> Seq<char> {
        match self.spec_name() {
            Some(name) => name,
            None => unnamed_text("SearchScope"@, self.0),
        }
    }

    /// The name of the number, where it has one.
    pub fn name(&self) -> (r: Option<&'static str>)
        ensures
            r matches Some(s) ==> self.spec_name() == Some(s@),
            r is None ==> self.spec_name() is None,
    {
        if self.0 == 0 {
            Some("BaseObject")
        } else if self.0 == 1 {
            Some("SingleLevel")
        } else if self.0 == 2 {
            Some("WholeSubtree")
        } else {
            None
        }
    }

    /// The text that stands for the number.
    pub fn to_string(&self) -> (r: String)
        ensures
            r@ == self.spec_text(),
    {
        match self.name() {
            Some(s) => s.to_string(),
            None => format_unnamed("SearchScope", self.0),
        }
    }
}

impl DerefAliases {
    /// The name of the number, where it has one.
    pub open spec fn spec_name(self) -> Option<Seq<char>> {
        if self.0 == 0 {
            Some("NeverDerefAliases"@)
        } else if self.0 == 1 {
            Some("DerefInSearching"@)
        } else if self.0 == 2 {
            Some("DerefFindingBaseObj"@)
        } else if self.0 == 3 {
            Some("DerefAlways"@)
        } else {
            None
        }
    }

    /// The text that stands for the number: its name, or for a number
    /// without a name the name of the type with the number in brackets.
    pub open spec fn spec_text(self) -> Seq<char> {
        match self.spec_name() {
            Some(name) => name,
            None => unnamed_text("DerefAliases"@, self.0),
        }
    }

    /// The name of the number, where it has one.
    pub fn name(&self) -> (r: Option<&'static str>)
        ensures
            r matches Some(s) ==> self.spec_name() == Some(s@),
            r is None ==> self.spec_name() is None,
    {
        if self.0 == 0 {
            Some("NeverDerefAliases")
        } else if self.0 == 1 {
            Some("DerefInSearching")
        } else if self.0 == 2 {
            Some("DerefFindingBaseObj")
        } else if self.0 == 3 {
            Some("DerefAlways")
        } else {
            None
        }
    }

    /// The text that stands for the number.
    pub fn to_string(&self) -> (r: String)
        ensures
            r@ == self.spec_text(),
    {
        match self.name() {
            Some(s) => s.to_string(),
            None => format_unnamed("DerefAliases", self.0),
        }
    }
}

impl Operation {
    /// The name of the number, where it has one.
    pub open spec fn spec_name(self) -> Option<Seq<char>> {
        if self.0 == 0 {
            Some("Add"@)
        } else if self.0 == 1 {
            Some("Delete"@)
        } else if self.0 == 2 {
            Some("Replace"@)
        } else {
            None
        }
    }

    /// The text that stands for the number: its name, or for a number
    /// without a name the name of the type with the number in brackets.
    pub open spec fn spec_text(self) -> Seq<char> {
        match self.spec_name() {
            Some(name) => name,
            None => unnamed_text("Operation"@, self.0),
        }
    }

    /// The name of the number, where it has one.
    pub fn name(&self) -> (r: Option<&'static str>)
        ensures
            r matches Some(s) ==> self.spec_name() == Some(s@),
            r is None ==> self.spec_name() is None,
    {
        if self.0 == 0 {
            Some("Add")
        } else if self.0 == 1 {
            Some("Delete")
        } else if self.0 == 2 {
            Some("Replace")
        } else {
            None
        }
    }

    /// The text that stands for the number.
    pub fn to_string(&self) -> (r: String)
        ensures
            r@ == self.spec_text(),
    {
        match self.name() {
            Some(s) => s.to_string(),
            None => format_unnamed("Operation", self.0),
        }
    }
}

} // verus!
