//! LDAP messages: the data of the protocol operations, and the writing and reading of the
//! messages of a bind.
use vstd::prelude::*;
use vstd::string::{StringExecFns, StringSliceAdditionalSpecFns};
use vstd::utf8::{valid_utf8, decode_utf8, encode_utf8};
use crate::ldap::ber::{
    BerTag, BerError, BerWrite, BerWriter, BerSeqIter, BER_INTEGER, BER_OCTET_STRING, BER_ENUMERATED,
    BER_SEQUENCE, ber_header_at, ber_int_at, ber_str_at, ber_data, ber_framed, ber_header, int_octets,
    read_ber, read_ber_int, read_ber_str, lemma_data_roundtrip, lemma_int_roundtrip,
    lemma_framed_header, lemma_header_roundtrip,
};
use crate::octets::{be_octets, be_value, lemma_be_octets_len,
};
use crate::text::{utf8_str, lemma_utf8_chars};

verus! {

pub type MessageId = u32;
pub type DN = String;
pub type Oid = String;
pub type Uri = String;

pub const PROTOCOL_OP_BIND_REQUEST: u8 = 0x60;
pub const PROTOCOL_OP_BIND_RESPONSE: u8 = 0x61;
pub const PROTOCOL_OP_UNBIND_REQUEST: u8 = 0x42;
pub const AUTH_SIMPLE: u8 = 0x80;
pub const AUTH_SASL: u8 = 0xA3;
pub const SERVER_SASL_CREDS: u8 = 0x87;
pub const RESULT_REFERRAL: u8 = 0xA3;

/// An LDAP message.
#[derive(Debug, Eq, PartialEq)]
pub struct Message {
    pub message_id: MessageId,
    pub protocol_op: ProtocolOp,
    pub controls: Option<Vec<Control>>,
}

impl Default for Message {
    fn default() -> (r: Self)
        ensures
            r.message_id == 0,
            r.protocol_op is UnbindRequest,
            r.controls is None,
    {
        Message { message_id: 0, protocol_op: ProtocolOp::UnbindRequest, controls: None }
    }
}

/// The operation that a message carries.
#[derive(Debug, Eq, PartialEq)]
pub enum ProtocolOp {
    BindRequest(BindRequest),
    BindResponse(BindResponse),
    UnbindRequest,
    SearchRequest(SearchRequest),
    SearchResultEntry(SearchResultEntry),
    SearchResultDone(LdapResult),
    SearchResultReference(SearchResultReference),
    ModifyRequest(ModifyRequest),
    ModifyResponse(LdapResult),
    AddRequest(AddRequest),
    AddResponse(LdapResult),
    DelRequest(DN),
    DelResponse(LdapResult),
    ModifyDNRequest(ModifyDNRequest),
    ModifyDNResponse(LdapResult),
    CompareRequest(CompareRequest),
    CompareResponse(LdapResult),
    AbandonRequest(AbandonRequest),
    ExtendedRequest(ExtendedRequest),
    ExtendedResponse(ExtendedResponse),
    IntermediateResponse(IntermediateResponse),
}

/// One of the answers to a search.
#[derive(Clone, Debug, Eq, PartialEq)]
pub enum SearchResult {
    Entry(SearchResultEntry),
    Done(LdapResult),
    Reference(SearchResultReference),
}

/// A control attached to a message.
#[derive(Clone, Debug, Eq, PartialEq)]
pub struct Control {
    pub control_type: Oid,
    pub criticality: bool,
    pub control_value: Option<String>,
}

/// The result of an operation.
#[derive(Clone, Debug, Default, Eq, PartialEq)]
pub struct LdapResult {
    pub result_code: ResultCode,
    pub matched_dn: String,
    pub diagnostic_message: String,
    pub referral: Option<Vec<Uri>>,
}

/// A bind request.
#[derive(Clone, Debug, Default, Eq, PartialEq)]
pub struct BindRequest {
    pub version: u8,
    pub name: String,
    pub authentication: AuthenticationChoice,
}

/// How a bind authenticates.
#[derive(Clone, Debug, Eq, PartialEq)]
pub enum AuthenticationChoice {
    Simple(String),
    Sasl(SaslCredentials),
}

impl Default for AuthenticationChoice {
    fn default() -> (r: Self)
        ensures
            r matches AuthenticationChoice::Simple(s) && s@ == Seq::<char>::empty(),
    {
        AuthenticationChoice::Simple(String::new())
    }
}

/// SASL credentials: a mechanism and, perhaps, credentials.
#[derive(Clone, Debug, Default, Eq, PartialEq)]
pub struct SaslCredentials {
    pub mechanism: String,
    pub credentials: Option<String>,
}

/// A bind response.
#[derive(Clone, Debug, Default, Eq, PartialEq)]
pub struct BindResponse {
    pub result: LdapResult,
    pub server_sasl_creds: Option<String>,
}

/// A search request.
#[derive(Debug, Default, Eq, PartialEq)]
pub struct SearchRequest {
    pub base_object: DN,
    pub scope: SearchRequestScope,
    pub deref_aliases: SearchRequestDerefAliases,
    pub size_limit: usize,
    pub time_limit: usize,
    pub types_only: bool,
    pub filter: SearchRequestFilter,
    pub attributes: Vec<String>,
}

/// How deep a search goes.
#[derive(Clone, Debug, Eq, PartialEq, Default)]
pub enum SearchRequestScope {
    #[default]
    BaseObject,
    SingleLevel,
    WholeSubtree,
}

/// How a search follows aliases.
#[derive(Clone, Debug, Eq, PartialEq, Default)]
pub enum SearchRequestDerefAliases {
    #[default]
    NeverDerefAliases,
    DerefInSearching,
    DerefFindingBaseObj,
    DerefAlways,
}

/// The filter of a search.
#[derive(Debug, Eq, PartialEq)]
pub enum SearchRequestFilter {
    And(Vec<SearchRequestFilter>),
    Or(Vec<SearchRequestFilter>),
    Not(Box<SearchRequestFilter>),
    EqualityMatch(AttributeValueAssertion),
    GreaterOrEqual(AttributeValueAssertion),
    LessOrEqual(AttributeValueAssertion),
    Present(String),
    ApproxMatch(AttributeValueAssertion),
}

impl Default for SearchRequestFilter {
    fn default() -> (r: Self)
        ensures
            r matches SearchRequestFilter::Present(s) && s@ == "objectClass"@,
    {
        SearchRequestFilter::Present(String::from_str("objectClass"))
    }
}

/// An entry found by a search.
#[derive(Clone, Debug, Default, Eq, PartialEq)]
pub struct SearchResultEntry {
    pub object_name: DN,
    pub attributes: Vec<PartialAttribute>,
}

/// A reference returned by a search.
#[derive(Clone, Debug, Default, Eq, PartialEq)]
pub struct SearchResultReference {
    pub uris: Vec<Uri>,
}

/// A modify request.
#[derive(Clone, Debug, Default, Eq, PartialEq)]
pub struct ModifyRequest {
    pub object: DN,
    pub changes: Vec<Change>,
}

/// One change of a modify request.
#[derive(Clone, Debug, Default, Eq, PartialEq)]
pub struct Change {
    pub operation: Operation,
    pub modification: PartialAttribute,
}

/// What a change does.
#[derive(Copy, Clone, Debug, Eq, PartialEq, Default)]
pub enum Operation {
    #[default]
    Add,
    Delete,
    Replace,
    /// RFC4525
    Increment,
}

/// An add request.
#[derive(Clone, Debug, Default, Eq, PartialEq)]
pub struct AddRequest {
    pub entry: DN,
    pub attributes: Vec<Attribute>,
}

/// A modify DN request.
#[derive(Clone, Debug, Default, Eq, PartialEq)]
pub struct ModifyDNRequest {
    pub entry: DN,
    pub new_rdn: String,
    pub delete_old_drn: bool,
    pub new_superior: Option<DN>,
}

/// A compare request.
#[derive(Clone, Debug, Default, Eq, PartialEq)]
pub struct CompareRequest {
    pub entry: DN,
    pub ava: AttributeValueAssertion,
}

/// An abandon request.
#[derive(Clone, Debug, Default, Eq, PartialEq)]
pub struct AbandonRequest {
    pub message_id: MessageId,
}

/// An extended request.
#[derive(Clone, Debug, Default, Eq, PartialEq)]
pub struct ExtendedRequest {
    pub request_name: Oid,
    pub request_value: Option<Vec<u8>>,
}

/// An extended response.
#[derive(Clone, Debug, Default, Eq, PartialEq)]
pub struct ExtendedResponse {
    pub result: LdapResult,
    pub response_name: Option<Oid>,
    pub response_value: Option<Vec<u8>>,
}

/// An intermediate response.
#[derive(Clone, Debug, Default, Eq, PartialEq)]
pub struct IntermediateResponse {
    pub response_name: Option<Oid>,
    pub response_value: Option<Vec<u8>>,
}

/// An attribute with its values.
#[derive(Clone, Debug, Default, Eq, PartialEq)]
pub struct PartialAttribute {
    pub attr_type: String,
    pub vals: Vec<Vec<u8>>,
}

pub type Attribute = PartialAttribute;

/// An attribute description with a value to compare.
#[derive(Clone, Debug, Default, Eq, PartialEq)]
pub struct AttributeValueAssertion {
    pub attribute_desc: String,
    pub assertion_value: Vec<u8>,
}

/// The result codes of LDAP operations.
#[derive(Copy, Clone, Debug, Eq, PartialEq, Default)]
pub enum ResultCode {
    #[default]
    Success,
    OperationsError,
    ProtocolError,
    TimeLimitExceeded,
    SizeLimitExceeded,
    CompareFalse,
    CompareTrue,
    AuthMethodNotSupported,
    StrongerAuthRequired,
    Referral,
    AdminLimitExceeded,
    UnavailableCriticalExtension,
    ConfidentialityRequired,
    SaslBindInProgress,
    NoSuchAttribute,
    UndefinedAttributeType,
    InappropriateMatching,
    ConstraintViolation,
    AttributeOrValueExists,
    InvalidAttributeSyntax,
    NoSuchObject,
    AliasProblem,
    InvalidDNSyntax,
    AliasDereferencingProblem,
    InappropriateAuthentication,
    InvalidCredentials,
    InsufficientAccessRights,
    Busy,
    Unavailable,
    UnwillingToPerform,
    LoopDetect,
    NamingViolation,
    ObjectClassViolation,
    NotAllowedOnNonLeaf,
    NotAllowedOnRDN,
    EntryAlreadyExists,
    ObjectClassModsProhibited,
    AffectsMultipleDSAs,
    Other,
}

/// The numeric value of a result code.
pub open spec fn result_code_value(c: ResultCode) -> u8 {
    match c {
        ResultCode::Success => 0,
        ResultCode::OperationsError => 1,
        ResultCode::ProtocolError => 2,
        ResultCode::TimeLimitExceeded => 3,
        ResultCode::SizeLimitExceeded => 4,
        ResultCode::CompareFalse => 5,
        ResultCode::CompareTrue => 6,
        ResultCode::AuthMethodNotSupported => 7,
        ResultCode::StrongerAuthRequired => 8,
        ResultCode::Referral => 10,
        ResultCode::AdminLimitExceeded => 11,
        ResultCode::UnavailableCriticalExtension => 12,
        ResultCode::ConfidentialityRequired => 13,
        ResultCode::SaslBindInProgress => 14,
        ResultCode::NoSuchAttribute => 16,
        ResultCode::UndefinedAttributeType => 17,
        ResultCode::InappropriateMatching => 18,
        ResultCode::ConstraintViolation => 19,
        ResultCode::AttributeOrValueExists => 20,
        ResultCode::InvalidAttributeSyntax => 21,
        ResultCode::NoSuchObject => 32,
        ResultCode::AliasProblem => 33,
        ResultCode::InvalidDNSyntax => 34,
        ResultCode::AliasDereferencingProblem => 36,
        ResultCode::InappropriateAuthentication => 48,
        ResultCode::InvalidCredentials => 49,
        ResultCode::InsufficientAccessRights => 50,
        ResultCode::Busy => 51,
        ResultCode::Unavailable => 52,
        ResultCode::UnwillingToPerform => 53,
        ResultCode::LoopDetect => 54,
        ResultCode::NamingViolation => 64,
        ResultCode::ObjectClassViolation => 65,
        ResultCode::NotAllowedOnNonLeaf => 66,
        ResultCode::NotAllowedOnRDN => 67,
        ResultCode::EntryAlreadyExists => 68,
        ResultCode::ObjectClassModsProhibited => 69,
        ResultCode::AffectsMultipleDSAs => 71,
        ResultCode::Other => 80,
    }
}

/// The result code with the value `v`, if there is one.
pub open spec fn result_code_of(v: usize) -> Option<ResultCode> {
    if v == 0 { Some(ResultCode::Success) }
    else if v == 1 { Some(ResultCode::OperationsError) }
    else if v == 2 { Some(ResultCode::ProtocolError) }
    else if v == 3 { Some(ResultCode::TimeLimitExceeded) }
    else if v == 4 { Some(ResultCode::SizeLimitExceeded) }
    else if v == 5 { Some(ResultCode::CompareFalse) }
    else if v == 6 { Some(ResultCode::CompareTrue) }
    else if v == 7 { Some(ResultCode::AuthMethodNotSupported) }
    else if v == 8 { Some(ResultCode::StrongerAuthRequired) }
    else if v == 10 { Some(ResultCode::Referral) }
    else if v == 11 { Some(ResultCode::AdminLimitExceeded) }
    else if v == 12 { Some(ResultCode::UnavailableCriticalExtension) }
    else if v == 13 { Some(ResultCode::ConfidentialityRequired) }
    else if v == 14 { Some(ResultCode::SaslBindInProgress) }
    else if v == 16 { Some(ResultCode::NoSuchAttribute) }
    else if v == 17 { Some(ResultCode::UndefinedAttributeType) }
    else if v == 18 { Some(ResultCode::InappropriateMatching) }
    else if v == 19 { Some(ResultCode::ConstraintViolation) }
    else if v == 20 { Some(ResultCode::AttributeOrValueExists) }
    else if v == 21 { Some(ResultCode::InvalidAttributeSyntax) }
    else if v == 32 { Some(ResultCode::NoSuchObject) }
    else if v == 33 { Some(ResultCode::AliasProblem) }
    else if v == 34 { Some(ResultCode::InvalidDNSyntax) }
    else if v == 36 { Some(ResultCode::AliasDereferencingProblem) }
    else if v == 48 { Some(ResultCode::InappropriateAuthentication) }
    else if v == 49 { Some(ResultCode::InvalidCredentials) }
    else if v == 50 { Some(ResultCode::InsufficientAccessRights) }
    else if v == 51 { Some(ResultCode::Busy) }
    else if v == 52 { Some(ResultCode::Unavailable) }
    else if v == 53 { Some(ResultCode::UnwillingToPerform) }
    else if v == 54 { Some(ResultCode::LoopDetect) }
    else if v == 64 { Some(ResultCode::NamingViolation) }
    else if v == 65 { Some(ResultCode::ObjectClassViolation) }
    else if v == 66 { Some(ResultCode::NotAllowedOnNonLeaf) }
    else if v == 67 { Some(ResultCode::NotAllowedOnRDN) }
    else if v == 68 { Some(ResultCode::EntryAlreadyExists) }
    else if v == 69 { Some(ResultCode::ObjectClassModsProhibited) }
    else if v == 71 { Some(ResultCode::AffectsMultipleDSAs) }
    else if v == 80 { Some(ResultCode::Other) }
    else { None }
}

impl ResultCode {
    /// The numeric value of the result code.
    pub fn value(self) -> (r: u8)
        ensures
            r == result_code_value(self),
    {
        match self {
            ResultCode::Success => 0,
            ResultCode::OperationsError => 1,
            ResultCode::ProtocolError => 2,
            ResultCode::TimeLimitExceeded => 3,
            ResultCode::SizeLimitExceeded => 4,
            ResultCode::CompareFalse => 5,
            ResultCode::CompareTrue => 6,
            ResultCode::AuthMethodNotSupported => 7,
            ResultCode::StrongerAuthRequired => 8,
            ResultCode::Referral => 10,
            ResultCode::AdminLimitExceeded => 11,
            ResultCode::UnavailableCriticalExtension => 12,
            ResultCode::ConfidentialityRequired => 13,
            ResultCode::SaslBindInProgress => 14,
            ResultCode::NoSuchAttribute => 16,
            ResultCode::UndefinedAttributeType => 17,
            ResultCode::InappropriateMatching => 18,
            ResultCode::ConstraintViolation => 19,
            ResultCode::AttributeOrValueExists => 20,
            ResultCode::InvalidAttributeSyntax => 21,
            ResultCode::NoSuchObject => 32,
            ResultCode::AliasProblem => 33,
            ResultCode::InvalidDNSyntax => 34,
            ResultCode::AliasDereferencingProblem => 36,
            ResultCode::InappropriateAuthentication => 48,
            ResultCode::InvalidCredentials => 49,
            ResultCode::InsufficientAccessRights => 50,
            ResultCode::Busy => 51,
            ResultCode::Unavailable => 52,
            ResultCode::UnwillingToPerform => 53,
            ResultCode::LoopDetect => 54,
            ResultCode::NamingViolation => 64,
            ResultCode::ObjectClassViolation => 65,
            ResultCode::NotAllowedOnNonLeaf => 66,
            ResultCode::NotAllowedOnRDN => 67,
            ResultCode::EntryAlreadyExists => 68,
            ResultCode::ObjectClassModsProhibited => 69,
            ResultCode::AffectsMultipleDSAs => 71,
            ResultCode::Other => 80,
        }
    }

    /// The result code with the value `v`: 0 to 8, 10 to 21, 32 to 34, 36, 48 to 54, 64 to 69,
    /// 71 and 80 are defined.
    pub fn from_int(v: usize) -> (r: Option<ResultCode>)
        ensures
            r == result_code_of(v),
    {
        match v {
            0 => Some(ResultCode::Success),
            1 => Some(ResultCode::OperationsError),
            2 => Some(ResultCode::ProtocolError),
            3 => Some(ResultCode::TimeLimitExceeded),
            4 => Some(ResultCode::SizeLimitExceeded),
            5 => Some(ResultCode::CompareFalse),
            6 => Some(ResultCode::CompareTrue),
            7 => Some(ResultCode::AuthMethodNotSupported),
            8 => Some(ResultCode::StrongerAuthRequired),
            10 => Some(ResultCode::Referral),
            11 => Some(ResultCode::AdminLimitExceeded),
            12 => Some(ResultCode::UnavailableCriticalExtension),
            13 => Some(ResultCode::ConfidentialityRequired),
            14 => Some(ResultCode::SaslBindInProgress),
            16 => Some(ResultCode::NoSuchAttribute),
            17 => Some(ResultCode::UndefinedAttributeType),
            18 => Some(ResultCode::InappropriateMatching),
            19 => Some(ResultCode::ConstraintViolation),
            20 => Some(ResultCode::AttributeOrValueExists),
            21 => Some(ResultCode::InvalidAttributeSyntax),
            32 => Some(ResultCode::NoSuchObject),
            33 => Some(ResultCode::AliasProblem),
            34 => Some(ResultCode::InvalidDNSyntax),
            36 => Some(ResultCode::AliasDereferencingProblem),
            48 => Some(ResultCode::InappropriateAuthentication),
            49 => Some(ResultCode::InvalidCredentials),
            50 => Some(ResultCode::InsufficientAccessRights),
            51 => Some(ResultCode::Busy),
            52 => Some(ResultCode::Unavailable),
            53 => Some(ResultCode::UnwillingToPerform),
            54 => Some(ResultCode::LoopDetect),
            64 => Some(ResultCode::NamingViolation),
            65 => Some(ResultCode::ObjectClassViolation),
            66 => Some(ResultCode::NotAllowedOnNonLeaf),
            67 => Some(ResultCode::NotAllowedOnRDN),
            68 => Some(ResultCode::EntryAlreadyExists),
            69 => Some(ResultCode::ObjectClassModsProhibited),
            71 => Some(ResultCode::AffectsMultipleDSAs),
            80 => Some(ResultCode::Other),
            _ => None,
        }
    }
}

/// Reading a result code back from its value gives the code.
pub proof fn lemma_result_code_roundtrip(c: ResultCode)
    ensures
        result_code_of(result_code_value(c) as usize) == Some(c),
{
}

/// How a bind authenticates, as values.
#[verifier::ext_equal]
pub enum AuthView {
    Simple(Seq<char>),
    Sasl(Seq<char>, Option<Seq<char>>),
}

/// The result of an operation, as values.
#[verifier::ext_equal]
pub struct ResultView {
    pub code: ResultCode,
    pub matched: Seq<char>,
    pub diag: Seq<char>,
    pub referral: Option<Seq<Seq<char>>>,
}

/// The operation of a message, as values: those of a bind, and any other.
#[verifier::ext_equal]
pub enum OpView {
    BindRequest(u8, Seq<char>, AuthView),
    BindResponse(ResultView, Option<Seq<char>>),
    UnbindRequest,
    Other,
}

/// A message as values.
#[verifier::ext_equal]
pub struct MessageView {
    pub id: u32,
    pub op: OpView,
    pub has_controls: bool,
}

/// The characters of each string.
pub open spec fn strings_view(v: Seq<String>) -> Seq<Seq<char>> {
    v.map_values(|s: String| s@)
}

pub open spec fn auth_view(a: AuthenticationChoice) -> AuthView {
    match a {
        AuthenticationChoice::Simple(s) => AuthView::Simple(s@),
        AuthenticationChoice::Sasl(c) => AuthView::Sasl(c.mechanism@, match c.credentials {
            Some(x) => Some(x@),
            None => None,
        }),
    }
}

pub open spec fn result_view(r: LdapResult) -> ResultView {
    ResultView {
        code: r.result_code,
        matched: r.matched_dn@,
        diag: r.diagnostic_message@,
        referral: match r.referral {
            Some(v) => Some(strings_view(v@)),
            None => None,
        },
    }
}

pub open spec fn op_view(op: ProtocolOp) -> OpView {
    match op {
        ProtocolOp::BindRequest(v) => OpView::BindRequest(v.version, v.name@, auth_view(v.authentication)),
        ProtocolOp::BindResponse(v) => OpView::BindResponse(result_view(v.result), match v.server_sasl_creds {
            Some(x) => Some(x@),
            None => None,
        }),
        ProtocolOp::UnbindRequest => OpView::UnbindRequest,
        _ => OpView::Other,
    }
}

impl View for Message {
    type V = MessageView;

    open spec fn view(&self) -> MessageView {
        MessageView { id: self.message_id, op: op_view(self.protocol_op), has_controls: self.controls is Some }
    }
}

/// A string element: the UTF-8 octets of `s` as contents.
pub open spec fn str_data(tag: u8, s: Seq<char>) -> Seq<u8> {
    ber_data(tag, encode_utf8(s))
}

/// The string elements of `v`, one after the other.
pub open spec fn strs_wire(v: Seq<Seq<char>>) -> Seq<u8>
    decreases v.len(),
{
    if v.len() == 0 {
        Seq::empty()
    } else {
        str_data(BER_OCTET_STRING, v[0]) + strs_wire(v.skip(1))
    }
}

/// The authentication choice of a bind request as written.
pub open spec fn auth_wire(a: AuthView) -> Seq<u8> {
    match a {
        AuthView::Simple(s) => str_data(AUTH_SIMPLE, s),
        AuthView::Sasl(m, c) => ber_framed(AUTH_SASL, str_data(BER_OCTET_STRING, m) + match c {
            Some(x) => str_data(BER_OCTET_STRING, x),
            None => Seq::empty(),
        }),
    }
}

/// The components of a result as written: the code, the matched name, the diagnostic message,
/// and the referral, if any.
pub open spec fn result_wire(r: ResultView) -> Seq<u8> {
    ber_data(BER_ENUMERATED, int_octets(result_code_value(r.code) as i64))
        + str_data(BER_OCTET_STRING, r.matched) + str_data(BER_OCTET_STRING, r.diag)
        + match r.referral {
            Some(v) => ber_framed(RESULT_REFERRAL, strs_wire(v)),
            None => Seq::empty(),
        }
}

/// The operation of a message as written.
pub open spec fn op_wire(op: OpView) -> Seq<u8> {
    match op {
        OpView::BindRequest(version, name, auth) => ber_framed(PROTOCOL_OP_BIND_REQUEST,
            ber_data(BER_INTEGER, int_octets(version as i64)) + str_data(BER_OCTET_STRING, name)
                + auth_wire(auth)),
        OpView::BindResponse(result, creds) => ber_framed(PROTOCOL_OP_BIND_RESPONSE,
            result_wire(result) + match creds {
                Some(x) => str_data(SERVER_SASL_CREDS, x),
                None => Seq::empty(),
            }),
        OpView::UnbindRequest => ber_data(PROTOCOL_OP_UNBIND_REQUEST, Seq::empty()),
        OpView::Other => Seq::empty(),
    }
}

/// The contents of a message as written: the message identifier, then the operation.
pub open spec fn message_contents(m: MessageView) -> Seq<u8> {
    ber_data(BER_INTEGER, int_octets(m.id as i64)) + op_wire(m.op)
}

/// A message as written: a sequence of its contents.
pub open spec fn message_wire(m: MessageView) -> Seq<u8> {
    ber_framed(BER_SEQUENCE, message_contents(m))
}

/// Finishing a `BerWriter` that was started after `p` frames what was written after it.
proof fn lemma_frame(p: Seq<u8>, tag: u8, c: Seq<u8>)
    ensures
        ({
            let b = p + seq![tag, 0x82u8, 0u8, 0u8] + c;
            let off = p.len() + 4;
            b.subrange(0, off - 2) + be_octets(((b.len() - off) % 0x10000) as nat, 2)
                + b.subrange(off as int, b.len() as int) == p + ber_framed(tag, c)
        }),
{
    let b = p + seq![tag, 0x82u8, 0u8, 0u8] + c;
    let off = p.len() + 4;
    assert(b.subrange(0, off - 2) =~= p + seq![tag, 0x82u8]);
    assert(b.subrange(off as int, b.len() as int) =~= c);
    assert(b.subrange(0, off - 2) + be_octets(((b.len() - off) % 0x10000) as nat, 2)
        + b.subrange(off as int, b.len() as int) =~= p + ber_framed(tag, c));
}

impl LdapResult {
    /// Writes the components of the result: the code, the matched name, the diagnostic
    /// message, and the referral, if any.
    pub fn write_components(&self, buf: &mut Vec<u8>)
        ensures
            final(buf)@ == old(buf)@ + result_wire(result_view(*self)),
    {
        buf.write_ber_int(BER_ENUMERATED, self.result_code.value() as i64);
        buf.write_ber_str(BER_OCTET_STRING, self.matched_dn.as_str());
        buf.write_ber_str(BER_OCTET_STRING, self.diagnostic_message.as_str());
        let ghost mid = buf@;
        match &self.referral {
            Some(referral) => {
                let w = BerWriter::new(buf, RESULT_REFERRAL);
                let ghost start = buf@;
                let mut i: usize = 0;
                assert(strings_view(referral@).skip(0) =~= strings_view(referral@));
                while i < referral.len()
                    invariant
                        i <= referral@.len(),
                        start.len() == w.off,
                        buf@ + strs_wire(strings_view(referral@).skip(i as int)) == start + strs_wire(strings_view(referral@)),
                    decreases referral@.len() - i,
                {
                    let ghost before = buf@;
                    buf.write_ber_str(BER_OCTET_STRING, referral[i].as_str());
                    proof {
                        let v = strings_view(referral@);
                        assert(v.skip(i as int).skip(1) =~= v.skip(i + 1));
                        assert(v.skip(i as int)[0] == referral@[i as int]@);
                        assert(buf@ + strs_wire(v.skip(i + 1)) =~= before + strs_wire(v.skip(i as int)));
                    }
                    i += 1;
                }
                proof {
                    let v = strings_view(referral@);
                    assert(v.skip(referral@.len() as int) =~= Seq::<Seq<char>>::empty());
                    assert(buf@ =~= start + strs_wire(v));
                    assert(v.skip(0) =~= v);
                }
                w.finish(buf);
                proof {
                    lemma_frame(mid, RESULT_REFERRAL, strs_wire(strings_view(referral@)));
                }
            }
            None => {}
        }
        assert(final(buf)@ =~= old(buf)@ + result_wire(result_view(*self)));
    }
}

fn write_auth(a: &AuthenticationChoice, buf: &mut Vec<u8>)
    ensures
        final(buf)@ == old(buf)@ + auth_wire(auth_view(*a)),
{
    match a {
        AuthenticationChoice::Simple(simple) => {
            buf.write_ber_str(AUTH_SIMPLE, simple.as_str());
        }
        AuthenticationChoice::Sasl(sasl) => {
            let w = BerWriter::new(buf, AUTH_SASL);
            let ghost s = buf@;
            buf.write_ber_str(BER_OCTET_STRING, sasl.mechanism.as_str());
            match &sasl.credentials {
                Some(c) => buf.write_ber_str(BER_OCTET_STRING, c.as_str()),
                None => {}
            }
            let ghost inner = buf@.subrange(s.len() as int, buf@.len() as int);
            proof {
                assert(buf@ =~= old(buf)@ + seq![AUTH_SASL, 0x82u8, 0u8, 0u8] + inner);
            }
            w.finish(buf);
            proof {
                lemma_frame(old(buf)@, AUTH_SASL, inner);
                assert(inner =~= str_data(BER_OCTET_STRING, sasl.mechanism@) + match sasl.credentials {
                    Some(x) => str_data(BER_OCTET_STRING, x@),
                    None => Seq::empty(),
                });
            }
        }
    }
}

fn write_bind_request(v: &BindRequest, buf: &mut Vec<u8>)
    ensures
        final(buf)@ == old(buf)@ + op_wire(op_view(ProtocolOp::BindRequest(*v))),
{
    let w = BerWriter::new(buf, PROTOCOL_OP_BIND_REQUEST);
    let ghost s = buf@;
    buf.write_ber_int(BER_INTEGER, v.version as i64);
    buf.write_ber_str(BER_OCTET_STRING, v.name.as_str());
    write_auth(&v.authentication, buf);
    let ghost inner = buf@.subrange(s.len() as int, buf@.len() as int);
    proof {
        assert(buf@ =~= old(buf)@ + seq![PROTOCOL_OP_BIND_REQUEST, 0x82u8, 0u8, 0u8] + inner);
        assert(inner =~= ber_data(BER_INTEGER, int_octets(v.version as i64))
            + str_data(BER_OCTET_STRING, v.name@) + auth_wire(auth_view(v.authentication)));
    }
    w.finish(buf);
    proof {
        lemma_frame(old(buf)@, PROTOCOL_OP_BIND_REQUEST, inner);
    }
}

fn write_bind_response(v: &BindResponse, buf: &mut Vec<u8>)
    ensures
        final(buf)@ == old(buf)@ + op_wire(op_view(ProtocolOp::BindResponse(*v))),
{
    let w = BerWriter::new(buf, PROTOCOL_OP_BIND_RESPONSE);
    let ghost s = buf@;
    v.result.write_components(buf);
    match &v.server_sasl_creds {
        Some(c) => buf.write_ber_str(SERVER_SASL_CREDS, c.as_str()),
        None => {}
    }
    let ghost inner = buf@.subrange(s.len() as int, buf@.len() as int);
    proof {
        assert(buf@ =~= old(buf)@ + seq![PROTOCOL_OP_BIND_RESPONSE, 0x82u8, 0u8, 0u8] + inner);
        assert(inner =~= result_wire(result_view(v.result)) + match v.server_sasl_creds {
            Some(x) => str_data(SERVER_SASL_CREDS, x@),
            None => Seq::empty(),
        });
    }
    w.finish(buf);
    proof {
        lemma_frame(old(buf)@, PROTOCOL_OP_BIND_RESPONSE, inner);
    }
}

/// Writes a message: a sequence of the message identifier and the operation. Writing is
/// provided for the operations of a bind; controls are not written.
pub fn write_msg(msg: &Message, buf: &mut Vec<u8>)
    requires
        !(msg@.op is Other),
    ensures
        final(buf)@ == old(buf)@ + message_wire(msg@),
{
    let outer = BerWriter::new(buf, BER_SEQUENCE);
    let ghost start = buf@;
    buf.write_ber_int(BER_INTEGER, msg.message_id as i64);
    match &msg.protocol_op {
        ProtocolOp::BindRequest(v) => write_bind_request(v, buf),
        ProtocolOp::BindResponse(v) => write_bind_response(v, buf),
        ProtocolOp::UnbindRequest => buf.write_ber_null(PROTOCOL_OP_UNBIND_REQUEST),
        _ => {
            proof {
                assert(false);
            }
        }
    }
    let ghost contents = buf@.subrange(start.len() as int, buf@.len() as int);
    proof {
        assert(buf@ =~= old(buf)@ + seq![BER_SEQUENCE, 0x82u8, 0u8, 0u8] + contents);
        assert(contents =~= message_contents(msg@));
    }
    outer.finish(buf);
    proof {
        lemma_frame(old(buf)@, BER_SEQUENCE, contents);
    }
}

/// Where an element that starts its contents at `c` with the length `len` ends, within `end`.
pub open spec fn sub_end(c: int, len: usize, end: int) -> int {
    if c + len < end { c + len } else { end }
}

/// Reading string elements from `p` until the octets end before `end`: the strings. An element
/// that the end cuts off ends the reading as the end itself does.
pub open spec fn read_strs_at(buf: Seq<u8>, p: int, end: int) -> Result<Seq<Seq<char>>, BerError>
    decreases end - p,
{
    match ber_str_at(buf, p, end, BER_OCTET_STRING) {
        Err(BerError::UnexpectedEof) => Ok(Seq::empty()),
        Err(e) => Err(e),
        Ok((s, q)) => if q <= p || q > end {
            Ok(Seq::empty())
        } else {
            match read_strs_at(buf, q, end) {
                Err(e) => Err(e),
                Ok(v) => Ok(seq![s] + v),
            }
        },
    }
}

/// Reading the rest of the components of a result from `p` to `end`: at most one referral, a
/// sequence of strings, until the octets end; `referral` is the referral read so far.
pub open spec fn read_referral_at(buf: Seq<u8>, p: int, end: int, referral: Option<Seq<Seq<char>>>)
    -> Result<Option<Seq<Seq<char>>>, BerError>
    decreases end - p,
{
    match ber_header_at(buf, p, end) {
        Err(BerError::UnexpectedEof) => Ok(referral),
        Err(e) => Err(e),
        Ok((t, len, c)) => if t != RESULT_REFERRAL || referral is Some {
            Err(BerError::InvalidData)
        } else if sub_end(c, len, end) <= p || sub_end(c, len, end) > end {
            Ok(referral)
        } else {
            match read_strs_at(buf, c, sub_end(c, len, end)) {
                Err(e) => Err(e),
                Ok(v) => read_referral_at(buf, sub_end(c, len, end), end, Some(v)),
            }
        },
    }
}

/// Reading the components of a result from `p` to `end`.
pub open spec fn read_result_at(buf: Seq<u8>, p: int, end: int) -> Result<ResultView, BerError> {
    match ber_int_at(buf, p, end, BER_ENUMERATED) {
        Err(e) => Err(e),
        Ok((v, q1)) => match result_code_of(v as usize) {
            None => Err(BerError::InvalidData),
            Some(code) => match ber_str_at(buf, q1, end, BER_OCTET_STRING) {
                Err(e) => Err(e),
                Ok((m, q2)) => match ber_str_at(buf, q2, end, BER_OCTET_STRING) {
                    Err(e) => Err(e),
                    Ok((d, q3)) => match read_referral_at(buf, q3, end, None) {
                        Err(e) => Err(e),
                        Ok(r) => Ok(ResultView { code, matched: m, diag: d, referral: r }),
                    },
                },
            },
        },
    }
}

/// Reading a string element that may be missing: nothing where the octets end.
pub open spec fn read_opt_str_at(buf: Seq<u8>, p: int, end: int, tag: u8) -> Result<Option<Seq<char>>, BerError> {
    match ber_str_at(buf, p, end, tag) {
        Err(BerError::UnexpectedEof) => Ok(None),
        Err(e) => Err(e),
        Ok((s, q)) => Ok(Some(s)),
    }
}

/// Reading the authentication choice of a bind request: simple, whose contents are the
/// password, or SASL, a sequence of the mechanism and perhaps credentials.
pub open spec fn read_auth_at(buf: Seq<u8>, p: int, end: int) -> Result<AuthView, BerError> {
    match ber_header_at(buf, p, end) {
        Err(e) => Err(e),
        Ok((t, len, c)) => if t == AUTH_SIMPLE {
            if valid_utf8(buf.subrange(c, sub_end(c, len, end))) {
                Ok(AuthView::Simple(decode_utf8(buf.subrange(c, sub_end(c, len, end)))))
            } else {
                Err(BerError::InvalidData)
            }
        } else if t == AUTH_SASL {
            match ber_str_at(buf, c, sub_end(c, len, end), BER_OCTET_STRING) {
                Err(e) => Err(e),
                Ok((m, q)) => match read_opt_str_at(buf, q, sub_end(c, len, end), BER_OCTET_STRING) {
                    Err(e) => Err(e),
                    Ok(cr) => Ok(AuthView::Sasl(m, cr)),
                },
            }
        } else {
            Err(BerError::InvalidData)
        },
    }
}

/// Reading the operation of a message: a bind request, a bind response or an unbind request.
/// The components of a bind response's result are read to the end of the operation, so no
/// server credentials are read after them.
pub open spec fn read_op_at(buf: Seq<u8>, p: int, end: int) -> Result<OpView, BerError> {
    match ber_header_at(buf, p, end) {
        Err(e) => Err(e),
        Ok((t, len, c)) => if t == PROTOCOL_OP_BIND_REQUEST {
            match ber_int_at(buf, c, sub_end(c, len, end), BER_INTEGER) {
                Err(e) => Err(e),
                Ok((v, q1)) => match ber_str_at(buf, q1, sub_end(c, len, end), BER_OCTET_STRING) {
                    Err(e) => Err(e),
                    Ok((n, q2)) => match read_auth_at(buf, q2, sub_end(c, len, end)) {
                        Err(e) => Err(e),
                        Ok(a) => Ok(OpView::BindRequest(v as u8, n, a)),
                    },
                },
            }
        } else if t == PROTOCOL_OP_BIND_RESPONSE {
            match read_result_at(buf, c, sub_end(c, len, end)) {
                Err(e) => Err(e),
                Ok(r) => Ok(OpView::BindResponse(r, None)),
            }
        } else if t == PROTOCOL_OP_UNBIND_REQUEST {
            Ok(OpView::UnbindRequest)
        } else {
            Err(BerError::InvalidData)
        },
    }
}

/// Reading the contents of a message from `p` to `end`: the message identifier and the
/// operation; no controls are read.
pub open spec fn read_message_at(buf: Seq<u8>, p: int, end: int) -> Result<MessageView, BerError> {
    match ber_int_at(buf, p, end, BER_INTEGER) {
        Err(e) => Err(e),
        Ok((id, q)) => match read_op_at(buf, q, end) {
            Err(e) => Err(e),
            Ok(op) => Ok(MessageView { id: id as u32, op, has_controls: false }),
        },
    }
}

proof fn lemma_header_bounds(buf: Seq<u8>, p: int, end: int)
    ensures
        ber_header_at(buf, p, end) matches Ok((t, len, c)) ==> p + 2 <= c <= end,
        ber_str_at(buf, p, end, BER_OCTET_STRING) matches Ok((s, q)) ==> p + 2 <= q <= end,
{
}

fn read_strs(buf: &[u8], p: usize, end: usize) -> (r: Result<Vec<String>, BerError>)
    requires
        p <= end <= buf@.len(),
    ensures
        match read_strs_at(buf@, p as int, end as int) {
            Err(e) => r == Err::<Vec<String>, BerError>(e),
            Ok(v) => r matches Ok(x) && strings_view(x@) == v,
        },
{
    let mut out: Vec<String> = Vec::new();
    let mut pos = p;
    loop
        invariant
            p <= pos <= end <= buf@.len(),
            match read_strs_at(buf@, p as int, end as int) {
                Err(e) => read_strs_at(buf@, pos as int, end as int) == Err::<Seq<Seq<char>>, BerError>(e),
                Ok(v) => read_strs_at(buf@, pos as int, end as int) matches Ok(rest)
                    && v == strings_view(out@) + rest,
            },
        decreases end - pos,
    {
        let ghost p0 = pos as int;
        proof {
            lemma_header_bounds(buf@, p0, end as int);
        }
        let item = read_ber_str(buf, &mut pos, end, BER_OCTET_STRING);
        match BerSeqIter::next(item) {
            Err(e) => return Err(e),
            Ok(None) => {
                proof {
                    assert(strings_view(out@) + Seq::<Seq<char>>::empty() =~= strings_view(out@));
                }
                return Ok(out);
            }
            Ok(Some(s)) => {
                let ghost before = out@;
                out.push(s);
                proof {
                    assert(strings_view(out@) =~= strings_view(before).push(s@));
                    match read_strs_at(buf@, p as int, end as int) {
                        Ok(v) => {
                            let rest = read_strs_at(buf@, pos as int, end as int);
                            assert(rest matches Ok(r2) && read_strs_at(buf@, p0, end as int) == Ok::<Seq<Seq<char>>, BerError>(seq![s@] + r2));
                            assert(strings_view(before) + (seq![s@] + rest.unwrap()) =~= strings_view(out@) + rest.unwrap());
                        }
                        Err(_) => {}
                    }
                }
            }
        }
    }
}

fn read_referral(buf: &[u8], p: usize, end: usize) -> (r: Result<Option<Vec<String>>, BerError>)
    requires
        p <= end <= buf@.len(),
    ensures
        match read_referral_at(buf@, p as int, end as int, None) {
            Err(e) => r == Err::<Option<Vec<String>>, BerError>(e),
            Ok(None) => r == Ok::<Option<Vec<String>>, BerError>(None),
            Ok(Some(v)) => r matches Ok(Some(x)) && strings_view(x@) == v,
        },
{
    let mut referral: Option<Vec<String>> = None;
    let mut pos = p;
    loop
        invariant
            p <= pos <= end <= buf@.len(),
            read_referral_at(buf@, p as int, end as int, None) == read_referral_at(buf@, pos as int, end as int,
                match referral {
                    Some(x) => Some(strings_view(x@)),
                    None => None,
                }),
        decreases end - pos,
    {
        let ghost p0 = pos as int;
        proof {
            lemma_header_bounds(buf@, p0, end as int);
        }
        let mut q = pos;
        match read_ber(buf, &mut q, end) {
            Err(BerError::UnexpectedEof) => return Ok(referral),
            Err(e) => return Err(e),
            Ok((t, len)) => {
                if t != RESULT_REFERRAL || referral.is_some() {
                    return Err(BerError::InvalidData);
                }
                let e2 = if len < end - q { q + len } else { end };
                let v = match read_strs(buf, q, e2) {
                    Ok(v) => v,
                    Err(e) => return Err(e),
                };
                referral = Some(v);
                pos = e2;
            }
        }
    }
}

impl LdapResult {
    /// Reads the components of a result from `p` to `end`: the code, the matched name, the
    /// diagnostic message, and at most one referral, until the octets end.
    pub fn read_components(buf: &[u8], p: usize, end: usize) -> (r: Result<LdapResult, BerError>)
        requires
            p <= end <= buf@.len(),
        ensures
            match read_result_at(buf@, p as int, end as int) {
                Err(e) => r == Err::<LdapResult, BerError>(e),
                Ok(v) => r matches Ok(x) && result_view(x) == v,
            },
    {
        let mut pos = p;
        let v = match read_ber_int(buf, &mut pos, end, BER_ENUMERATED) {
            Ok(v) => v,
            Err(e) => return Err(e),
        };
        let result_code = match ResultCode::from_int(v as usize) {
            Some(c) => c,
            None => return Err(BerError::InvalidData),
        };
        let matched_dn = match read_ber_str(buf, &mut pos, end, BER_OCTET_STRING) {
            Ok(s) => s,
            Err(e) => return Err(e),
        };
        let diagnostic_message = match read_ber_str(buf, &mut pos, end, BER_OCTET_STRING) {
            Ok(s) => s,
            Err(e) => return Err(e),
        };
        let referral = match read_referral(buf, pos, end) {
            Ok(r) => r,
            Err(e) => return Err(e),
        };
        let r = LdapResult { result_code, matched_dn, diagnostic_message, referral };
        proof {
            match read_result_at(buf@, p as int, end as int) {
                Ok(v) => {
                    assert(result_view(r) =~~= v);
                }
                Err(_) => {}
            }
        }
        Ok(r)
    }
}

fn read_opt_str(buf: &[u8], p: usize, end: usize, tag: BerTag) -> (r: Result<Option<String>, BerError>)
    requires
        p <= end <= buf@.len(),
    ensures
        match read_opt_str_at(buf@, p as int, end as int, tag) {
            Err(e) => r == Err::<Option<String>, BerError>(e),
            Ok(None) => r == Ok::<Option<String>, BerError>(None),
            Ok(Some(s)) => r matches Ok(Some(x)) && x@ == s,
        },
{
    let mut pos = p;
    BerSeqIter::next(read_ber_str(buf, &mut pos, end, tag))
}

fn read_auth(buf: &[u8], p: usize, end: usize) -> (r: Result<AuthenticationChoice, BerError>)
    requires
        p <= end <= buf@.len(),
    ensures
        match read_auth_at(buf@, p as int, end as int) {
            Err(e) => r == Err::<AuthenticationChoice, BerError>(e),
            Ok(v) => r matches Ok(x) && auth_view(x) == v,
        },
{
    let mut pos = p;
    let (t, len) = match read_ber(buf, &mut pos, end) {
        Ok(h) => h,
        Err(e) => return Err(e),
    };
    let c = pos;
    let e2 = if len < end - c { c + len } else { end };
    if t == AUTH_SIMPLE {
        let d = vstd::slice::slice_subrange(buf, c, e2);
        match utf8_str(d) {
            Some(s) => {
                proof {
                    lemma_utf8_chars(s, d@);
                }
                Ok(AuthenticationChoice::Simple(String::from_str(s)))
            }
            None => Err(BerError::InvalidData),
        }
    } else if t == AUTH_SASL {
        let mut q = c;
        let mechanism = match read_ber_str(buf, &mut q, e2, BER_OCTET_STRING) {
            Ok(s) => s,
            Err(e) => return Err(e),
        };
        let credentials = match read_opt_str(buf, q, e2, BER_OCTET_STRING) {
            Ok(c) => c,
            Err(e) => return Err(e),
        };
        let r = AuthenticationChoice::Sasl(SaslCredentials { mechanism, credentials });
        proof {
            match read_auth_at(buf@, p as int, end as int) {
                Ok(v) => {
                    assert(auth_view(r) =~~= v);
                }
                Err(_) => {}
            }
        }
        Ok(r)
    } else {
        Err(BerError::InvalidData)
    }
}

fn read_op(buf: &[u8], p: usize, end: usize) -> (r: Result<ProtocolOp, BerError>)
    requires
        p <= end <= buf@.len(),
    ensures
        match read_op_at(buf@, p as int, end as int) {
            Err(e) => r == Err::<ProtocolOp, BerError>(e),
            Ok(v) => r matches Ok(x) && op_view(x) == v,
        },
{
    let mut pos = p;
    let (t, len) = match read_ber(buf, &mut pos, end) {
        Ok(h) => h,
        Err(e) => return Err(e),
    };
    let c = pos;
    let e2 = if len < end - c { c + len } else { end };
    if t == PROTOCOL_OP_BIND_REQUEST {
        let mut q = c;
        let version = match read_ber_int(buf, &mut q, e2, BER_INTEGER) {
            Ok(v) => v as u8,
            Err(e) => return Err(e),
        };
        let name = match read_ber_str(buf, &mut q, e2, BER_OCTET_STRING) {
            Ok(s) => s,
            Err(e) => return Err(e),
        };
        let authentication = match read_auth(buf, q, e2) {
            Ok(a) => a,
            Err(e) => return Err(e),
        };
        let r = ProtocolOp::BindRequest(BindRequest { version, name, authentication });
        proof {
            match read_op_at(buf@, p as int, end as int) {
                Ok(v) => {
                    assert(op_view(r) =~~= v);
                }
                Err(_) => {}
            }
        }
        Ok(r)
    } else if t == PROTOCOL_OP_BIND_RESPONSE {
        let result = match LdapResult::read_components(buf, c, e2) {
            Ok(r) => r,
            Err(e) => return Err(e),
        };
        let r = ProtocolOp::BindResponse(BindResponse { result, server_sasl_creds: None });
        proof {
            match read_op_at(buf@, p as int, end as int) {
                Ok(v) => {
                    assert(op_view(r) =~~= v);
                }
                Err(_) => {}
            }
        }
        Ok(r)
    } else if t == PROTOCOL_OP_UNBIND_REQUEST {
        Ok(ProtocolOp::UnbindRequest)
    } else {
        Err(BerError::InvalidData)
    }
}

/// Reads the contents of a message: the message identifier and the operation. Reading is
/// provided for the operations of a bind; no controls are read.
pub fn read_msg(buf: &[u8]) -> (r: Result<Message, BerError>)
    ensures
        match read_message_at(buf@, 0, buf@.len() as int) {
            Err(e) => r == Err::<Message, BerError>(e),
            Ok(v) => r matches Ok(m) && m@ == v,
        },
{
    let end = buf.len();
    let mut pos: usize = 0;
    let id = match read_ber_int(buf, &mut pos, end, BER_INTEGER) {
        Ok(v) => v as u32,
        Err(e) => return Err(e),
    };
    let protocol_op = match read_op(buf, pos, end) {
        Ok(op) => op,
        Err(e) => return Err(e),
    };
    let m = Message { message_id: id, protocol_op, controls: None };
    proof {
        match read_message_at(buf@, 0, buf@.len() as int) {
            Ok(v) => {
                assert(m@ =~~= v);
            }
            Err(_) => {}
        }
    }
    Ok(m)
}

/// The octets of a region made of three parts: where the middle one and the last lie.
proof fn lemma_piece(buf: Seq<u8>, p: int, end: int, pre: Seq<u8>, x: Seq<u8>, post: Seq<u8>)
    requires
        0 <= p <= end <= buf.len(),
        buf.subrange(p, end) == pre + x + post,
    ensures
        p + pre.len() + x.len() + post.len() == end,
        buf.subrange(p + pre.len(), p + pre.len() + x.len()) == x,
        buf.subrange(p + pre.len(), end) == x + post,
        buf.subrange(p + pre.len() + x.len(), end) == post,
{
    let w = pre + x + post;
    assert(buf.subrange(p, end).len() == end - p);
    let a = p + pre.len();
    let b = a + x.len();
    assert forall|i: int| 0 <= i < x.len() implies buf.subrange(a, b)[i] == x[i] by {
        assert(buf.subrange(a, b)[i] == buf[a + i]);
        assert(buf.subrange(p, end)[pre.len() + i] == buf[a + i]);
        assert(w[pre.len() + i] == x[i]);
    }
    assert(buf.subrange(a, b) =~= x);
    assert forall|i: int| 0 <= i < x.len() + post.len() implies buf.subrange(a, end)[i] == (x + post)[i] by {
        assert(buf.subrange(a, end)[i] == buf[a + i]);
        assert(buf.subrange(p, end)[pre.len() + i] == buf[a + i]);
        assert(w[pre.len() + i] == (x + post)[i]);
    }
    assert(buf.subrange(a, end) =~= x + post);
    assert forall|i: int| 0 <= i < post.len() implies buf.subrange(b, end)[i] == post[i] by {
        assert(buf.subrange(b, end)[i] == buf[b + i]);
        assert(buf.subrange(p, end)[pre.len() + x.len() + i] == buf[b + i]);
        assert(w[pre.len() + x.len() + i] == post[i]);
    }
    assert(buf.subrange(b, end) =~= post);
}

proof fn lemma_str_roundtrip(buf: Seq<u8>, p: int, end: int, tag: u8, s: Seq<char>)
    requires
        0 <= p,
        encode_utf8(s).len() <= usize::MAX,
        p + str_data(tag, s).len() <= end <= buf.len(),
        buf.subrange(p, p + str_data(tag, s).len()) == str_data(tag, s),
    ensures
        ber_str_at(buf, p, end, tag) == Ok::<(Seq<char>, int), BerError>((s, p + str_data(tag, s).len())),
{
    lemma_data_roundtrip(buf, p, end, tag, encode_utf8(s));
    vstd::utf8::encode_utf8_valid_utf8(s);
    vstd::utf8::encode_utf8_decode_utf8(s);
}

proof fn lemma_strs_roundtrip(buf: Seq<u8>, p: int, end: int, v: Seq<Seq<char>>)
    requires
        0 <= p <= end <= buf.len(),
        strs_wire(v).len() < 0x10000,
        buf.subrange(p, end) == strs_wire(v),
    ensures
        read_strs_at(buf, p, end) == Ok::<Seq<Seq<char>>, BerError>(v),
    decreases v.len(),
{
    if v.len() == 0 {
        assert(strs_wire(v).len() == 0);
        assert(ber_str_at(buf, p, end, BER_OCTET_STRING) == Err::<(Seq<char>, int), BerError>(BerError::UnexpectedEof));
        assert(v =~= Seq::<Seq<char>>::empty());
    } else {
        let first = str_data(BER_OCTET_STRING, v[0]);
        let q = p + first.len();
        assert(strs_wire(v) == first + strs_wire(v.skip(1)));
        assert(Seq::<u8>::empty() + first + strs_wire(v.skip(1)) =~= strs_wire(v));
        lemma_piece(buf, p, end, Seq::empty(), first, strs_wire(v.skip(1)));
        lemma_str_roundtrip(buf, p, end, BER_OCTET_STRING, v[0]);
        lemma_strs_roundtrip(buf, q, end, v.skip(1));
        assert(seq![v[0]] + v.skip(1) =~= v);
    }
}

/// The referral of a result as written.
pub open spec fn referral_wire(r: Option<Seq<Seq<char>>>) -> Seq<u8> {
    match r {
        Some(v) => ber_framed(RESULT_REFERRAL, strs_wire(v)),
        None => Seq::empty(),
    }
}

proof fn lemma_framed_piece(buf: Seq<u8>, p: int, end: int, tag: u8, c: Seq<u8>)
    requires
        0 <= p <= end <= buf.len(),
        buf.subrange(p, end) == ber_framed(tag, c),
        c.len() < 0x10000,
    ensures
        ber_header_at(buf, p, end) == Ok::<(u8, usize, int), BerError>((tag, c.len() as usize, p + 4)),
        p + 4 + c.len() == end,
        buf.subrange(p + 4, end) == c,
{
    lemma_be_octets_len((c.len() % 0x10000) as nat, 2);
    let h = seq![tag, 0x82u8] + be_octets((c.len() % 0x10000) as nat, 2);
    assert(Seq::<u8>::empty() + h + c =~= ber_framed(tag, c));
    lemma_piece(buf, p, end, Seq::empty(), h, c);
    assert(ber_framed(tag, c).subrange(0, 4) =~= h);
    lemma_framed_header(buf, p, end, tag, c);
}

proof fn lemma_referral_roundtrip(buf: Seq<u8>, p: int, end: int, r: Option<Seq<Seq<char>>>)
    requires
        0 <= p <= end <= buf.len(),
        referral_wire(r).len() < 0x10000,
        buf.subrange(p, end) == referral_wire(r),
    ensures
        read_referral_at(buf, p, end, None) == Ok::<Option<Seq<Seq<char>>>, BerError>(r),
{
    match r {
        None => {
            assert(p == end);
        }
        Some(v) => {
            let c = strs_wire(v);
            lemma_be_octets_len((c.len() % 0x10000) as nat, 2);
            lemma_framed_piece(buf, p, end, RESULT_REFERRAL, c);
            lemma_strs_roundtrip(buf, p + 4, end, v);
            assert(ber_header_at(buf, end, end) == Err::<(u8, usize, int), BerError>(BerError::UnexpectedEof));
            assert(read_referral_at(buf, end, end, Some(v)) == Ok::<Option<Seq<Seq<char>>>, BerError>(Some(v)));
            assert(sub_end(p + 4, c.len() as usize, end) == end);
        }
    }
}

proof fn lemma_result_roundtrip(buf: Seq<u8>, p: int, end: int, r: ResultView)
    requires
        0 <= p <= end <= buf.len(),
        referral_wire(r.referral).len() < 0x10000,
        encode_utf8(r.matched).len() <= usize::MAX,
        encode_utf8(r.diag).len() <= usize::MAX,
        buf.subrange(p, end) == result_wire(r),
    ensures
        read_result_at(buf, p, end) == Ok::<ResultView, BerError>(r),
{
    let a = ber_data(BER_ENUMERATED, int_octets(result_code_value(r.code) as i64));
    let m = str_data(BER_OCTET_STRING, r.matched);
    let d = str_data(BER_OCTET_STRING, r.diag);
    let f = referral_wire(r.referral);
    assert(result_wire(r) =~= a + m + d + f);
    assert(Seq::<u8>::empty() + a + (m + (d + f)) =~= result_wire(r));
    lemma_piece(buf, p, end, Seq::empty(), a, m + (d + f));
    lemma_int_roundtrip(buf, p, end, BER_ENUMERATED, result_code_value(r.code) as i64);
    lemma_result_code_roundtrip(r.code);
    let q1 = p + a.len();
    assert(Seq::<u8>::empty() + m + (d + f) =~= m + (d + f));
    lemma_piece(buf, q1, end, Seq::empty(), m, d + f);
    lemma_str_roundtrip(buf, q1, end, BER_OCTET_STRING, r.matched);
    let q2 = q1 + m.len();
    assert(Seq::<u8>::empty() + d + f =~= d + f);
    lemma_piece(buf, q2, end, Seq::empty(), d, f);
    lemma_str_roundtrip(buf, q2, end, BER_OCTET_STRING, r.diag);
    let q3 = q2 + d.len();
    lemma_referral_roundtrip(buf, q3, end, r.referral);
    assert(read_result_at(buf, p, end) =~~= Ok::<ResultView, BerError>(r));
}

proof fn lemma_auth_roundtrip(buf: Seq<u8>, p: int, end: int, a: AuthView)
    requires
        0 <= p <= end <= buf.len(),
        auth_wire(a).len() < 0x10000,
        buf.subrange(p, end) == auth_wire(a),
    ensures
        read_auth_at(buf, p, end) == Ok::<AuthView, BerError>(a),
{
    match a {
        AuthView::Simple(s) => {
            let e = encode_utf8(s);
            lemma_be_octets_len(e.len(), 8);
            let h = ber_header(AUTH_SIMPLE, e.len());
            assert(Seq::<u8>::empty() + h + e =~= auth_wire(a));
            lemma_piece(buf, p, end, Seq::empty(), h, e);
            lemma_header_roundtrip(buf, p, end, AUTH_SIMPLE, e.len());
            vstd::utf8::encode_utf8_valid_utf8(s);
            vstd::utf8::encode_utf8_decode_utf8(s);
        }
        AuthView::Sasl(m, cr) => {
            let md = str_data(BER_OCTET_STRING, m);
            let cd = match cr {
                Some(x) => str_data(BER_OCTET_STRING, x),
                None => Seq::empty(),
            };
            let c = md + cd;
            lemma_framed_piece(buf, p, end, AUTH_SASL, c);
            assert(Seq::<u8>::empty() + md + cd =~= c);
            lemma_piece(buf, p + 4, end, Seq::empty(), md, cd);
            lemma_str_roundtrip(buf, p + 4, end, BER_OCTET_STRING, m);
            let q = p + 4 + md.len();
            match cr {
                Some(x) => {
                    lemma_str_roundtrip(buf, q, end, BER_OCTET_STRING, x);
                }
                None => {
                    assert(q == end);
                    assert(ber_str_at(buf, q, end, BER_OCTET_STRING) == Err::<(Seq<char>, int), BerError>(BerError::UnexpectedEof));
                }
            }
            assert(read_auth_at(buf, p, end) =~~= Ok::<AuthView, BerError>(a));
        }
    }
}

/// Whether writing a message and reading it back is meant to give the message: an operation
/// of a bind, no controls, no server credentials in a bind response (they are not read back),
/// and contents shorter than 2^16 octets (the framing of the elements counts 16 bits).
pub open spec fn message_writable(m: MessageView) -> bool {
    &&& !m.has_controls
    &&& !(m.op is Other)
    &&& (m.op matches OpView::BindResponse(_, c) ==> c is None)
    &&& message_contents(m).len() < 0x10000
}

proof fn lemma_bind_request_roundtrip(buf: Seq<u8>, p: int, end: int, version: u8, name: Seq<char>, auth: AuthView)
    requires
        0 <= p <= end <= buf.len(),
        op_wire(OpView::BindRequest(version, name, auth)).len() < 0x10000,
        buf.subrange(p, end) == op_wire(OpView::BindRequest(version, name, auth)),
    ensures
        read_op_at(buf, p, end) == Ok::<OpView, BerError>(OpView::BindRequest(version, name, auth)),
{
    let iv = ber_data(BER_INTEGER, int_octets(version as i64));
    let nd = str_data(BER_OCTET_STRING, name);
    let ad = auth_wire(auth);
    let c = iv + nd + ad;
    lemma_framed_piece(buf, p, end, PROTOCOL_OP_BIND_REQUEST, c);
    assert(Seq::<u8>::empty() + iv + (nd + ad) =~= c);
    lemma_piece(buf, p + 4, end, Seq::empty(), iv, nd + ad);
    lemma_int_roundtrip(buf, p + 4, end, BER_INTEGER, version as i64);
    assert(((version as i64) as i32 as u32) as i64 as u8 == version) by (bit_vector);
    let q1 = p + 4 + iv.len();
    assert(Seq::<u8>::empty() + nd + ad =~= nd + ad);
    lemma_piece(buf, q1, end, Seq::empty(), nd, ad);
    lemma_str_roundtrip(buf, q1, end, BER_OCTET_STRING, name);
    let q2 = q1 + nd.len();
    lemma_auth_roundtrip(buf, q2, end, auth);
    assert(read_op_at(buf, p, end) =~~= Ok::<OpView, BerError>(OpView::BindRequest(version, name, auth)));
}

proof fn lemma_op_roundtrip(buf: Seq<u8>, p: int, end: int, op: OpView)
    requires
        0 <= p <= end <= buf.len(),
        !(op is Other),
        op matches OpView::BindResponse(_, c) ==> c is None,
        op_wire(op).len() < 0x10000,
        buf.subrange(p, end) == op_wire(op),
    ensures
        read_op_at(buf, p, end) == Ok::<OpView, BerError>(op),
{
    match op {
        OpView::BindRequest(version, name, auth) => {
            lemma_bind_request_roundtrip(buf, p, end, version, name, auth);
        }
        OpView::BindResponse(result, creds) => {
            let c = result_wire(result);
            lemma_framed_piece(buf, p, end, PROTOCOL_OP_BIND_RESPONSE, c);
            lemma_result_roundtrip(buf, p + 4, end, result);
            assert(read_op_at(buf, p, end) =~~= Ok::<OpView, BerError>(op));
        }
        OpView::UnbindRequest => {
            assert(buf[p] == buf.subrange(p, end)[0]);
            assert(buf[p + 1] == buf.subrange(p, end)[1]);
        }
        OpView::Other => {}
    }
}

/// Writing a message that `message_writable` admits and reading it back gives the message:
/// the sequence header frames the contents, and the contents read back as the message.
pub proof fn lemma_message_roundtrip(m: MessageView)
    requires
        message_writable(m),
    ensures
        ber_header_at(message_wire(m), 0, message_wire(m).len() as int)
            == Ok::<(u8, usize, int), BerError>((BER_SEQUENCE, message_contents(m).len() as usize, 4)),
        read_message_at(message_wire(m), 4, message_wire(m).len() as int) == Ok::<MessageView, BerError>(m),
{
    let buf = message_wire(m);
    let c = message_contents(m);
    let end = buf.len() as int;
    assert(buf.subrange(0, end) =~= buf);
    lemma_framed_piece(buf, 0, end, BER_SEQUENCE, c);
    let iv = ber_data(BER_INTEGER, int_octets(m.id as i64));
    assert(Seq::<u8>::empty() + iv + op_wire(m.op) =~= c);
    lemma_piece(buf, 4, end, Seq::empty(), iv, op_wire(m.op));
    lemma_int_roundtrip(buf, 4, end, BER_INTEGER, m.id as i64);
    let id = m.id;
    assert((((id as i64) as i32 as u32) as i64) as u32 == id) by (bit_vector);
    lemma_op_roundtrip(buf, 4 + iv.len() as int, end, m.op);
    assert(read_message_at(buf, 4, end) =~~= Ok::<MessageView, BerError>(m));
}
/// Reading back the components written for a result gives the result, where its referral
/// takes fewer than 65536 octets (its frame has a two-octet length).
pub proof fn lemma_result_components_roundtrip(r: ResultView)
    requires
        referral_wire(r.referral).len() < 0x10000,
        encode_utf8(r.matched).len() <= usize::MAX,
        encode_utf8(r.diag).len() <= usize::MAX,
    ensures
        read_result_at(result_wire(r), 0, result_wire(r).len() as int) == Ok::<ResultView, BerError>(r),
{
    let buf = result_wire(r);
    assert(buf.subrange(0, buf.len() as int) =~= buf);
    lemma_result_roundtrip(buf, 0, buf.len() as int, r);
}
/// The result codes of LDAP, as RFC 4511 (appendix A) assigns them: each result is written as
/// its code, and each code reads as its result.
#[verifier::rlimit(50)]
pub proof fn lemma_result_code_numbers()
    ensures
        result_code_value(ResultCode::Success) == 0,
        result_code_of(0) == Some(ResultCode::Success),
        result_code_value(ResultCode::OperationsError) == 1,
        result_code_of(1) == Some(ResultCode::OperationsError),
        result_code_value(ResultCode::ProtocolError) == 2,
        result_code_of(2) == Some(ResultCode::ProtocolError),
        result_code_value(ResultCode::TimeLimitExceeded) == 3,
        result_code_of(3) == Some(ResultCode::TimeLimitExceeded),
        result_code_value(ResultCode::SizeLimitExceeded) == 4,
        result_code_of(4) == Some(ResultCode::SizeLimitExceeded),
        result_code_value(ResultCode::CompareFalse) == 5,
        result_code_of(5) == Some(ResultCode::CompareFalse),
        result_code_value(ResultCode::CompareTrue) == 6,
        result_code_of(6) == Some(ResultCode::CompareTrue),
        result_code_value(ResultCode::AuthMethodNotSupported) == 7,
        result_code_of(7) == Some(ResultCode::AuthMethodNotSupported),
        result_code_value(ResultCode::StrongerAuthRequired) == 8,
        result_code_of(8) == Some(ResultCode::StrongerAuthRequired),
        result_code_value(ResultCode::Referral) == 10,
        result_code_of(10) == Some(ResultCode::Referral),
        result_code_value(ResultCode::AdminLimitExceeded) == 11,
        result_code_of(11) == Some(ResultCode::AdminLimitExceeded),
        result_code_value(ResultCode::UnavailableCriticalExtension) == 12,
        result_code_of(12) == Some(ResultCode::UnavailableCriticalExtension),
        result_code_value(ResultCode::ConfidentialityRequired) == 13,
        result_code_of(13) == Some(ResultCode::ConfidentialityRequired),
        result_code_value(ResultCode::SaslBindInProgress) == 14,
        result_code_of(14) == Some(ResultCode::SaslBindInProgress),
        result_code_value(ResultCode::NoSuchAttribute) == 16,
        result_code_of(16) == Some(ResultCode::NoSuchAttribute),
        result_code_value(ResultCode::UndefinedAttributeType) == 17,
        result_code_of(17) == Some(ResultCode::UndefinedAttributeType),
        result_code_value(ResultCode::InappropriateMatching) == 18,
        result_code_of(18) == Some(ResultCode::InappropriateMatching),
        result_code_value(ResultCode::ConstraintViolation) == 19,
        result_code_of(19) == Some(ResultCode::ConstraintViolation),
        result_code_value(ResultCode::AttributeOrValueExists) == 20,
        result_code_of(20) == Some(ResultCode::AttributeOrValueExists),
        result_code_value(ResultCode::InvalidAttributeSyntax) == 21,
        result_code_of(21) == Some(ResultCode::InvalidAttributeSyntax),
        result_code_value(ResultCode::NoSuchObject) == 32,
        result_code_of(32) == Some(ResultCode::NoSuchObject),
        result_code_value(ResultCode::AliasProblem) == 33,
        result_code_of(33) == Some(ResultCode::AliasProblem),
        result_code_value(ResultCode::InvalidDNSyntax) == 34,
        result_code_of(34) == Some(ResultCode::InvalidDNSyntax),
        result_code_value(ResultCode::AliasDereferencingProblem) == 36,
        result_code_of(36) == Some(ResultCode::AliasDereferencingProblem),
        result_code_value(ResultCode::InappropriateAuthentication) == 48,
        result_code_of(48) == Some(ResultCode::InappropriateAuthentication),
        result_code_value(ResultCode::InvalidCredentials) == 49,
        result_code_of(49) == Some(ResultCode::InvalidCredentials),
        result_code_value(ResultCode::InsufficientAccessRights) == 50,
        result_code_of(50) == Some(ResultCode::InsufficientAccessRights),
        result_code_value(ResultCode::Busy) == 51,
        result_code_of(51) == Some(ResultCode::Busy),
        result_code_value(ResultCode::Unavailable) == 52,
        result_code_of(52) == Some(ResultCode::Unavailable),
        result_code_value(ResultCode::UnwillingToPerform) == 53,
        result_code_of(53) == Some(ResultCode::UnwillingToPerform),
        result_code_value(ResultCode::LoopDetect) == 54,
        result_code_of(54) == Some(ResultCode::LoopDetect),
        result_code_value(ResultCode::NamingViolation) == 64,
        result_code_of(64) == Some(ResultCode::NamingViolation),
        result_code_value(ResultCode::ObjectClassViolation) == 65,
        result_code_of(65) == Some(ResultCode::ObjectClassViolation),
        result_code_value(ResultCode::NotAllowedOnNonLeaf) == 66,
        result_code_of(66) == Some(ResultCode::NotAllowedOnNonLeaf),
        result_code_value(ResultCode::NotAllowedOnRDN) == 67,
        result_code_of(67) == Some(ResultCode::NotAllowedOnRDN),
        result_code_value(ResultCode::EntryAlreadyExists) == 68,
        result_code_of(68) == Some(ResultCode::EntryAlreadyExists),
        result_code_value(ResultCode::ObjectClassModsProhibited) == 69,
        result_code_of(69) == Some(ResultCode::ObjectClassModsProhibited),
        result_code_value(ResultCode::AffectsMultipleDSAs) == 71,
        result_code_of(71) == Some(ResultCode::AffectsMultipleDSAs),
        result_code_value(ResultCode::Other) == 80,
        result_code_of(80) == Some(ResultCode::Other),
{
}

/// Every number that reads as a result code is the number that result code is written as.
pub proof fn lemma_result_code_of_inverse(v: usize)
    ensures
        result_code_of(v) matches Some(x) ==> result_code_value(x) == v,
{
}

} // verus!
