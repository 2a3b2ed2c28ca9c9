//! Builders of LDAP messages: a client's or a server's message, its operation chosen, then the
//! fields of the operation set one by one. Each builder of an operation holds a message that
//! carries that operation.
use vstd::prelude::*;
use vstd::string::StringExecFns;
use crate::ldap::wire::{
    Message, MessageId, ProtocolOp, Control, LdapResult, ResultCode, Uri, DN, BindRequest, AuthenticationChoice,
    BindResponse, SearchRequest, SearchRequestScope, SearchRequestDerefAliases, SearchRequestFilter,
    SearchResultEntry, SearchResultReference, ModifyRequest, AddRequest, ModifyDNRequest, CompareRequest,
    AttributeValueAssertion, AbandonRequest, ExtendedRequest, ExtendedResponse, IntermediateResponse,
};

verus! {

/// An LDAP result as it starts: success, no matched name, no message, no referral.
pub open spec fn fresh_result(r: LdapResult) -> bool {
    &&& r.result_code == ResultCode::Success
    &&& r.matched_dn@ == Seq::<char>::empty()
    &&& r.diagnostic_message@ == Seq::<char>::empty()
    &&& r.referral is None
}

fn new_result() -> (r: LdapResult)
    ensures
        fresh_result(r),
{
    LdapResult { result_code: ResultCode::Success, matched_dn: String::new(), diagnostic_message: String::new(), referral: None }
}

/// The controls after one more control is added.
pub open spec fn controls_with(c: Option<Vec<Control>>, v: Control) -> Seq<Control> {
    match c {
        Some(l) => l@.push(v),
        None => seq![v],
    }
}

/// The referral after one more URI is added.
pub open spec fn referral_with(c: Option<Vec<Uri>>, v: Uri) -> Seq<Uri> {
    match c {
        Some(l) => l@.push(v),
        None => seq![v],
    }
}

fn push_control(c: Option<Vec<Control>>, v: Control) -> (r: Vec<Control>)
    ensures
        r@ == controls_with(c, v),
{
    let mut l = match c {
        Some(l) => l,
        None => Vec::new(),
    };
    l.push(v);
    l
}

fn push_uri(c: Option<Vec<Uri>>, v: Uri) -> (r: Vec<Uri>)
    ensures
        r@ == referral_with(c, v),
{
    let mut l = match c {
        Some(l) => l,
        None => Vec::new(),
    };
    l.push(v);
    l
}

/// Builds a message that a client sends.
#[derive(Debug)]
pub struct ClientMessageBuilder(Message);

impl ClientMessageBuilder {
    /// The message built so far.
    pub closed spec fn msg(&self) -> Message {
        self.0
    }

    /// The message built so far.
    pub fn message(&self) -> (r: &Message)
        ensures
            *r == self.msg(),
    {
        &self.0
    }

    /// A message of id 0 with no operation chosen yet and no controls.
    pub fn new() -> (r: Self)
        ensures
            r.msg().message_id == 0,
            r.msg().protocol_op is UnbindRequest,
            r.msg().controls is None,
    {
        ClientMessageBuilder(Message { message_id: 0, protocol_op: ProtocolOp::UnbindRequest, controls: None })
    }

    /// Adds a control.
    pub fn control(self, v: Control) -> (r: Self)
        ensures
            r.msg().message_id == self.msg().message_id,
            r.msg().protocol_op == self.msg().protocol_op,
            r.msg().controls matches Some(c) && c@ == controls_with(self.msg().controls, v),
    {
        let Message { message_id, protocol_op, controls } = self.0;
        ClientMessageBuilder(Message { message_id, protocol_op, controls: Some(push_control(controls, v)) })
    }

    /// Sets the controls.
    pub fn controls(self, v: Vec<Control>) -> (r: Self)
        ensures
            r.msg() == (Message { controls: Some(v), ..self.msg() }),
    {
        let Message { message_id, protocol_op, controls } = self.0;
        ClientMessageBuilder(Message { message_id, protocol_op, controls: Some(v) })
    }

    /// Chooses the operation: bind request, with its fields as they start.
    pub fn bind_request(self) -> (r: BindRequestBuilder)
        ensures
            r.msg().message_id == self.msg().message_id,
            r.msg().controls == self.msg().controls,
            r.msg().protocol_op matches ProtocolOp::BindRequest(b) && b.version == 0 && b.name@ == Seq::<char>::empty() && (b.authentication matches AuthenticationChoice::Simple(s) && s@ == Seq::<char>::empty()),
    {
        let Message { message_id, protocol_op, controls } = self.0;
        BindRequestBuilder(ClientMessageBuilder(Message { message_id, protocol_op: ProtocolOp::BindRequest(BindRequest { version: 0, name: String::new(), authentication: AuthenticationChoice::Simple(String::new()) }), controls }))
    }

    /// Chooses the operation: unbind request.
    pub fn unbind_request(self) -> (r: UnbindRequestBuilder)
        ensures
            r.msg() == (Message { protocol_op: ProtocolOp::UnbindRequest, ..self.msg() }),
    {
        let Message { message_id, protocol_op, controls } = self.0;
        UnbindRequestBuilder(ClientMessageBuilder(Message { message_id, protocol_op: ProtocolOp::UnbindRequest, controls }))
    }

    /// Chooses the operation: search request, with its fields as they start.
    pub fn search_request(self) -> (r: SearchRequestBuilder)
        ensures
            r.msg().message_id == self.msg().message_id,
            r.msg().controls == self.msg().controls,
            r.msg().protocol_op matches ProtocolOp::SearchRequest(b) && b.base_object@ == Seq::<char>::empty() && b.scope == SearchRequestScope::BaseObject && b.deref_aliases == SearchRequestDerefAliases::NeverDerefAliases && b.size_limit == 0 && b.time_limit == 0 && !b.types_only && (b.filter matches SearchRequestFilter::Present(s) && s@ == "objectClass"@) && b.attributes@.len() == 0,
    {
        let Message { message_id, protocol_op, controls } = self.0;
        SearchRequestBuilder(ClientMessageBuilder(Message { message_id, protocol_op: ProtocolOp::SearchRequest(SearchRequest { base_object: String::new(), scope: SearchRequestScope::BaseObject, deref_aliases: SearchRequestDerefAliases::NeverDerefAliases, size_limit: 0, time_limit: 0, types_only: false, filter: SearchRequestFilter::Present(String::from_str("objectClass")), attributes: Vec::new() }), controls }))
    }

    /// Chooses the operation: modify request, with its fields as they start.
    pub fn modify_request(self) -> (r: ModifyRequestBuilder)
        ensures
            r.msg().message_id == self.msg().message_id,
            r.msg().controls == self.msg().controls,
            r.msg().protocol_op matches ProtocolOp::ModifyRequest(b) && b.object@ == Seq::<char>::empty() && b.changes@.len() == 0,
    {
        let Message { message_id, protocol_op, controls } = self.0;
        ModifyRequestBuilder(ClientMessageBuilder(Message { message_id, protocol_op: ProtocolOp::ModifyRequest(ModifyRequest { object: String::new(), changes: Vec::new() }), controls }))
    }

    /// Chooses the operation: add request, with its fields as they start.
    pub fn add_request(self) -> (r: AddRequestBuilder)
        ensures
            r.msg().message_id == self.msg().message_id,
            r.msg().controls == self.msg().controls,
            r.msg().protocol_op matches ProtocolOp::AddRequest(b) && b.entry@ == Seq::<char>::empty() && b.attributes@.len() == 0,
    {
        let Message { message_id, protocol_op, controls } = self.0;
        AddRequestBuilder(ClientMessageBuilder(Message { message_id, protocol_op: ProtocolOp::AddRequest(AddRequest { entry: String::new(), attributes: Vec::new() }), controls }))
    }

    /// Chooses the operation: del request, with its fields as they start.
    pub fn del_request(self) -> (r: DelRequestBuilder)
        ensures
            r.msg().message_id == self.msg().message_id,
            r.msg().controls == self.msg().controls,
            r.msg().protocol_op matches ProtocolOp::DelRequest(b) && b@ == Seq::<char>::empty(),
    {
        let Message { message_id, protocol_op, controls } = self.0;
        DelRequestBuilder(ClientMessageBuilder(Message { message_id, protocol_op: ProtocolOp::DelRequest(String::new()), controls }))
    }

    /// Chooses the operation: modify dn request, with its fields as they start.
    pub fn modify_dn_request(self) -> (r: ModifyDNRequestBuilder)
        ensures
            r.msg().message_id == self.msg().message_id,
            r.msg().controls == self.msg().controls,
            r.msg().protocol_op matches ProtocolOp::ModifyDNRequest(b) && b.entry@ == Seq::<char>::empty() && b.new_rdn@ == Seq::<char>::empty() && !b.delete_old_drn && b.new_superior is None,
    {
        let Message { message_id, protocol_op, controls } = self.0;
        ModifyDNRequestBuilder(ClientMessageBuilder(Message { message_id, protocol_op: ProtocolOp::ModifyDNRequest(ModifyDNRequest { entry: String::new(), new_rdn: String::new(), delete_old_drn: false, new_superior: None }), controls }))
    }

    /// Chooses the operation: compare request, with its fields as they start.
    pub fn compare_request(self) -> (r: CompareRequestBuilder)
        ensures
            r.msg().message_id == self.msg().message_id,
            r.msg().controls == self.msg().controls,
            r.msg().protocol_op matches ProtocolOp::CompareRequest(b) && b.entry@ == Seq::<char>::empty() && b.ava.attribute_desc@ == Seq::<char>::empty() && b.ava.assertion_value@.len() == 0,
    {
        let Message { message_id, protocol_op, controls } = self.0;
        CompareRequestBuilder(ClientMessageBuilder(Message { message_id, protocol_op: ProtocolOp::CompareRequest(CompareRequest { entry: String::new(), ava: AttributeValueAssertion { attribute_desc: String::new(), assertion_value: Vec::new() } }), controls }))
    }

    /// Chooses the operation: abandon request, with its fields as they start.
    pub fn abandon_request(self) -> (r: AbandonRequestBuilder)
        ensures
            r.msg().message_id == self.msg().message_id,
            r.msg().controls == self.msg().controls,
            r.msg().protocol_op matches ProtocolOp::AbandonRequest(b) && b.message_id == 0,
    {
        let Message { message_id, protocol_op, controls } = self.0;
        AbandonRequestBuilder(ClientMessageBuilder(Message { message_id, protocol_op: ProtocolOp::AbandonRequest(AbandonRequest { message_id: 0 }), controls }))
    }

    /// Chooses the operation: extended request, with its fields as they start.
    pub fn extended_request(self) -> (r: ExtendedRequestBuilder)
        ensures
            r.msg().message_id == self.msg().message_id,
            r.msg().controls == self.msg().controls,
            r.msg().protocol_op matches ProtocolOp::ExtendedRequest(b) && b.request_name@ == Seq::<char>::empty() && b.request_value is None,
    {
        let Message { message_id, protocol_op, controls } = self.0;
        ExtendedRequestBuilder(ClientMessageBuilder(Message { message_id, protocol_op: ProtocolOp::ExtendedRequest(ExtendedRequest { request_name: String::new(), request_value: None }), controls }))
    }
}
/// Builds a message that a server sends.
#[derive(Debug)]
pub struct ServerMessageBuilder(Message);

impl ServerMessageBuilder {
    /// The message built so far.
    pub closed spec fn msg(&self) -> Message {
        self.0
    }

    /// The message built so far.
    pub fn message(&self) -> (r: &Message)
        ensures
            *r == self.msg(),
    {
        &self.0
    }

    /// A message of id 0 with no operation chosen yet and no controls.
    pub fn new() -> (r: Self)
        ensures
            r.msg().message_id == 0,
            r.msg().protocol_op is UnbindRequest,
            r.msg().controls is None,
    {
        ServerMessageBuilder(Message { message_id: 0, protocol_op: ProtocolOp::UnbindRequest, controls: None })
    }

    /// Sets the message id.
    pub fn message_id(self, v: MessageId) -> (r: Self)
        ensures
            r.msg() == (Message { message_id: v, ..self.msg() }),
    {
        let Message { message_id, protocol_op, controls } = self.0;
        ServerMessageBuilder(Message { message_id: v, protocol_op, controls })
    }

    /// Adds a control.
    pub fn control(self, v: Control) -> (r: Self)
        ensures
            r.msg().message_id == self.msg().message_id,
            r.msg().protocol_op == self.msg().protocol_op,
            r.msg().controls matches Some(c) && c@ == controls_with(self.msg().controls, v),
    {
        let Message { message_id, protocol_op, controls } = self.0;
        ServerMessageBuilder(Message { message_id, protocol_op, controls: Some(push_control(controls, v)) })
    }

    /// Sets the controls.
    pub fn controls(self, v: Vec<Control>) -> (r: Self)
        ensures
            r.msg() == (Message { controls: Some(v), ..self.msg() }),
    {
        let Message { message_id, protocol_op, controls } = self.0;
        ServerMessageBuilder(Message { message_id, protocol_op, controls: Some(v) })
    }

    /// Chooses the operation: bind response, with its fields as they start.
    pub fn bind_response(self) -> (r: BindResponseBuilder)
        ensures
            r.msg().message_id == self.msg().message_id,
            r.msg().controls == self.msg().controls,
            r.msg().protocol_op matches ProtocolOp::BindResponse(b) && fresh_result(b.result) && b.server_sasl_creds is None,
    {
        let Message { message_id, protocol_op, controls } = self.0;
        BindResponseBuilder(ServerMessageBuilder(Message { message_id, protocol_op: ProtocolOp::BindResponse(BindResponse { result: new_result(), server_sasl_creds: None }), controls }))
    }

    /// Chooses the operation: search result entry, with its fields as they start.
    pub fn search_result_entry(self) -> (r: SearchResultEntryBuilder)
        ensures
            r.msg().message_id == self.msg().message_id,
            r.msg().controls == self.msg().controls,
            r.msg().protocol_op matches ProtocolOp::SearchResultEntry(b) && b.object_name@ == Seq::<char>::empty() && b.attributes@.len() == 0,
    {
        let Message { message_id, protocol_op, controls } = self.0;
        SearchResultEntryBuilder(ServerMessageBuilder(Message { message_id, protocol_op: ProtocolOp::SearchResultEntry(SearchResultEntry { object_name: String::new(), attributes: Vec::new() }), controls }))
    }

    /// Chooses the operation: search result done, with its fields as they start.
    pub fn search_result_done(self) -> (r: SearchResultDoneBuilder)
        ensures
            r.msg().message_id == self.msg().message_id,
            r.msg().controls == self.msg().controls,
            r.msg().protocol_op matches ProtocolOp::SearchResultDone(b) && fresh_result(b),
    {
        let Message { message_id, protocol_op, controls } = self.0;
        SearchResultDoneBuilder(ServerMessageBuilder(Message { message_id, protocol_op: ProtocolOp::SearchResultDone(new_result()), controls }))
    }

    /// Chooses the operation: search result reference, with its fields as they start.
    pub fn search_result_reference(self) -> (r: SearchResultReferenceBuilder)
        ensures
            r.msg().message_id == self.msg().message_id,
            r.msg().controls == self.msg().controls,
            r.msg().protocol_op matches ProtocolOp::SearchResultReference(b) && b.uris@.len() == 0,
    {
        let Message { message_id, protocol_op, controls } = self.0;
        SearchResultReferenceBuilder(ServerMessageBuilder(Message { message_id, protocol_op: ProtocolOp::SearchResultReference(SearchResultReference { uris: Vec::new() }), controls }))
    }

    /// Chooses the operation: modify response, with its fields as they start.
    pub fn modify_response(self) -> (r: ModifyResponseBuilder)
        ensures
            r.msg().message_id == self.msg().message_id,
            r.msg().controls == self.msg().controls,
            r.msg().protocol_op matches ProtocolOp::ModifyResponse(b) && fresh_result(b),
    {
        let Message { message_id, protocol_op, controls } = self.0;
        ModifyResponseBuilder(ServerMessageBuilder(Message { message_id, protocol_op: ProtocolOp::ModifyResponse(new_result()), controls }))
    }

    /// Chooses the operation: add response, with its fields as they start.
    pub fn add_response(self) -> (r: AddResponseBuilder)
        ensures
            r.msg().message_id == self.msg().message_id,
            r.msg().controls == self.msg().controls,
            r.msg().protocol_op matches ProtocolOp::AddResponse(b) && fresh_result(b),
    {
        let Message { message_id, protocol_op, controls } = self.0;
        AddResponseBuilder(ServerMessageBuilder(Message { message_id, protocol_op: ProtocolOp::AddResponse(new_result()), controls }))
    }

    /// Chooses the operation: del response, with its fields as they start.
    pub fn del_response(self) -> (r: DelResponseBuilder)
        ensures
            r.msg().message_id == self.msg().message_id,
            r.msg().controls == self.msg().controls,
            r.msg().protocol_op matches ProtocolOp::DelResponse(b) && fresh_result(b),
    {
        let Message { message_id, protocol_op, controls } = self.0;
        DelResponseBuilder(ServerMessageBuilder(Message { message_id, protocol_op: ProtocolOp::DelResponse(new_result()), controls }))
    }

    /// Chooses the operation: modify dn response, with its fields as they start.
    pub fn modify_dn_response(self) -> (r: ModifyDNResponseBuilder)
        ensures
            r.msg().message_id == self.msg().message_id,
            r.msg().controls == self.msg().controls,
            r.msg().protocol_op matches ProtocolOp::ModifyDNResponse(b) && fresh_result(b),
    {
        let Message { message_id, protocol_op, controls } = self.0;
        ModifyDNResponseBuilder(ServerMessageBuilder(Message { message_id, protocol_op: ProtocolOp::ModifyDNResponse(new_result()), controls }))
    }

    /// Chooses the operation: compare response, with its fields as they start.
    pub fn compare_response(self) -> (r: CompareResponseBuilder)
        ensures
            r.msg().message_id == self.msg().message_id,
            r.msg().controls == self.msg().controls,
            r.msg().protocol_op matches ProtocolOp::CompareResponse(b) && fresh_result(b),
    {
        let Message { message_id, protocol_op, controls } = self.0;
        CompareResponseBuilder(ServerMessageBuilder(Message { message_id, protocol_op: ProtocolOp::CompareResponse(new_result()), controls }))
    }

    /// Chooses the operation: extended response, with its fields as they start.
    pub fn extended_response(self) -> (r: ExtendedResponseBuilder)
        ensures
            r.msg().message_id == self.msg().message_id,
            r.msg().controls == self.msg().controls,
            r.msg().protocol_op matches ProtocolOp::ExtendedResponse(b) && fresh_result(b.result) && b.response_name is None && b.response_value is None,
    {
        let Message { message_id, protocol_op, controls } = self.0;
        ExtendedResponseBuilder(ServerMessageBuilder(Message { message_id, protocol_op: ProtocolOp::ExtendedResponse(ExtendedResponse { result: new_result(), response_name: None, response_value: None }), controls }))
    }

    /// Chooses the operation: intermediate response, with its fields as they start.
    pub fn intermediate_response(self) -> (r: IntermediateResponseBuilder)
        ensures
            r.msg().message_id == self.msg().message_id,
            r.msg().controls == self.msg().controls,
            r.msg().protocol_op matches ProtocolOp::IntermediateResponse(b) && b.response_name is None && b.response_value is None,
    {
        let Message { message_id, protocol_op, controls } = self.0;
        IntermediateResponseBuilder(ServerMessageBuilder(Message { message_id, protocol_op: ProtocolOp::IntermediateResponse(IntermediateResponse { response_name: None, response_value: None }), controls }))
    }
}

/// Builds a message that carries the operation BindRequest.
#[derive(Debug)]
pub struct BindRequestBuilder(ClientMessageBuilder);

impl BindRequestBuilder {
    #[verifier::type_invariant]
    spec fn carries_operation(self) -> bool {
        self.0.0.protocol_op is BindRequest
    }

    /// The message built so far.
    pub closed spec fn msg(&self) -> Message {
        self.0.0
    }

    /// The message built so far.
    pub fn message(&self) -> (r: &Message)
        ensures
            *r == self.msg(),
    {
        &self.0.0
    }

    /// Sets the version.
    pub fn version(self, v: u8) -> (r: Self)
        ensures
            r.msg() == (Message {
                protocol_op: ProtocolOp::BindRequest(BindRequest { version: v, ..self.msg().protocol_op->BindRequest_0 }),
                ..self.msg()
            }),
    {
        proof {
            use_type_invariant(&self);
        }
        let BindRequestBuilder(ClientMessageBuilder(m)) = self;
        let Message { message_id, protocol_op, controls } = m;
        let protocol_op = match protocol_op {
            ProtocolOp::BindRequest(x) => ProtocolOp::BindRequest(BindRequest { version: v, ..x }),
            other => other,
        };
        BindRequestBuilder(ClientMessageBuilder(Message { message_id, protocol_op, controls }))
    }

    /// Sets the name.
    pub fn name(self, v: String) -> (r: Self)
        ensures
            r.msg() == (Message {
                protocol_op: ProtocolOp::BindRequest(BindRequest { name: v, ..self.msg().protocol_op->BindRequest_0 }),
                ..self.msg()
            }),
    {
        proof {
            use_type_invariant(&self);
        }
        let BindRequestBuilder(ClientMessageBuilder(m)) = self;
        let Message { message_id, protocol_op, controls } = m;
        let protocol_op = match protocol_op {
            ProtocolOp::BindRequest(x) => ProtocolOp::BindRequest(BindRequest { name: v, ..x }),
            other => other,
        };
        BindRequestBuilder(ClientMessageBuilder(Message { message_id, protocol_op, controls }))
    }

    /// Authenticates with a simple password.
    pub fn auth_simple(self, v: String) -> (r: Self)
        ensures
            r.msg() == (Message {
                protocol_op: ProtocolOp::BindRequest(BindRequest { authentication: AuthenticationChoice::Simple(v), ..self.msg().protocol_op->BindRequest_0 }),
                ..self.msg()
            }),
    {
        proof {
            use_type_invariant(&self);
        }
        let BindRequestBuilder(ClientMessageBuilder(m)) = self;
        let Message { message_id, protocol_op, controls } = m;
        let protocol_op = match protocol_op {
            ProtocolOp::BindRequest(x) => ProtocolOp::BindRequest(BindRequest { authentication: AuthenticationChoice::Simple(v), ..x }),
            other => other,
        };
        BindRequestBuilder(ClientMessageBuilder(Message { message_id, protocol_op, controls }))
    }
}

/// Builds a message that carries the operation UnbindRequest.
#[derive(Debug)]
pub struct UnbindRequestBuilder(ClientMessageBuilder);

impl UnbindRequestBuilder {
    /// The message built so far.
    pub closed spec fn msg(&self) -> Message {
        self.0.0
    }

    /// The message built so far.
    pub fn message(&self) -> (r: &Message)
        ensures
            *r == self.msg(),
    {
        &self.0.0
    }
}

/// Builds a message that carries the operation SearchRequest.
#[derive(Debug)]
pub struct SearchRequestBuilder(ClientMessageBuilder);

impl SearchRequestBuilder {
    #[verifier::type_invariant]
    spec fn carries_operation(self) -> bool {
        self.0.0.protocol_op is SearchRequest
    }

    /// The message built so far.
    pub closed spec fn msg(&self) -> Message {
        self.0.0
    }

    /// The message built so far.
    pub fn message(&self) -> (r: &Message)
        ensures
            *r == self.msg(),
    {
        &self.0.0
    }

    /// Sets the base object.
    pub fn base_object(self, v: DN) -> (r: Self)
        ensures
            r.msg() == (Message {
                protocol_op: ProtocolOp::SearchRequest(SearchRequest { base_object: v, ..self.msg().protocol_op->SearchRequest_0 }),
                ..self.msg()
            }),
    {
        proof {
            use_type_invariant(&self);
        }
        let SearchRequestBuilder(ClientMessageBuilder(m)) = self;
        let Message { message_id, protocol_op, controls } = m;
        let protocol_op = match protocol_op {
            ProtocolOp::SearchRequest(x) => ProtocolOp::SearchRequest(SearchRequest { base_object: v, ..x }),
            other => other,
        };
        SearchRequestBuilder(ClientMessageBuilder(Message { message_id, protocol_op, controls }))
    }

    /// Sets the scope.
    pub fn scope(self, v: SearchRequestScope) -> (r: Self)
        ensures
            r.msg() == (Message {
                protocol_op: ProtocolOp::SearchRequest(SearchRequest { scope: v, ..self.msg().protocol_op->SearchRequest_0 }),
                ..self.msg()
            }),
    {
        proof {
            use_type_invariant(&self);
        }
        let SearchRequestBuilder(ClientMessageBuilder(m)) = self;
        let Message { message_id, protocol_op, controls } = m;
        let protocol_op = match protocol_op {
            ProtocolOp::SearchRequest(x) => ProtocolOp::SearchRequest(SearchRequest { scope: v, ..x }),
            other => other,
        };
        SearchRequestBuilder(ClientMessageBuilder(Message { message_id, protocol_op, controls }))
    }

    /// Sets the deref aliases.
    pub fn deref_aliases(self, v: SearchRequestDerefAliases) -> (r: Self)
        ensures
            r.msg() == (Message {
                protocol_op: ProtocolOp::SearchRequest(SearchRequest { deref_aliases: v, ..self.msg().protocol_op->SearchRequest_0 }),
                ..self.msg()
            }),
    {
        proof {
            use_type_invariant(&self);
        }
        let SearchRequestBuilder(ClientMessageBuilder(m)) = self;
        let Message { message_id, protocol_op, controls } = m;
        let protocol_op = match protocol_op {
            ProtocolOp::SearchRequest(x) => ProtocolOp::SearchRequest(SearchRequest { deref_aliases: v, ..x }),
            other => other,
        };
        SearchRequestBuilder(ClientMessageBuilder(Message { message_id, protocol_op, controls }))
    }

    /// Sets the size limit.
    pub fn size_limit(self, v: usize) -> (r: Self)
        ensures
            r.msg() == (Message {
                protocol_op: ProtocolOp::SearchRequest(SearchRequest { size_limit: v, ..self.msg().protocol_op->SearchRequest_0 }),
                ..self.msg()
            }),
    {
        proof {
            use_type_invariant(&self);
        }
        let SearchRequestBuilder(ClientMessageBuilder(m)) = self;
        let Message { message_id, protocol_op, controls } = m;
        let protocol_op = match protocol_op {
            ProtocolOp::SearchRequest(x) => ProtocolOp::SearchRequest(SearchRequest { size_limit: v, ..x }),
            other => other,
        };
        SearchRequestBuilder(ClientMessageBuilder(Message { message_id, protocol_op, controls }))
    }

    /// Sets the time limit.
    pub fn time_limit(self, v: usize) -> (r: Self)
        ensures
            r.msg() == (Message {
                protocol_op: ProtocolOp::SearchRequest(SearchRequest { time_limit: v, ..self.msg().protocol_op->SearchRequest_0 }),
                ..self.msg()
            }),
    {
        proof {
            use_type_invariant(&self);
        }
        let SearchRequestBuilder(ClientMessageBuilder(m)) = self;
        let Message { message_id, protocol_op, controls } = m;
        let protocol_op = match protocol_op {
            ProtocolOp::SearchRequest(x) => ProtocolOp::SearchRequest(SearchRequest { time_limit: v, ..x }),
            other => other,
        };
        SearchRequestBuilder(ClientMessageBuilder(Message { message_id, protocol_op, controls }))
    }

    /// Sets the types only.
    pub fn types_only(self, v: bool) -> (r: Self)
        ensures
            r.msg() == (Message {
                protocol_op: ProtocolOp::SearchRequest(SearchRequest { types_only: v, ..self.msg().protocol_op->SearchRequest_0 }),
                ..self.msg()
            }),
    {
        proof {
            use_type_invariant(&self);
        }
        let SearchRequestBuilder(ClientMessageBuilder(m)) = self;
        let Message { message_id, protocol_op, controls } = m;
        let protocol_op = match protocol_op {
            ProtocolOp::SearchRequest(x) => ProtocolOp::SearchRequest(SearchRequest { types_only: v, ..x }),
            other => other,
        };
        SearchRequestBuilder(ClientMessageBuilder(Message { message_id, protocol_op, controls }))
    }

    /// Sets the filter.
    pub fn filter(self, v: SearchRequestFilter) -> (r: Self)
        ensures
            r.msg() == (Message {
                protocol_op: ProtocolOp::SearchRequest(SearchRequest { filter: v, ..self.msg().protocol_op->SearchRequest_0 }),
                ..self.msg()
            }),
    {
        proof {
            use_type_invariant(&self);
        }
        let SearchRequestBuilder(ClientMessageBuilder(m)) = self;
        let Message { message_id, protocol_op, controls } = m;
        let protocol_op = match protocol_op {
            ProtocolOp::SearchRequest(x) => ProtocolOp::SearchRequest(SearchRequest { filter: v, ..x }),
            other => other,
        };
        SearchRequestBuilder(ClientMessageBuilder(Message { message_id, protocol_op, controls }))
    }

    /// Sets the attributes.
    pub fn attributes(self, v: Vec<String>) -> (r: Self)
        ensures
            r.msg() == (Message {
                protocol_op: ProtocolOp::SearchRequest(SearchRequest { attributes: v, ..self.msg().protocol_op->SearchRequest_0 }),
                ..self.msg()
            }),
    {
        proof {
            use_type_invariant(&self);
        }
        let SearchRequestBuilder(ClientMessageBuilder(m)) = self;
        let Message { message_id, protocol_op, controls } = m;
        let protocol_op = match protocol_op {
            ProtocolOp::SearchRequest(x) => ProtocolOp::SearchRequest(SearchRequest { attributes: v, ..x }),
            other => other,
        };
        SearchRequestBuilder(ClientMessageBuilder(Message { message_id, protocol_op, controls }))
    }
}

/// Builds a message that carries the operation ModifyRequest.
#[derive(Debug)]
pub struct ModifyRequestBuilder(ClientMessageBuilder);

impl ModifyRequestBuilder {
    /// The message built so far.
    pub closed spec fn msg(&self) -> Message {
        self.0.0
    }

    /// The message built so far.
    pub fn message(&self) -> (r: &Message)
        ensures
            *r == self.msg(),
    {
        &self.0.0
    }
}

/// Builds a message that carries the operation AddRequest.
#[derive(Debug)]
pub struct AddRequestBuilder(ClientMessageBuilder);

impl AddRequestBuilder {
    /// The message built so far.
    pub closed spec fn msg(&self) -> Message {
        self.0.0
    }

    /// The message built so far.
    pub fn message(&self) -> (r: &Message)
        ensures
            *r == self.msg(),
    {
        &self.0.0
    }
}

/// Builds a message that carries the operation DelRequest.
#[derive(Debug)]
pub struct DelRequestBuilder(ClientMessageBuilder);

impl DelRequestBuilder {
    /// The message built so far.
    pub closed spec fn msg(&self) -> Message {
        self.0.0
    }

    /// The message built so far.
    pub fn message(&self) -> (r: &Message)
        ensures
            *r == self.msg(),
    {
        &self.0.0
    }
}

/// Builds a message that carries the operation ModifyDNRequest.
#[derive(Debug)]
pub struct ModifyDNRequestBuilder(ClientMessageBuilder);

impl ModifyDNRequestBuilder {
    /// The message built so far.
    pub closed spec fn msg(&self) -> Message {
        self.0.0
    }

    /// The message built so far.
    pub fn message(&self) -> (r: &Message)
        ensures
            *r == self.msg(),
    {
        &self.0.0
    }
}

/// Builds a message that carries the operation CompareRequest.
#[derive(Debug)]
pub struct CompareRequestBuilder(ClientMessageBuilder);

impl CompareRequestBuilder {
    /// The message built so far.
    pub closed spec fn msg(&self) -> Message {
        self.0.0
    }

    /// The message built so far.
    pub fn message(&self) -> (r: &Message)
        ensures
            *r == self.msg(),
    {
        &self.0.0
    }
}

/// Builds a message that carries the operation AbandonRequest.
#[derive(Debug)]
pub struct AbandonRequestBuilder(ClientMessageBuilder);

impl AbandonRequestBuilder {
    /// The message built so far.
    pub closed spec fn msg(&self) -> Message {
        self.0.0
    }

    /// The message built so far.
    pub fn message(&self) -> (r: &Message)
        ensures
            *r == self.msg(),
    {
        &self.0.0
    }
}

/// Builds a message that carries the operation ExtendedRequest.
#[derive(Debug)]
pub struct ExtendedRequestBuilder(ClientMessageBuilder);

impl ExtendedRequestBuilder {
    /// The message built so far.
    pub closed spec fn msg(&self) -> Message {
        self.0.0
    }

    /// The message built so far.
    pub fn message(&self) -> (r: &Message)
        ensures
            *r == self.msg(),
    {
        &self.0.0
    }
}

/// Builds a message that carries the operation BindResponse.
#[derive(Debug)]
pub struct BindResponseBuilder(ServerMessageBuilder);

impl BindResponseBuilder {
    /// The message built so far.
    pub closed spec fn msg(&self) -> Message {
        self.0.0
    }

    /// The message built so far.
    pub fn message(&self) -> (r: &Message)
        ensures
            *r == self.msg(),
    {
        &self.0.0
    }
}

/// Builds a message that carries the operation SearchResultEntry.
#[derive(Debug)]
pub struct SearchResultEntryBuilder(ServerMessageBuilder);

impl SearchResultEntryBuilder {
    /// The message built so far.
    pub closed spec fn msg(&self) -> Message {
        self.0.0
    }

    /// The message built so far.
    pub fn message(&self) -> (r: &Message)
        ensures
            *r == self.msg(),
    {
        &self.0.0
    }
}

/// Builds a message that carries the operation SearchResultDone.
#[derive(Debug)]
pub struct SearchResultDoneBuilder(ServerMessageBuilder);

impl SearchResultDoneBuilder {
    #[verifier::type_invariant]
    spec fn carries_operation(self) -> bool {
        self.0.0.protocol_op is SearchResultDone
    }

    /// The message built so far.
    pub closed spec fn msg(&self) -> Message {
        self.0.0
    }

    /// The message built so far.
    pub fn message(&self) -> (r: &Message)
        ensures
            *r == self.msg(),
    {
        &self.0.0
    }

    /// Sets the result code.
    pub fn result_code(self, v: ResultCode) -> (r: Self)
        ensures
            r.msg() == (Message {
                protocol_op: ProtocolOp::SearchResultDone(LdapResult { result_code: v, ..self.msg().protocol_op->SearchResultDone_0 }),
                ..self.msg()
            }),
    {
        proof {
            use_type_invariant(&self);
        }
        let SearchResultDoneBuilder(ServerMessageBuilder(m)) = self;
        let Message { message_id, protocol_op, controls } = m;
        let protocol_op = match protocol_op {
            ProtocolOp::SearchResultDone(x) => ProtocolOp::SearchResultDone(LdapResult { result_code: v, ..x }),
            other => other,
        };
        SearchResultDoneBuilder(ServerMessageBuilder(Message { message_id, protocol_op, controls }))
    }

    /// Sets the matched name.
    pub fn matched_dn(self, v: String) -> (r: Self)
        ensures
            r.msg() == (Message {
                protocol_op: ProtocolOp::SearchResultDone(LdapResult { matched_dn: v, ..self.msg().protocol_op->SearchResultDone_0 }),
                ..self.msg()
            }),
    {
        proof {
            use_type_invariant(&self);
        }
        let SearchResultDoneBuilder(ServerMessageBuilder(m)) = self;
        let Message { message_id, protocol_op, controls } = m;
        let protocol_op = match protocol_op {
            ProtocolOp::SearchResultDone(x) => ProtocolOp::SearchResultDone(LdapResult { matched_dn: v, ..x }),
            other => other,
        };
        SearchResultDoneBuilder(ServerMessageBuilder(Message { message_id, protocol_op, controls }))
    }

    /// Sets the diagnostic message.
    pub fn diagnostic_message(self, v: String) -> (r: Self)
        ensures
            r.msg() == (Message {
                protocol_op: ProtocolOp::SearchResultDone(LdapResult { diagnostic_message: v, ..self.msg().protocol_op->SearchResultDone_0 }),
                ..self.msg()
            }),
    {
        proof {
            use_type_invariant(&self);
        }
        let SearchResultDoneBuilder(ServerMessageBuilder(m)) = self;
        let Message { message_id, protocol_op, controls } = m;
        let protocol_op = match protocol_op {
            ProtocolOp::SearchResultDone(x) => ProtocolOp::SearchResultDone(LdapResult { diagnostic_message: v, ..x }),
            other => other,
        };
        SearchResultDoneBuilder(ServerMessageBuilder(Message { message_id, protocol_op, controls }))
    }

    /// Adds a URI to the referral.
    pub fn referral_uri(self, v: Uri) -> (r: Self)
        ensures
            r.msg().message_id == self.msg().message_id,
            r.msg().controls == self.msg().controls,
            r.msg().protocol_op matches ProtocolOp::SearchResultDone(x)
                && x.result_code == self.msg().protocol_op->SearchResultDone_0.result_code
                && x.matched_dn == self.msg().protocol_op->SearchResultDone_0.matched_dn
                && x.diagnostic_message == self.msg().protocol_op->SearchResultDone_0.diagnostic_message
                && (x.referral matches Some(l) && l@ == referral_with(self.msg().protocol_op->SearchResultDone_0.referral, v)),
    {
        proof {
            use_type_invariant(&self);
        }
        let SearchResultDoneBuilder(ServerMessageBuilder(m)) = self;
        let Message { message_id, protocol_op, controls } = m;
        let protocol_op = match protocol_op {
            ProtocolOp::SearchResultDone(x) => {
                let LdapResult { result_code, matched_dn, diagnostic_message, referral } = x;
                ProtocolOp::SearchResultDone(LdapResult { result_code, matched_dn, diagnostic_message, referral: Some(push_uri(referral, v)) })
            },
            other => other,
        };
        SearchResultDoneBuilder(ServerMessageBuilder(Message { message_id, protocol_op, controls }))
    }

    /// Sets the referral.
    pub fn referral(self, v: Vec<Uri>) -> (r: Self)
        ensures
            r.msg() == (Message {
                protocol_op: ProtocolOp::SearchResultDone(LdapResult { referral: Some(v), ..self.msg().protocol_op->SearchResultDone_0 }),
                ..self.msg()
            }),
    {
        proof {
            use_type_invariant(&self);
        }
        let SearchResultDoneBuilder(ServerMessageBuilder(m)) = self;
        let Message { message_id, protocol_op, controls } = m;
        let protocol_op = match protocol_op {
            ProtocolOp::SearchResultDone(x) => ProtocolOp::SearchResultDone(LdapResult { referral: Some(v), ..x }),
            other => other,
        };
        SearchResultDoneBuilder(ServerMessageBuilder(Message { message_id, protocol_op, controls }))
    }
}

/// Builds a message that carries the operation SearchResultReference.
#[derive(Debug)]
pub struct SearchResultReferenceBuilder(ServerMessageBuilder);

impl SearchResultReferenceBuilder {
    /// The message built so far.
    pub closed spec fn msg(&self) -> Message {
        self.0.0
    }

    /// The message built so far.
    pub fn message(&self) -> (r: &Message)
        ensures
            *r == self.msg(),
    {
        &self.0.0
    }
}

/// Builds a message that carries the operation ModifyResponse.
#[derive(Debug)]
pub struct ModifyResponseBuilder(ServerMessageBuilder);

impl ModifyResponseBuilder {
    #[verifier::type_invariant]
    spec fn carries_operation(self) -> bool {
        self.0.0.protocol_op is ModifyResponse
    }

    /// The message built so far.
    pub closed spec fn msg(&self) -> Message {
        self.0.0
    }

    /// The message built so far.
    pub fn message(&self) -> (r: &Message)
        ensures
            *r == self.msg(),
    {
        &self.0.0
    }

    /// Sets the result code.
    pub fn result_code(self, v: ResultCode) -> (r: Self)
        ensures
            r.msg() == (Message {
                protocol_op: ProtocolOp::ModifyResponse(LdapResult { result_code: v, ..self.msg().protocol_op->ModifyResponse_0 }),
                ..self.msg()
            }),
    {
        proof {
            use_type_invariant(&self);
        }
        let ModifyResponseBuilder(ServerMessageBuilder(m)) = self;
        let Message { message_id, protocol_op, controls } = m;
        let protocol_op = match protocol_op {
            ProtocolOp::ModifyResponse(x) => ProtocolOp::ModifyResponse(LdapResult { result_code: v, ..x }),
            other => other,
        };
        ModifyResponseBuilder(ServerMessageBuilder(Message { message_id, protocol_op, controls }))
    }

    /// Sets the matched name.
    pub fn matched_dn(self, v: String) -> (r: Self)
        ensures
            r.msg() == (Message {
                protocol_op: ProtocolOp::ModifyResponse(LdapResult { matched_dn: v, ..self.msg().protocol_op->ModifyResponse_0 }),
                ..self.msg()
            }),
    {
        proof {
            use_type_invariant(&self);
        }
        let ModifyResponseBuilder(ServerMessageBuilder(m)) = self;
        let Message { message_id, protocol_op, controls } = m;
        let protocol_op = match protocol_op {
            ProtocolOp::ModifyResponse(x) => ProtocolOp::ModifyResponse(LdapResult { matched_dn: v, ..x }),
            other => other,
        };
        ModifyResponseBuilder(ServerMessageBuilder(Message { message_id, protocol_op, controls }))
    }

    /// Sets the diagnostic message.
    pub fn diagnostic_message(self, v: String) -> (r: Self)
        ensures
            r.msg() == (Message {
                protocol_op: ProtocolOp::ModifyResponse(LdapResult { diagnostic_message: v, ..self.msg().protocol_op->ModifyResponse_0 }),
                ..self.msg()
            }),
    {
        proof {
            use_type_invariant(&self);
        }
        let ModifyResponseBuilder(ServerMessageBuilder(m)) = self;
        let Message { message_id, protocol_op, controls } = m;
        let protocol_op = match protocol_op {
            ProtocolOp::ModifyResponse(x) => ProtocolOp::ModifyResponse(LdapResult { diagnostic_message: v, ..x }),
            other => other,
        };
        ModifyResponseBuilder(ServerMessageBuilder(Message { message_id, protocol_op, controls }))
    }

    /// Adds a URI to the referral.
    pub fn referral_uri(self, v: Uri) -> (r: Self)
        ensures
            r.msg().message_id == self.msg().message_id,
            r.msg().controls == self.msg().controls,
            r.msg().protocol_op matches ProtocolOp::ModifyResponse(x)
                && x.result_code == self.msg().protocol_op->ModifyResponse_0.result_code
                && x.matched_dn == self.msg().protocol_op->ModifyResponse_0.matched_dn
                && x.diagnostic_message == self.msg().protocol_op->ModifyResponse_0.diagnostic_message
                && (x.referral matches Some(l) && l@ == referral_with(self.msg().protocol_op->ModifyResponse_0.referral, v)),
    {
        proof {
            use_type_invariant(&self);
        }
        let ModifyResponseBuilder(ServerMessageBuilder(m)) = self;
        let Message { message_id, protocol_op, controls } = m;
        let protocol_op = match protocol_op {
            ProtocolOp::ModifyResponse(x) => {
                let LdapResult { result_code, matched_dn, diagnostic_message, referral } = x;
                ProtocolOp::ModifyResponse(LdapResult { result_code, matched_dn, diagnostic_message, referral: Some(push_uri(referral, v)) })
            },
            other => other,
        };
        ModifyResponseBuilder(ServerMessageBuilder(Message { message_id, protocol_op, controls }))
    }

    /// Sets the referral.
    pub fn referral(self, v: Vec<Uri>) -> (r: Self)
        ensures
            r.msg() == (Message {
                protocol_op: ProtocolOp::ModifyResponse(LdapResult { referral: Some(v), ..self.msg().protocol_op->ModifyResponse_0 }),
                ..self.msg()
            }),
    {
        proof {
            use_type_invariant(&self);
        }
        let ModifyResponseBuilder(ServerMessageBuilder(m)) = self;
        let Message { message_id, protocol_op, controls } = m;
        let protocol_op = match protocol_op {
            ProtocolOp::ModifyResponse(x) => ProtocolOp::ModifyResponse(LdapResult { referral: Some(v), ..x }),
            other => other,
        };
        ModifyResponseBuilder(ServerMessageBuilder(Message { message_id, protocol_op, controls }))
    }
}

/// Builds a message that carries the operation AddResponse.
#[derive(Debug)]
pub struct AddResponseBuilder(ServerMessageBuilder);

impl AddResponseBuilder {
    #[verifier::type_invariant]
    spec fn carries_operation(self) -> bool {
        self.0.0.protocol_op is AddResponse
    }

    /// The message built so far.
    pub closed spec fn msg(&self) -> Message {
        self.0.0
    }

    /// The message built so far.
    pub fn message(&self) -> (r: &Message)
        ensures
            *r == self.msg(),
    {
        &self.0.0
    }

    /// Sets the result code.
    pub fn result_code(self, v: ResultCode) -> (r: Self)
        ensures
            r.msg() == (Message {
                protocol_op: ProtocolOp::AddResponse(LdapResult { result_code: v, ..self.msg().protocol_op->AddResponse_0 }),
                ..self.msg()
            }),
    {
        proof {
            use_type_invariant(&self);
        }
        let AddResponseBuilder(ServerMessageBuilder(m)) = self;
        let Message { message_id, protocol_op, controls } = m;
        let protocol_op = match protocol_op {
            ProtocolOp::AddResponse(x) => ProtocolOp::AddResponse(LdapResult { result_code: v, ..x }),
            other => other,
        };
        AddResponseBuilder(ServerMessageBuilder(Message { message_id, protocol_op, controls }))
    }

    /// Sets the matched name.
    pub fn matched_dn(self, v: String) -> (r: Self)
        ensures
            r.msg() == (Message {
                protocol_op: ProtocolOp::AddResponse(LdapResult { matched_dn: v, ..self.msg().protocol_op->AddResponse_0 }),
                ..self.msg()
            }),
    {
        proof {
            use_type_invariant(&self);
        }
        let AddResponseBuilder(ServerMessageBuilder(m)) = self;
        let Message { message_id, protocol_op, controls } = m;
        let protocol_op = match protocol_op {
            ProtocolOp::AddResponse(x) => ProtocolOp::AddResponse(LdapResult { matched_dn: v, ..x }),
            other => other,
        };
        AddResponseBuilder(ServerMessageBuilder(Message { message_id, protocol_op, controls }))
    }

    /// Sets the diagnostic message.
    pub fn diagnostic_message(self, v: String) -> (r: Self)
        ensures
            r.msg() == (Message {
                protocol_op: ProtocolOp::AddResponse(LdapResult { diagnostic_message: v, ..self.msg().protocol_op->AddResponse_0 }),
                ..self.msg()
            }),
    {
        proof {
            use_type_invariant(&self);
        }
        let AddResponseBuilder(ServerMessageBuilder(m)) = self;
        let Message { message_id, protocol_op, controls } = m;
        let protocol_op = match protocol_op {
            ProtocolOp::AddResponse(x) => ProtocolOp::AddResponse(LdapResult { diagnostic_message: v, ..x }),
            other => other,
        };
        AddResponseBuilder(ServerMessageBuilder(Message { message_id, protocol_op, controls }))
    }

    /// Adds a URI to the referral.
    pub fn referral_uri(self, v: Uri) -> (r: Self)
        ensures
            r.msg().message_id == self.msg().message_id,
            r.msg().controls == self.msg().controls,
            r.msg().protocol_op matches ProtocolOp::AddResponse(x)
                && x.result_code == self.msg().protocol_op->AddResponse_0.result_code
                && x.matched_dn == self.msg().protocol_op->AddResponse_0.matched_dn
                && x.diagnostic_message == self.msg().protocol_op->AddResponse_0.diagnostic_message
                && (x.referral matches Some(l) && l@ == referral_with(self.msg().protocol_op->AddResponse_0.referral, v)),
    {
        proof {
            use_type_invariant(&self);
        }
        let AddResponseBuilder(ServerMessageBuilder(m)) = self;
        let Message { message_id, protocol_op, controls } = m;
        let protocol_op = match protocol_op {
            ProtocolOp::AddResponse(x) => {
                let LdapResult { result_code, matched_dn, diagnostic_message, referral } = x;
                ProtocolOp::AddResponse(LdapResult { result_code, matched_dn, diagnostic_message, referral: Some(push_uri(referral, v)) })
            },
            other => other,
        };
        AddResponseBuilder(ServerMessageBuilder(Message { message_id, protocol_op, controls }))
    }

    /// Sets the referral.
    pub fn referral(self, v: Vec<Uri>) -> (r: Self)
        ensures
            r.msg() == (Message {
                protocol_op: ProtocolOp::AddResponse(LdapResult { referral: Some(v), ..self.msg().protocol_op->AddResponse_0 }),
                ..self.msg()
            }),
    {
        proof {
            use_type_invariant(&self);
        }
        let AddResponseBuilder(ServerMessageBuilder(m)) = self;
        let Message { message_id, protocol_op, controls } = m;
        let protocol_op = match protocol_op {
            ProtocolOp::AddResponse(x) => ProtocolOp::AddResponse(LdapResult { referral: Some(v), ..x }),
            other => other,
        };
        AddResponseBuilder(ServerMessageBuilder(Message { message_id, protocol_op, controls }))
    }
}

/// Builds a message that carries the operation DelResponse.
#[derive(Debug)]
pub struct DelResponseBuilder(ServerMessageBuilder);

impl DelResponseBuilder {
    #[verifier::type_invariant]
    spec fn carries_operation(self) -> bool {
        self.0.0.protocol_op is DelResponse
    }

    /// The message built so far.
    pub closed spec fn msg(&self) -> Message {
        self.0.0
    }

    /// The message built so far.
    pub fn message(&self) -> (r: &Message)
        ensures
            *r == self.msg(),
    {
        &self.0.0
    }

    /// Sets the result code.
    pub fn result_code(self, v: ResultCode) -> (r: Self)
        ensures
            r.msg() == (Message {
                protocol_op: ProtocolOp::DelResponse(LdapResult { result_code: v, ..self.msg().protocol_op->DelResponse_0 }),
                ..self.msg()
            }),
    {
        proof {
            use_type_invariant(&self);
        }
        let DelResponseBuilder(ServerMessageBuilder(m)) = self;
        let Message { message_id, protocol_op, controls } = m;
        let protocol_op = match protocol_op {
            ProtocolOp::DelResponse(x) => ProtocolOp::DelResponse(LdapResult { result_code: v, ..x }),
            other => other,
        };
        DelResponseBuilder(ServerMessageBuilder(Message { message_id, protocol_op, controls }))
    }

    /// Sets the matched name.
    pub fn matched_dn(self, v: String) -> (r: Self)
        ensures
            r.msg() == (Message {
                protocol_op: ProtocolOp::DelResponse(LdapResult { matched_dn: v, ..self.msg().protocol_op->DelResponse_0 }),
                ..self.msg()
            }),
    {
        proof {
            use_type_invariant(&self);
        }
        let DelResponseBuilder(ServerMessageBuilder(m)) = self;
        let Message { message_id, protocol_op, controls } = m;
        let protocol_op = match protocol_op {
            ProtocolOp::DelResponse(x) => ProtocolOp::DelResponse(LdapResult { matched_dn: v, ..x }),
            other => other,
        };
        DelResponseBuilder(ServerMessageBuilder(Message { message_id, protocol_op, controls }))
    }

    /// Sets the diagnostic message.
    pub fn diagnostic_message(self, v: String) -> (r: Self)
        ensures
            r.msg() == (Message {
                protocol_op: ProtocolOp::DelResponse(LdapResult { diagnostic_message: v, ..self.msg().protocol_op->DelResponse_0 }),
                ..self.msg()
            }),
    {
        proof {
            use_type_invariant(&self);
        }
        let DelResponseBuilder(ServerMessageBuilder(m)) = self;
        let Message { message_id, protocol_op, controls } = m;
        let protocol_op = match protocol_op {
            ProtocolOp::DelResponse(x) => ProtocolOp::DelResponse(LdapResult { diagnostic_message: v, ..x }),
            other => other,
        };
        DelResponseBuilder(ServerMessageBuilder(Message { message_id, protocol_op, controls }))
    }

    /// Adds a URI to the referral.
    pub fn referral_uri(self, v: Uri) -> (r: Self)
        ensures
            r.msg().message_id == self.msg().message_id,
            r.msg().controls == self.msg().controls,
            r.msg().protocol_op matches ProtocolOp::DelResponse(x)
                && x.result_code == self.msg().protocol_op->DelResponse_0.result_code
                && x.matched_dn == self.msg().protocol_op->DelResponse_0.matched_dn
                && x.diagnostic_message == self.msg().protocol_op->DelResponse_0.diagnostic_message
                && (x.referral matches Some(l) && l@ == referral_with(self.msg().protocol_op->DelResponse_0.referral, v)),
    {
        proof {
            use_type_invariant(&self);
        }
        let DelResponseBuilder(ServerMessageBuilder(m)) = self;
        let Message { message_id, protocol_op, controls } = m;
        let protocol_op = match protocol_op {
            ProtocolOp::DelResponse(x) => {
                let LdapResult { result_code, matched_dn, diagnostic_message, referral } = x;
                ProtocolOp::DelResponse(LdapResult { result_code, matched_dn, diagnostic_message, referral: Some(push_uri(referral, v)) })
            },
            other => other,
        };
        DelResponseBuilder(ServerMessageBuilder(Message { message_id, protocol_op, controls }))
    }

    /// Sets the referral.
    pub fn referral(self, v: Vec<Uri>) -> (r: Self)
        ensures
            r.msg() == (Message {
                protocol_op: ProtocolOp::DelResponse(LdapResult { referral: Some(v), ..self.msg().protocol_op->DelResponse_0 }),
                ..self.msg()
            }),
    {
        proof {
            use_type_invariant(&self);
        }
        let DelResponseBuilder(ServerMessageBuilder(m)) = self;
        let Message { message_id, protocol_op, controls } = m;
        let protocol_op = match protocol_op {
            ProtocolOp::DelResponse(x) => ProtocolOp::DelResponse(LdapResult { referral: Some(v), ..x }),
            other => other,
        };
        DelResponseBuilder(ServerMessageBuilder(Message { message_id, protocol_op, controls }))
    }
}

/// Builds a message that carries the operation ModifyDNResponse.
#[derive(Debug)]
pub struct ModifyDNResponseBuilder(ServerMessageBuilder);

impl ModifyDNResponseBuilder {
    #[verifier::type_invariant]
    spec fn carries_operation(self) -> bool {
        self.0.0.protocol_op is ModifyDNResponse
    }

    /// The message built so far.
    pub closed spec fn msg(&self) -> Message {
        self.0.0
    }

    /// The message built so far.
    pub fn message(&self) -> (r: &Message)
        ensures
            *r == self.msg(),
    {
        &self.0.0
    }

    /// Sets the result code.
    pub fn result_code(self, v: ResultCode) -> (r: Self)
        ensures
            r.msg() == (Message {
                protocol_op: ProtocolOp::ModifyDNResponse(LdapResult { result_code: v, ..self.msg().protocol_op->ModifyDNResponse_0 }),
                ..self.msg()
            }),
    {
        proof {
            use_type_invariant(&self);
        }
        let ModifyDNResponseBuilder(ServerMessageBuilder(m)) = self;
        let Message { message_id, protocol_op, controls } = m;
        let protocol_op = match protocol_op {
            ProtocolOp::ModifyDNResponse(x) => ProtocolOp::ModifyDNResponse(LdapResult { result_code: v, ..x }),
            other => other,
        };
        ModifyDNResponseBuilder(ServerMessageBuilder(Message { message_id, protocol_op, controls }))
    }

    /// Sets the matched name.
    pub fn matched_dn(self, v: String) -> (r: Self)
        ensures
            r.msg() == (Message {
                protocol_op: ProtocolOp::ModifyDNResponse(LdapResult { matched_dn: v, ..self.msg().protocol_op->ModifyDNResponse_0 }),
                ..self.msg()
            }),
    {
        proof {
            use_type_invariant(&self);
        }
        let ModifyDNResponseBuilder(ServerMessageBuilder(m)) = self;
        let Message { message_id, protocol_op, controls } = m;
        let protocol_op = match protocol_op {
            ProtocolOp::ModifyDNResponse(x) => ProtocolOp::ModifyDNResponse(LdapResult { matched_dn: v, ..x }),
            other => other,
        };
        ModifyDNResponseBuilder(ServerMessageBuilder(Message { message_id, protocol_op, controls }))
    }

    /// Sets the diagnostic message.
    pub fn diagnostic_message(self, v: String) -> (r: Self)
        ensures
            r.msg() == (Message {
                protocol_op: ProtocolOp::ModifyDNResponse(LdapResult { diagnostic_message: v, ..self.msg().protocol_op->ModifyDNResponse_0 }),
                ..self.msg()
            }),
    {
        proof {
            use_type_invariant(&self);
        }
        let ModifyDNResponseBuilder(ServerMessageBuilder(m)) = self;
        let Message { message_id, protocol_op, controls } = m;
        let protocol_op = match protocol_op {
            ProtocolOp::ModifyDNResponse(x) => ProtocolOp::ModifyDNResponse(LdapResult { diagnostic_message: v, ..x }),
            other => other,
        };
        ModifyDNResponseBuilder(ServerMessageBuilder(Message { message_id, protocol_op, controls }))
    }

    /// Adds a URI to the referral.
    pub fn referral_uri(self, v: Uri) -> (r: Self)
        ensures
            r.msg().message_id == self.msg().message_id,
            r.msg().controls == self.msg().controls,
            r.msg().protocol_op matches ProtocolOp::ModifyDNResponse(x)
                && x.result_code == self.msg().protocol_op->ModifyDNResponse_0.result_code
                && x.matched_dn == self.msg().protocol_op->ModifyDNResponse_0.matched_dn
                && x.diagnostic_message == self.msg().protocol_op->ModifyDNResponse_0.diagnostic_message
                && (x.referral matches Some(l) && l@ == referral_with(self.msg().protocol_op->ModifyDNResponse_0.referral, v)),
    {
        proof {
            use_type_invariant(&self);
        }
        let ModifyDNResponseBuilder(ServerMessageBuilder(m)) = self;
        let Message { message_id, protocol_op, controls } = m;
        let protocol_op = match protocol_op {
            ProtocolOp::ModifyDNResponse(x) => {
                let LdapResult { result_code, matched_dn, diagnostic_message, referral } = x;
                ProtocolOp::ModifyDNResponse(LdapResult { result_code, matched_dn, diagnostic_message, referral: Some(push_uri(referral, v)) })
            },
            other => other,
        };
        ModifyDNResponseBuilder(ServerMessageBuilder(Message { message_id, protocol_op, controls }))
    }

    /// Sets the referral.
    pub fn referral(self, v: Vec<Uri>) -> (r: Self)
        ensures
            r.msg() == (Message {
                protocol_op: ProtocolOp::ModifyDNResponse(LdapResult { referral: Some(v), ..self.msg().protocol_op->ModifyDNResponse_0 }),
                ..self.msg()
            }),
    {
        proof {
            use_type_invariant(&self);
        }
        let ModifyDNResponseBuilder(ServerMessageBuilder(m)) = self;
        let Message { message_id, protocol_op, controls } = m;
        let protocol_op = match protocol_op {
            ProtocolOp::ModifyDNResponse(x) => ProtocolOp::ModifyDNResponse(LdapResult { referral: Some(v), ..x }),
            other => other,
        };
        ModifyDNResponseBuilder(ServerMessageBuilder(Message { message_id, protocol_op, controls }))
    }
}

/// Builds a message that carries the operation CompareResponse.
#[derive(Debug)]
pub struct CompareResponseBuilder(ServerMessageBuilder);

impl CompareResponseBuilder {
    #[verifier::type_invariant]
    spec fn carries_operation(self) -> bool {
        self.0.0.protocol_op is CompareResponse
    }

    /// The message built so far.
    pub closed spec fn msg(&self) -> Message {
        self.0.0
    }

    /// The message built so far.
    pub fn message(&self) -> (r: &Message)
        ensures
            *r == self.msg(),
    {
        &self.0.0
    }

    /// Sets the result code.
    pub fn result_code(self, v: ResultCode) -> (r: Self)
        ensures
            r.msg() == (Message {
                protocol_op: ProtocolOp::CompareResponse(LdapResult { result_code: v, ..self.msg().protocol_op->CompareResponse_0 }),
                ..self.msg()
            }),
    {
        proof {
            use_type_invariant(&self);
        }
        let CompareResponseBuilder(ServerMessageBuilder(m)) = self;
        let Message { message_id, protocol_op, controls } = m;
        let protocol_op = match protocol_op {
            ProtocolOp::CompareResponse(x) => ProtocolOp::CompareResponse(LdapResult { result_code: v, ..x }),
            other => other,
        };
        CompareResponseBuilder(ServerMessageBuilder(Message { message_id, protocol_op, controls }))
    }

    /// Sets the matched name.
    pub fn matched_dn(self, v: String) -> (r: Self)
        ensures
            r.msg() == (Message {
                protocol_op: ProtocolOp::CompareResponse(LdapResult { matched_dn: v, ..self.msg().protocol_op->CompareResponse_0 }),
                ..self.msg()
            }),
    {
        proof {
            use_type_invariant(&self);
        }
        let CompareResponseBuilder(ServerMessageBuilder(m)) = self;
        let Message { message_id, protocol_op, controls } = m;
        let protocol_op = match protocol_op {
            ProtocolOp::CompareResponse(x) => ProtocolOp::CompareResponse(LdapResult { matched_dn: v, ..x }),
            other => other,
        };
        CompareResponseBuilder(ServerMessageBuilder(Message { message_id, protocol_op, controls }))
    }

    /// Sets the diagnostic message.
    pub fn diagnostic_message(self, v: String) -> (r: Self)
        ensures
            r.msg() == (Message {
                protocol_op: ProtocolOp::CompareResponse(LdapResult { diagnostic_message: v, ..self.msg().protocol_op->CompareResponse_0 }),
                ..self.msg()
            }),
    {
        proof {
            use_type_invariant(&self);
        }
        let CompareResponseBuilder(ServerMessageBuilder(m)) = self;
        let Message { message_id, protocol_op, controls } = m;
        let protocol_op = match protocol_op {
            ProtocolOp::CompareResponse(x) => ProtocolOp::CompareResponse(LdapResult { diagnostic_message: v, ..x }),
            other => other,
        };
        CompareResponseBuilder(ServerMessageBuilder(Message { message_id, protocol_op, controls }))
    }

    /// Adds a URI to the referral.
    pub fn referral_uri(self, v: Uri) -> (r: Self)
        ensures
            r.msg().message_id == self.msg().message_id,
            r.msg().controls == self.msg().controls,
            r.msg().protocol_op matches ProtocolOp::CompareResponse(x)
                && x.result_code == self.msg().protocol_op->CompareResponse_0.result_code
                && x.matched_dn == self.msg().protocol_op->CompareResponse_0.matched_dn
                && x.diagnostic_message == self.msg().protocol_op->CompareResponse_0.diagnostic_message
                && (x.referral matches Some(l) && l@ == referral_with(self.msg().protocol_op->CompareResponse_0.referral, v)),
    {
        proof {
            use_type_invariant(&self);
        }
        let CompareResponseBuilder(ServerMessageBuilder(m)) = self;
        let Message { message_id, protocol_op, controls } = m;
        let protocol_op = match protocol_op {
            ProtocolOp::CompareResponse(x) => {
                let LdapResult { result_code, matched_dn, diagnostic_message, referral } = x;
                ProtocolOp::CompareResponse(LdapResult { result_code, matched_dn, diagnostic_message, referral: Some(push_uri(referral, v)) })
            },
            other => other,
        };
        CompareResponseBuilder(ServerMessageBuilder(Message { message_id, protocol_op, controls }))
    }

    /// Sets the referral.
    pub fn referral(self, v: Vec<Uri>) -> (r: Self)
        ensures
            r.msg() == (Message {
                protocol_op: ProtocolOp::CompareResponse(LdapResult { referral: Some(v), ..self.msg().protocol_op->CompareResponse_0 }),
                ..self.msg()
            }),
    {
        proof {
            use_type_invariant(&self);
        }
        let CompareResponseBuilder(ServerMessageBuilder(m)) = self;
        let Message { message_id, protocol_op, controls } = m;
        let protocol_op = match protocol_op {
            ProtocolOp::CompareResponse(x) => ProtocolOp::CompareResponse(LdapResult { referral: Some(v), ..x }),
            other => other,
        };
        CompareResponseBuilder(ServerMessageBuilder(Message { message_id, protocol_op, controls }))
    }
}

/// Builds a message that carries the operation ExtendedResponse.
#[derive(Debug)]
pub struct ExtendedResponseBuilder(ServerMessageBuilder);

impl ExtendedResponseBuilder {
    /// The message built so far.
    pub closed spec fn msg(&self) -> Message {
        self.0.0
    }

    /// The message built so far.
    pub fn message(&self) -> (r: &Message)
        ensures
            *r == self.msg(),
    {
        &self.0.0
    }
}

/// Builds a message that carries the operation IntermediateResponse.
#[derive(Debug)]
pub struct IntermediateResponseBuilder(ServerMessageBuilder);

impl IntermediateResponseBuilder {
    /// The message built so far.
    pub closed spec fn msg(&self) -> Message {
        self.0.0
    }

    /// The message built so far.
    pub fn message(&self) -> (r: &Message)
        ensures
            *r == self.msg(),
    {
        &self.0.0
    }
}
} // verus!
