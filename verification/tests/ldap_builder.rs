use protocols::ldap::builder::{ClientMessageBuilder, ServerMessageBuilder};
use protocols::ldap::wire::{
    AuthenticationChoice, BindRequest, Control, LdapResult, ProtocolOp, ResultCode, SearchRequestFilter,
    SearchRequestScope,
};
use protocols::ldap::LDAP3;

#[test]
fn builder_bind_request() {
    let b = ClientMessageBuilder::new()
        .bind_request()
        .version(LDAP3)
        .name("cn=ldapadmin,dc=localhost,dc=localdomain".to_string())
        .auth_simple("test".to_string());
    let m = b.message();
    assert_eq!(m.message_id, 0);
    assert_eq!(m.controls, None);
    assert_eq!(
        m.protocol_op,
        ProtocolOp::BindRequest(BindRequest {
            version: LDAP3,
            name: "cn=ldapadmin,dc=localhost,dc=localdomain".to_string(),
            authentication: AuthenticationChoice::Simple("test".to_string()),
        })
    );
}

#[test]
fn builder_search_request_and_controls() {
    let control = Control { control_type: "1.2.3".to_string(), criticality: true, control_value: None };
    let b = ClientMessageBuilder::new()
        .control(control.clone())
        .control(control.clone())
        .search_request()
        .base_object("dc=example".to_string())
        .scope(SearchRequestScope::WholeSubtree)
        .size_limit(10)
        .types_only(true)
        .attributes(vec!["cn".to_string()]);
    let m = b.message();
    assert_eq!(m.controls, Some(vec![control.clone(), control]));
    match &m.protocol_op {
        ProtocolOp::SearchRequest(r) => {
            assert_eq!(r.base_object, "dc=example");
            assert_eq!(r.scope, SearchRequestScope::WholeSubtree);
            assert_eq!(r.size_limit, 10);
            assert_eq!(r.time_limit, 0);
            assert!(r.types_only);
            assert_eq!(r.filter, SearchRequestFilter::Present("objectClass".to_string()));
            assert_eq!(r.attributes, vec!["cn".to_string()]);
        }
        _ => panic!("not a search request"),
    }
    let m = ClientMessageBuilder::new().controls(vec![]).del_request();
    assert_eq!(m.message().protocol_op, ProtocolOp::DelRequest(String::new()));
    assert_eq!(m.message().controls, Some(vec![]));
}

#[test]
fn builder_responses() {
    let b = ServerMessageBuilder::new()
        .message_id(7)
        .modify_response()
        .result_code(ResultCode::Referral)
        .diagnostic_message("elsewhere".to_string())
        .referral_uri("ldap://a".to_string())
        .referral_uri("ldap://b".to_string());
    let m = b.message();
    assert_eq!(m.message_id, 7);
    assert_eq!(
        m.protocol_op,
        ProtocolOp::ModifyResponse(LdapResult {
            result_code: ResultCode::Referral,
            matched_dn: String::new(),
            diagnostic_message: "elsewhere".to_string(),
            referral: Some(vec!["ldap://a".to_string(), "ldap://b".to_string()]),
        })
    );
    let b = ServerMessageBuilder::new().search_result_done().matched_dn("dc=x".to_string()).referral(vec![]);
    assert_eq!(
        b.message().protocol_op,
        ProtocolOp::SearchResultDone(LdapResult {
            result_code: ResultCode::Success,
            matched_dn: "dc=x".to_string(),
            diagnostic_message: String::new(),
            referral: Some(vec![]),
        })
    );
    let b = ServerMessageBuilder::new().bind_response();
    assert!(matches!(&b.message().protocol_op, ProtocolOp::BindResponse(r) if r.result.result_code == ResultCode::Success));
}
