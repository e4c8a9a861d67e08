use oauth_core::authorizer::{Authorizer, SerialGenerator, Storage};
use oauth_core::backend::{AccessError, BearerToken, CodeError, CodeRef, GuardRef, IssuerError, IssuerRef};
use oauth_core::issuer::IssuedToken;
use oauth_core::error::AccessTokenErrorKind;
use oauth_core::issuer::{Issuer, TokenMap};
use oauth_core::registrar::{Client, ClientMap, Registrar, RegistrarError};
use oauth_core::requests::{SimpleCodeRequest, SimpleGuardRequest, SimpleTokenRequest};
use oauth_core::scope::Scope;

const NOW: i64 = 1_700_000_000;

fn registry() -> ClientMap {
    let mut reg = ClientMap::new();
    reg.register_client(Client {
        client_id: "abc".to_string(),
        redirect_url: "https://cb/".to_string(),
        default_scope: Scope::parse("read").unwrap(),
        passphrase: None,
    });
    reg
}

fn auth_request(state: Option<&str>) -> SimpleCodeRequest {
    SimpleCodeRequest {
        valid: true,
        client_id: Some("abc".to_string()),
        scope: Some("read".to_string()),
        redirect_url: Some("https://cb/".to_string()),
        state: state.map(|s| s.to_string()),
        method: Some("code".to_string()),
    }
}

fn token_request(code: &str) -> SimpleTokenRequest {
    SimpleTokenRequest {
        valid: true,
        code: Some(code.to_string()),
        authorization: None,
        client_id: Some("abc".to_string()),
        redirect_url: Some("https://cb/".to_string()),
        grant_type: Some("authorization_code".to_string()),
    }
}

/// Runs Scenario A + B and hands back the issued code's success URL.
fn negotiate_and_authorize(state: Option<&str>, store: &mut Storage<SerialGenerator>) -> String {
    let reg = registry();
    let pending = CodeRef::with(&reg).negotiate(&auth_request(state)).ok().unwrap();
    pending.authorize(store, "u1", NOW).ok().unwrap()
}

#[test]
fn negotiation_accepts_registered_client() {
    let reg = registry();
    let pending = CodeRef::with(&reg).negotiate(&auth_request(None)).ok().unwrap();
    let pre = pending.pre_grant();
    assert_eq!(pre.client_id, "abc");
    assert_eq!(pre.redirect_url, "https://cb/");
    assert!(pre.scope.subset_of(&Scope::parse("read").unwrap()));
    assert_eq!(pre.scope.as_string(), "read");
}

#[test]
fn negotiation_normalizes_redirect_url() {
    let reg = registry();
    let mut req = auth_request(None);
    req.redirect_url = Some("https://cb".to_string());
    let pending = CodeRef::with(&reg).negotiate(&req).ok().unwrap();
    assert_eq!(pending.pre_grant().redirect_url, "https://cb/");
}

#[test]
fn negotiation_ignores_invalid_request() {
    let reg = registry();
    let mut req = auth_request(None);
    req.valid = false;
    assert!(matches!(CodeRef::with(&reg).negotiate(&req), Err(CodeError::Ignore)));
}

#[test]
fn negotiation_ignores_missing_client() {
    let reg = registry();
    let mut req = auth_request(None);
    req.client_id = None;
    assert!(matches!(CodeRef::with(&reg).negotiate(&req), Err(CodeError::Ignore)));
}

#[test]
fn negotiation_ignores_unparseable_redirect() {
    let reg = registry();
    let mut req = auth_request(None);
    req.redirect_url = Some("not a url".to_string());
    assert!(matches!(CodeRef::with(&reg).negotiate(&req), Err(CodeError::Ignore)));
}

#[test]
fn negotiation_ignores_unregistered_client() {
    let reg = registry();
    let mut req = auth_request(None);
    req.client_id = Some("other".to_string());
    assert!(matches!(CodeRef::with(&reg).negotiate(&req), Err(CodeError::Ignore)));
}

#[test]
fn negotiation_ignores_mismatched_redirect() {
    let reg = registry();
    let mut req = auth_request(None);
    req.redirect_url = Some("https://evil/".to_string());
    assert!(matches!(CodeRef::with(&reg).negotiate(&req), Err(CodeError::Ignore)));
}

#[test]
fn wrong_method_redirects_with_error() {
    let reg = registry();
    let mut req = auth_request(Some("xyz"));
    req.method = Some("token".to_string());
    match CodeRef::with(&reg).negotiate(&req) {
        Err(CodeError::Redirect(e)) => {
            assert_eq!(e.into_url(), "https://cb/?state=xyz&error=unsupported_response_type");
        }
        _ => panic!("expected a redirect"),
    }
}

#[test]
fn missing_method_redirects_with_error() {
    let reg = registry();
    let mut req = auth_request(None);
    req.method = None;
    match CodeRef::with(&reg).negotiate(&req) {
        Err(CodeError::Redirect(e)) => {
            assert_eq!(e.into_url(), "https://cb/?error=unsupported_response_type");
        }
        _ => panic!("expected a redirect"),
    }
}

#[test]
fn malformed_scope_redirects_with_error() {
    let reg = registry();
    let mut req = auth_request(None);
    req.scope = Some("re\"ad".to_string());
    match CodeRef::with(&reg).negotiate(&req) {
        Err(CodeError::Redirect(e)) => {
            assert_eq!(e.into_url(), "https://cb/?error=invalid_scope");
        }
        _ => panic!("expected a redirect"),
    }
}

#[test]
fn deny_redirects_with_access_denied() {
    let reg = registry();
    let pending = CodeRef::with(&reg).negotiate(&auth_request(Some("st"))).ok().unwrap();
    match pending.deny() {
        Err(CodeError::Redirect(e)) => {
            assert_eq!(e.into_url(), "https://cb/?state=st&error=access_denied");
        }
        _ => panic!("expected a redirect"),
    }
}

#[test]
fn reclassifying_an_error_url() {
    let reg = registry();
    let mut req = auth_request(None);
    req.method = None;
    match CodeRef::with(&reg).negotiate(&req) {
        Err(CodeError::Redirect(e)) => {
            let e = e.with(oauth_core::error::AuthorizationErrorKind::InvalidRequest);
            assert_eq!(e.into_url(), "https://cb/?error=invalid_request");
        }
        _ => panic!("expected a redirect"),
    }
}

#[test]
fn authorize_appends_code_without_state() {
    let mut store = Storage::new(SerialGenerator::new());
    let url = negotiate_and_authorize(None, &mut store);
    assert_eq!(url, "https://cb/?code=code-0");
}

#[test]
fn authorize_appends_code_and_state() {
    let mut store = Storage::new(SerialGenerator::new());
    let url = negotiate_and_authorize(Some("xyz"), &mut store);
    assert_eq!(url, "https://cb/?code=code-0&state=xyz");
}

#[test]
fn issued_code_extracts_exactly_once() {
    let mut store = Storage::new(SerialGenerator::new());
    let _ = negotiate_and_authorize(None, &mut store);
    let grant = store.extract("code-0").unwrap();
    assert_eq!(grant.owner_id, "u1");
    assert_eq!(grant.client_id, "abc");
    assert_eq!(grant.redirect_url, "https://cb/");
    assert_eq!(grant.until, NOW + 600);
    assert!(store.extract("code-0").is_none());
}

#[test]
fn extract_of_unknown_code_is_empty() {
    let mut store: Storage<SerialGenerator> = Storage::new(SerialGenerator::new());
    assert!(store.extract("nope").is_none());
}

#[test]
fn token_exchange_succeeds_within_expiry() {
    let reg = registry();
    let mut store = Storage::new(SerialGenerator::new());
    let mut issuer = TokenMap::new();
    let _ = negotiate_and_authorize(None, &mut store);
    let later = NOW + 300;
    let bearer = IssuerRef::with(&reg)
        .use_code(&mut store, &mut issuer, &token_request("code-0"), later)
        .ok()
        .unwrap();
    assert_eq!(bearer.1, "read");
    let json = bearer.to_json(later);
    assert_eq!(
        json,
        "{\"access_token\":\"token-0\",\"expires_in\":\"3600\",\"refresh_token\":\"refresh-0\",\"scope\":\"read\",\"token_type\":\"bearer\"}"
    );
    let value: serde_json::Value = serde_json::from_str(&json).unwrap();
    assert_eq!(value["token_type"], "bearer");
    let expires: i64 = value["expires_in"].as_str().unwrap().parse().unwrap();
    assert!(expires > 0);
}

#[test]
fn replayed_code_is_rejected_generically() {
    let reg = registry();
    let mut store = Storage::new(SerialGenerator::new());
    let mut issuer = TokenMap::new();
    let _ = negotiate_and_authorize(None, &mut store);
    let first = IssuerRef::with(&reg).use_code(&mut store, &mut issuer, &token_request("code-0"), NOW);
    assert!(first.is_ok());
    match IssuerRef::with(&reg).use_code(&mut store, &mut issuer, &token_request("code-0"), NOW) {
        Err(IssuerError::Invalid(d)) => {
            assert_eq!(d.to_json(), "{\"error\":\"invalid_request\"}");
        }
        _ => panic!("expected the generic invalid answer"),
    }
}

#[test]
fn mismatched_redirect_burns_the_code() {
    let reg = registry();
    let mut store = Storage::new(SerialGenerator::new());
    let mut issuer = TokenMap::new();
    let _ = negotiate_and_authorize(None, &mut store);
    let mut bad = token_request("code-0");
    bad.redirect_url = Some("https://elsewhere/".to_string());
    match IssuerRef::with(&reg).use_code(&mut store, &mut issuer, &bad, NOW) {
        Err(IssuerError::Invalid(d)) => {
            assert_eq!(d.to_json(), "{\"error\":\"invalid_grant\"}");
        }
        _ => panic!("expected invalid_grant"),
    }
    // the code was consumed by the failed call
    match IssuerRef::with(&reg).use_code(&mut store, &mut issuer, &token_request("code-0"), NOW) {
        Err(IssuerError::Invalid(d)) => {
            assert_eq!(d.to_json(), "{\"error\":\"invalid_request\"}");
        }
        _ => panic!("expected the generic invalid answer"),
    }
}

#[test]
fn expired_grant_is_rejected() {
    let reg = registry();
    let mut store = Storage::new(SerialGenerator::new());
    let mut issuer = TokenMap::new();
    let _ = negotiate_and_authorize(None, &mut store);
    let late = NOW + 601;
    match IssuerRef::with(&reg).use_code(&mut store, &mut issuer, &token_request("code-0"), late) {
        Err(IssuerError::Invalid(d)) => {
            assert_eq!(
                d.to_json(),
                "{\"error\":\"invalid_grant\",\"error_description\":\"Grant expired\"}"
            );
        }
        _ => panic!("expected invalid_grant"),
    }
}

#[test]
fn wrong_grant_type_is_rejected() {
    let reg = registry();
    let mut store = Storage::new(SerialGenerator::new());
    let mut issuer = TokenMap::new();
    let _ = negotiate_and_authorize(None, &mut store);
    let mut bad = token_request("code-0");
    bad.grant_type = Some("password".to_string());
    match IssuerRef::with(&reg).use_code(&mut store, &mut issuer, &bad, NOW) {
        Err(IssuerError::Invalid(d)) => {
            assert_eq!(d.error.kind, AccessTokenErrorKind::UnsupportedGrantType);
        }
        _ => panic!("expected unsupported_grant_type"),
    }
    // the code was not consumed: the exchange never reached redemption
    assert!(store.extract("code-0").is_some());
}

#[test]
fn ambiguous_client_identification_is_rejected() {
    let reg = registry();
    let mut store = Storage::new(SerialGenerator::new());
    let mut issuer = TokenMap::new();
    let _ = negotiate_and_authorize(None, &mut store);
    let mut bad = token_request("code-0");
    bad.authorization = Some(("abc".to_string(), b"secret".to_vec()));
    match IssuerRef::with(&reg).use_code(&mut store, &mut issuer, &bad, NOW) {
        Err(IssuerError::Invalid(d)) => {
            assert_eq!(d.error.kind, AccessTokenErrorKind::InvalidRequest);
        }
        _ => panic!("expected invalid_request"),
    }
}

#[test]
fn unknown_client_is_unauthorized() {
    let reg = registry();
    let mut store = Storage::new(SerialGenerator::new());
    let mut issuer = TokenMap::new();
    let _ = negotiate_and_authorize(None, &mut store);
    let mut bad = token_request("code-0");
    bad.client_id = Some("nobody".to_string());
    match IssuerRef::with(&reg).use_code(&mut store, &mut issuer, &bad, NOW) {
        Err(IssuerError::Unauthorized(_, scheme)) => assert_eq!(scheme, "basic"),
        _ => panic!("expected unauthorized"),
    }
}

#[test]
fn wrong_passphrase_is_unauthorized() {
    let mut reg = ClientMap::new();
    reg.register_client(Client {
        client_id: "abc".to_string(),
        redirect_url: "https://cb/".to_string(),
        default_scope: Scope::parse("read").unwrap(),
        passphrase: Some(b"hunter2".to_vec()),
    });
    let mut store = Storage::new(SerialGenerator::new());
    let mut issuer = TokenMap::new();
    let mut req = token_request("code-0");
    req.client_id = None;
    req.authorization = Some(("abc".to_string(), b"wrong".to_vec()));
    match IssuerRef::with(&reg).use_code(&mut store, &mut issuer, &req, NOW) {
        Err(IssuerError::Unauthorized(_, scheme)) => assert_eq!(scheme, "basic"),
        _ => panic!("expected unauthorized"),
    }
}

#[test]
fn matching_passphrase_is_accepted() {
    let client = Client {
        client_id: "abc".to_string(),
        redirect_url: "https://cb/".to_string(),
        default_scope: Scope::parse("read").unwrap(),
        passphrase: Some(b"hunter2".to_vec()),
    };
    assert!(client.check_authentication(Some(b"hunter2")));
    assert!(!client.check_authentication(Some(b"hunter3")));
    assert!(!client.check_authentication(None));
}

#[test]
fn bound_redirect_reports_each_refusal() {
    let reg = registry();
    assert!(matches!(
        reg.bound_redirect("ghost", None),
        Err(RegistrarError::Unregistered)
    ));
    let other = "https://other/".to_string();
    assert!(matches!(
        reg.bound_redirect("abc", Some(&other)),
        Err(RegistrarError::MismatchedRedirect)
    ));
    let pg = reg.bound_redirect("abc", None).ok().unwrap();
    assert_eq!(pg.client_id, "abc");
    assert_eq!(pg.redirect_url, "https://cb/");
}

#[test]
fn guard_denies_insufficient_scope() {
    let mut issuer = TokenMap::new();
    let token = issuer.issue(
        oauth_core::grant::GrantRequest {
            owner_id: "u1".to_string(),
            client_id: "abc".to_string(),
            scope: Scope::parse("read").unwrap(),
            redirect_url: "https://cb/".to_string(),
        },
        NOW,
    );
    let guard = GuardRef::with(vec![Scope::parse("read write").unwrap()]);
    let req = SimpleGuardRequest { valid: true, token: Some(token.token.clone()) };
    assert_eq!(guard.protect(&issuer, &req, NOW), Err(AccessError::AccessDenied));
}

#[test]
fn guard_allows_covering_scope() {
    let mut issuer = TokenMap::new();
    let token = issuer.issue(
        oauth_core::grant::GrantRequest {
            owner_id: "u1".to_string(),
            client_id: "abc".to_string(),
            scope: Scope::parse("read write").unwrap(),
            redirect_url: "https://cb/".to_string(),
        },
        NOW,
    );
    let guard = GuardRef::with(vec![Scope::parse("admin").unwrap(), Scope::parse("read").unwrap()]);
    let req = SimpleGuardRequest { valid: true, token: Some(token.token.clone()) };
    assert_eq!(guard.protect(&issuer, &req, NOW), Ok(()));
}

#[test]
fn guard_rejects_invalid_request() {
    let issuer = TokenMap::new();
    let guard = GuardRef::with(vec![Scope::parse("read").unwrap()]);
    let req = SimpleGuardRequest { valid: false, token: None };
    assert_eq!(guard.protect(&issuer, &req, NOW), Err(AccessError::InvalidRequest));
}

#[test]
fn guard_denies_missing_and_unknown_tokens() {
    let issuer = TokenMap::new();
    let guard = GuardRef::with(vec![Scope::parse("read").unwrap()]);
    let missing = SimpleGuardRequest { valid: true, token: None };
    assert_eq!(guard.protect(&issuer, &missing, NOW), Err(AccessError::AccessDenied));
    let unknown = SimpleGuardRequest { valid: true, token: Some("token-9".to_string()) };
    assert_eq!(guard.protect(&issuer, &unknown, NOW), Err(AccessError::AccessDenied));
}

#[test]
fn guard_denies_expired_grant() {
    let mut issuer = TokenMap::new();
    let token = issuer.issue(
        oauth_core::grant::GrantRequest {
            owner_id: "u1".to_string(),
            client_id: "abc".to_string(),
            scope: Scope::parse("read").unwrap(),
            redirect_url: "https://cb/".to_string(),
        },
        NOW,
    );
    let guard = GuardRef::with(vec![Scope::parse("read").unwrap()]);
    let req = SimpleGuardRequest { valid: true, token: Some(token.token.clone()) };
    assert_eq!(guard.protect(&issuer, &req, NOW + 3601), Err(AccessError::AccessDenied));
}

#[test]
fn bearer_json_reports_elapsed_expiry() {
    let bearer = BearerToken(
        IssuedToken {
            token: "t".to_string(),
            refresh: "r".to_string(),
            until: NOW - 5,
        },
        "read".to_string(),
    );
    assert_eq!(
        bearer.to_json(NOW),
        "{\"access_token\":\"t\",\"expires_in\":\"-5\",\"refresh_token\":\"r\",\"scope\":\"read\",\"token_type\":\"bearer\"}"
    );
}

#[test]
fn reclassifying_an_error_url_in_place() {
    let reg = registry();
    let mut req = auth_request(Some("s"));
    req.method = None;
    match CodeRef::with(&reg).negotiate(&req) {
        Err(CodeError::Redirect(mut e)) => {
            e.with_mut(oauth_core::error::AuthorizationErrorKind::AccessDenied);
            assert_eq!(e.into_url(), "https://cb/?state=s&error=access_denied");
        }
        _ => panic!("expected a redirect"),
    }
}

#[test]
fn confidential_client_exchanges_with_secret() {
    let mut reg = ClientMap::new();
    reg.register_client(Client {
        client_id: "abc".to_string(),
        redirect_url: "https://cb/".to_string(),
        default_scope: Scope::parse("read").unwrap(),
        passphrase: Some(b"hunter2".to_vec()),
    });
    let mut store = Storage::new(SerialGenerator::new());
    let mut issuer = TokenMap::new();
    let pending = CodeRef::with(&reg).negotiate(&auth_request(None)).ok().unwrap();
    let _ = pending.authorize(&mut store, "u1", NOW).ok().unwrap();
    let mut req = token_request("code-0");
    req.client_id = None;
    req.authorization = Some(("abc".to_string(), b"hunter2".to_vec()));
    let bearer = IssuerRef::with(&reg)
        .use_code(&mut store, &mut issuer, &req, NOW)
        .ok()
        .unwrap();
    assert_eq!(bearer.1, "read");
}

#[test]
fn reregistration_replaces_the_record() {
    let mut reg = registry();
    reg.register_client(Client {
        client_id: "abc".to_string(),
        redirect_url: "https://new/".to_string(),
        default_scope: Scope::parse("write").unwrap(),
        passphrase: None,
    });
    let pg = reg.bound_redirect("abc", None).ok().unwrap();
    assert_eq!(pg.redirect_url, "https://new/");
    assert_eq!(pg.scope.as_string(), "write");
}
