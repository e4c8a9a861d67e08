//! The protocol engine: authorization negotiation, token exchange, and the
//! resource guard, with the error-classification policy that separates
//! ignorable from redirectable from direct failures.
use crate::authorizer::Authorizer;
use crate::encode::{i64_to_string, json_object, json_string_of_pairs, pairs_map, pairs_view};
use crate::encode::{dec_int, str_eq};
use crate::error::{error_code, token_error_code};
use crate::error::{AccessTokenError, AccessTokenErrorKind, AuthorizationError, AuthorizationErrorKind};
use crate::grant::{GrantData, GrantRequest};
use crate::issuer::{IssuedToken, Issuer};
use crate::registrar::{auth_accepted, registry_verdict, PreGrant, Registrar};
use crate::requests::{opt_str_view, AccessTokenRequest, CodeRequest, GuardRequest};
use crate::scope::{tokens_of, join_tokens, scope_chars_ok, Scope};
use crate::urls::{append_url_pairs, parse_url, url_normalize, url_with_pairs};
use vstd::prelude::*;

verus! {

/// How an authorization-endpoint failure must be treated: a request whose
/// redirect target was never validated is ignored outright, one from a
/// validated client is answered by redirecting to its registered URL with a
/// structured error appended.
pub enum CodeError {
    Ignore,
    Redirect(ErrorUrl),
}

/// A redirect to a validated URL carrying a structured error. Finalizing
/// appends the request's state (when one was given) and the error code as
/// query parameters, leaving the base URL otherwise untouched.
pub struct ErrorUrl {
    base_url: String,
    state: Option<String>,
    error: AuthorizationError,
}

/// The query pairs a finalized error redirect appends: the request's state,
/// when one was given, then the error code.
pub open spec fn error_pairs(state: Option<Seq<char>>, kind: AuthorizationErrorKind) -> Seq<
    (Seq<char>, Seq<char>),
> {
    let err = seq![("error"@, error_code(kind))];
    match state {
        Some(st) => seq![("state"@, st)] + err,
        None => err,
    }
}

impl ErrorUrl {
    /// The validated URL the redirect goes to.
    pub closed spec fn base_spec(&self) -> Seq<char> {
        self.base_url@
    }

    /// The state parameter to echo.
    pub closed spec fn state_spec(&self) -> Option<Seq<char>> {
        opt_str_view(self.state)
    }

    /// The classified error kind.
    pub closed spec fn kind(&self) -> AuthorizationErrorKind {
        self.error.kind
    }

    /// Bind a validated base URL and the request's state.
    fn new(url: String, state: Option<String>, error: AuthorizationError) -> (r: ErrorUrl)
        ensures
            r.base_spec() == url@,
            r.state_spec() == opt_str_view(state),
            r.kind() == error.kind,
    {
        ErrorUrl { base_url: url, state, error }
    }

    /// Reclassify the contained error in place.
    pub fn with_mut(&mut self, kind: AuthorizationErrorKind)
        ensures
            final(self).kind() == kind,
            final(self).base_spec() == old(self).base_spec(),
            final(self).state_spec() == old(self).state_spec(),
    {
        self.error.kind = kind;
    }

    /// Reclassify the contained error.
    pub fn with(self, kind: AuthorizationErrorKind) -> (r: ErrorUrl)
        ensures
            r.kind() == kind,
            r.base_spec() == self.base_spec(),
            r.state_spec() == self.state_spec(),
    {
        let ErrorUrl { base_url, state, error: _ } = self;
        ErrorUrl { base_url, state, error: AuthorizationError { kind } }
    }

    /// Finalize: the base URL with state and error code appended to its
    /// query.
    pub fn into_url(self) -> (r: String)
        ensures
            r@ == url_with_pairs(self.base_spec(), error_pairs(self.state_spec(), self.kind())),
    {
        let ErrorUrl { base_url, state, error } = self;
        let mut pairs: Vec<(String, String)> = Vec::new();
        let ghost state_view = opt_str_view(state);
        match state {
            Some(st) => pairs.push((String::from_str("state"), st)),
            None => (),
        }
        pairs.push((String::from_str("error"), error.code()));
        let r = append_url_pairs(base_url.as_str(), &pairs);
        proof {
            assert(pairs_view(pairs@) =~= error_pairs(state_view, error.kind));
        }
        r
    }
}

/// A token-endpoint failure, returned directly to the caller, never by
/// redirect: a generic invalid-request answer, or an unauthorized-client
/// answer naming the expected authentication scheme.
pub enum IssuerError {
    Invalid(ErrorDescription),
    Unauthorized(ErrorDescription, String),
}

/// A token-endpoint error payload, ready for serialization.
pub struct ErrorDescription {
    pub error: AccessTokenError,
}

/// The JSON entries of a token-endpoint error: the code, and the free-form
/// description when one is present.
pub open spec fn error_json_pairs(kind: AccessTokenErrorKind, desc: Option<Seq<char>>) -> Seq<
    (Seq<char>, Seq<char>),
> {
    let base = seq![("error"@, token_error_code(kind))];
    match desc {
        Some(d) => base + seq![("error_description"@, d)],
        None => base,
    }
}

impl ErrorDescription {
    /// Serialize as a flat JSON object.
    pub fn to_json(self) -> (r: String)
        ensures
            r@ == json_object(
                pairs_map(
                    error_json_pairs(self.error.kind, opt_str_view(self.error.description)),
                ),
            ),
    {
        let AccessTokenError { kind, description } = self.error;
        let mut pairs: Vec<(String, String)> = Vec::new();
        pairs.push((String::from_str("error"), AccessTokenError { kind, description: None }.code()));
        let ghost desc_view = opt_str_view(description);
        match description {
            Some(d) => pairs.push((String::from_str("error_description"), d)),
            None => (),
        }
        let r = json_string_of_pairs(&pairs);
        proof {
            assert(pairs_view(pairs@) =~= error_json_pairs(kind, desc_view));
        }
        r
    }
}

impl IssuerError {
    /// An invalid-request class failure with the given kind and description.
    pub fn invalid(kind: AccessTokenErrorKind, description: Option<String>) -> (r: IssuerError)
        ensures
            r matches IssuerError::Invalid(d) && d.error.kind == kind && opt_str_view(
                d.error.description,
            ) == opt_str_view(description),
    {
        IssuerError::Invalid(ErrorDescription { error: AccessTokenError { kind, description } })
    }

    /// An unauthorized-client failure naming the expected scheme.
    pub fn unauthorized(authtype: &str) -> (r: IssuerError)
        ensures
            r matches IssuerError::Unauthorized(d, t) && d.error.kind
                == AccessTokenErrorKind::InvalidClient && d.error.description is None && t@
                == authtype@,
    {
        IssuerError::Unauthorized(
            ErrorDescription {
                error: AccessTokenError {
                    kind: AccessTokenErrorKind::InvalidClient,
                    description: None,
                },
            },
            authtype.to_owned(),
        )
    }
}

/// Why resource access was refused. Deliberately coarse: expiry, an unknown
/// token, and insufficient scope all answer alike.
#[derive(Clone, Copy, PartialEq, Eq, Structural, Debug)]
pub enum AccessError {
    InvalidRequest,
    AccessDenied,
}

/// The success payload of token exchange: the minted credential and the
/// granted scope string.
pub struct BearerToken(pub IssuedToken, pub String);

/// The JSON entries of a token-exchange success.
pub open spec fn bearer_pairs(
    token: Seq<char>,
    refresh: Seq<char>,
    expires: Seq<char>,
    scope: Seq<char>,
) -> Seq<(Seq<char>, Seq<char>)> {
    seq![
        ("access_token"@, token),
        ("refresh_token"@, refresh),
        ("token_type"@, "bearer"@),
        ("expires_in"@, expires),
        ("scope"@, scope),
    ]
}

impl BearerToken {
    /// Serialize as the flat token-endpoint object: the tokens, the literal
    /// token type "bearer", the seconds remaining from `now` in decimal, and
    /// the granted scope.
    pub fn to_json(self, now: i64) -> (r: String)
        requires
            i64::MIN <= self.0.until - now <= i64::MAX,
        ensures
            r@ == json_object(
                pairs_map(
                    bearer_pairs(
                        self.0.token@,
                        self.0.refresh@,
                        dec_int(self.0.until - now),
                        self.1@,
                    ),
                ),
            ),
    {
        let BearerToken(issued, scope) = self;
        let remaining: i64 = issued.until - now;
        let mut pairs: Vec<(String, String)> = Vec::new();
        pairs.push((String::from_str("access_token"), issued.token));
        pairs.push((String::from_str("refresh_token"), issued.refresh));
        pairs.push((String::from_str("token_type"), String::from_str("bearer")));
        pairs.push((String::from_str("expires_in"), i64_to_string(remaining)));
        pairs.push((String::from_str("scope"), scope));
        let r = json_string_of_pairs(&pairs);
        proof {
            assert(pairs_view(pairs@) =~= bearer_pairs(
                self.0.token@,
                self.0.refresh@,
                dec_int(self.0.until - now),
                self.1@,
            ));
        }
        r
    }
}

/// Bundles the registry for one negotiation call.
pub struct CodeRef<'a, R: Registrar> {
    pub registrar: &'a R,
}

/// The redirect URL an authorization request carries, as the parser sees it.
pub open spec fn normalized_redirect<Q: CodeRequest>(q: &Q) -> Option<Seq<char>> {
    match q.redirect_url_spec() {
        Some(u) => url_normalize(u),
        None => None,
    }
}

/// The pre-validation steps of negotiation all pass: the request is well
/// formed, names a client, and any redirect URL it carries parses.
pub open spec fn negotiation_prechecks<Q: CodeRequest>(q: &Q) -> bool {
    &&& q.valid_spec()
    &&& q.client_id_spec() is Some
    &&& (q.redirect_url_spec() matches Some(u) ==> url_normalize(u) is Some)
}

/// What `negotiate` is bound to answer: failures before registry validation
/// are ignored, later failures redirect to the validated URL, and success
/// carries the negotiated pre-grant.
pub open spec fn negotiation_post<R: Registrar, Q: CodeRequest>(
    reg: &R,
    q: &Q,
    r: Result<AuthorizationRequest, CodeError>,
) -> bool {
    &&& !negotiation_prechecks(q) ==> (r matches Err(e) && e is Ignore)
    &&& negotiation_prechecks(q) ==> match registry_verdict(
        reg.registered(q.client_id_spec()->0),
        reg.client_record(q.client_id_spec()->0),
        reg.authorized(q.client_id_spec()->0, normalized_redirect(q)),
        q.client_id_spec()->0,
        normalized_redirect(q),
    ) {
        Err(_) => r matches Err(e) && e is Ignore,
        Ok(pre) => {
            if q.method_spec() != Some("code"@) {
                r matches Err(e) && e matches CodeError::Redirect(eu) && eu.base_spec()
                    == pre.redirect_url && eu.state_spec() == q.state_spec() && eu.kind()
                    == AuthorizationErrorKind::UnsupportedResponseType
            } else if q.scope_spec() matches Some(sc) && !scope_chars_ok(sc) {
                r matches Err(e) && e matches CodeError::Redirect(eu) && eu.base_spec()
                    == pre.redirect_url && eu.state_spec() == q.state_spec() && eu.kind()
                    == AuthorizationErrorKind::InvalidScope
            } else {
                r matches Ok(a) && a.pre_grant@.client_id == pre.client_id
                    && a.pre_grant@.redirect_url == pre.redirect_url && (match q.scope_spec() {
                    None => a.pre_grant@.scope == pre.scope && a.pre_grant@.scope_tokens
                        == pre.scope_tokens,
                    Some(sc) => a.pre_grant@.scope == tokens_of(sc).intersect(pre.scope),
                }) && a.pre_grant@.scope.subset_of(pre.scope) && opt_str_view(a.state)
                    == q.state_spec()
            }
        },
    }
}

/// A request naming an unregistered client (or naming none) is always
/// ignored, never answered with a redirect: no unvalidated destination
/// receives error feedback.
pub proof fn lemma_unregistered_is_ignored<R: Registrar, Q: CodeRequest>(
    reg: &R,
    q: &Q,
    r: Result<AuthorizationRequest, CodeError>,
)
    requires
        negotiation_post(reg, q, r),
        q.client_id_spec() matches Some(id) ==> !reg.registered(id),
    ensures
        r matches Err(e) && e is Ignore,
{
}

/// A registered client asking for any method other than "code" is answered
/// by a redirect to its validated URL carrying `unsupported_response_type`.
pub proof fn lemma_wrong_method_redirects<R: Registrar, Q: CodeRequest>(
    reg: &R,
    q: &Q,
    r: Result<AuthorizationRequest, CodeError>,
)
    requires
        negotiation_post(reg, q, r),
        negotiation_prechecks(q),
        registry_verdict(
            reg.registered(q.client_id_spec()->0),
            reg.client_record(q.client_id_spec()->0),
            reg.authorized(q.client_id_spec()->0, normalized_redirect(q)),
            q.client_id_spec()->0,
            normalized_redirect(q),
        ) is Ok,
        q.method_spec() != Some("code"@),
    ensures
        r matches Err(e) && e matches CodeError::Redirect(eu) && eu.kind()
            == AuthorizationErrorKind::UnsupportedResponseType && eu.base_spec()
            == reg.client_record(q.client_id_spec()->0).redirect_url@,
{
}

impl<'a, R: Registrar> CodeRef<'a, R> {
    /// Bundle a registry.
    pub fn with(registrar: &'a R) -> (r: Self)
        ensures
            r.registrar == registrar,
    {
        CodeRef { registrar }
    }

    /// Validate and negotiate an authorization request. Before the registry
    /// validates the client and redirect URL, every failure is ignored; from
    /// then on the redirect target is trusted and every failure is reported
    /// by redirecting to it.
    pub fn negotiate<Q: CodeRequest>(self, request: &Q) -> (r: Result<
        AuthorizationRequest,
        CodeError,
    >)
        ensures
            negotiation_post(self.registrar, request, r),
    {
        if !request.valid() {
            return Err(CodeError::Ignore);
        }
        let client_id = match request.client_id() {
            None => {
                return Err(CodeError::Ignore);
            },
            Some(c) => c,
        };
        let redirect_url: Option<String> = match request.redirect_url() {
            None => None,
            Some(u) => {
                match parse_url(u.as_str()) {
                    None => {
                        return Err(CodeError::Ignore);
                    },
                    Some(p) => Some(p),
                }
            },
        };
        let bound = match self.registrar.bound_redirect(client_id.as_str(), redirect_url.as_ref()) {
            Err(_) => {
                return Err(CodeError::Ignore);
            },
            Ok(pg) => pg,
        };
        let state = request.state();
        let method_ok = match request.method() {
            Some(m) => str_eq(m.as_str(), "code"),
            None => false,
        };
        if !method_ok {
            let e = ErrorUrl::new(
                bound.redirect_url,
                state,
                AuthorizationError { kind: AuthorizationErrorKind::UnsupportedResponseType },
            );
            return Err(CodeError::Redirect(e));
        }
        let scope: Option<Scope> = match request.scope() {
            None => None,
            Some(sc) => {
                match Scope::parse(sc.as_str()) {
                    None => {
                        let e = ErrorUrl::new(
                            bound.redirect_url,
                            state,
                            AuthorizationError { kind: AuthorizationErrorKind::InvalidScope },
                        );
                        return Err(CodeError::Redirect(e));
                    },
                    Some(s) => Some(s),
                }
            },
        };
        let pre_grant = bound.negotiate(scope);
        Ok(AuthorizationRequest { pre_grant, state })
    }
}

/// A valid, pending authorization request: the negotiated parameters,
/// waiting for the resource owner's decision.
pub struct AuthorizationRequest {
    pub pre_grant: PreGrant,
    pub state: Option<String>,
}

/// The grant recorded when the owner consents to a negotiated pre-grant.
pub open spec fn consented(pre: crate::registrar::PreGrantData, owner: Seq<char>, until: int) -> GrantData {
    GrantData {
        owner_id: owner,
        client_id: pre.client_id,
        scope: pre.scope,
        scope_tokens: pre.scope_tokens,
        redirect_url: pre.redirect_url,
        until: until,
    }
}

/// The query pairs a success redirect appends: the fresh code, then the
/// request's state when one was given.
pub open spec fn success_pairs(code: Seq<char>, state: Option<Seq<char>>) -> Seq<
    (Seq<char>, Seq<char>),
> {
    let c = seq![("code"@, code)];
    match state {
        Some(st) => c + seq![("state"@, st)],
        None => c,
    }
}

impl AuthorizationRequest {
    /// The negotiated parameters, for display to the resource owner before
    /// the decision.
    pub fn pre_grant(&self) -> (r: &PreGrant)
        ensures
            r == &self.pre_grant,
    {
        &self.pre_grant
    }

    /// Deny the request: a redirect to the client with `access_denied`.
    pub fn deny(self) -> (r: Result<String, CodeError>)
        ensures
            r matches Err(e) && e matches CodeError::Redirect(eu) && eu.base_spec()
                == self.pre_grant@.redirect_url && eu.state_spec() == opt_str_view(self.state)
                && eu.kind() == AuthorizationErrorKind::AccessDenied,
    {
        let AuthorizationRequest { pre_grant, state } = self;
        let e = ErrorUrl::new(
            pre_grant.redirect_url,
            state,
            AuthorizationError { kind: AuthorizationErrorKind::AccessDenied },
        );
        Err(CodeError::Redirect(e))
    }

    /// Record the owner's consent: mint a one-time code bound to the
    /// negotiated grant, and hand back the success redirect with `code` and,
    /// when one was given, `state` appended.
    pub fn authorize<A: Authorizer>(self, authorizer: &mut A, owner_id: &str, now: i64) -> (r:
        Result<String, CodeError>)
        requires
            now <= i64::MAX - 600,
        ensures
            exists|code: Seq<char>|
                #![trigger success_pairs(code, opt_str_view(self.state))]
                final(authorizer).codes() == old(authorizer).codes().insert(
                    code,
                    consented(self.pre_grant@, owner_id@, now + 600),
                ) && (r matches Ok(u) && u@ == url_with_pairs(
                    self.pre_grant@.redirect_url,
                    success_pairs(code, opt_str_view(self.state)),
                )),
    {
        let AuthorizationRequest { pre_grant, state } = self;
        let req = GrantRequest {
            owner_id: owner_id.to_owned(),
            client_id: pre_grant.client_id.clone(),
            scope: pre_grant.scope.duplicate(),
            redirect_url: pre_grant.redirect_url.clone(),
        };
        let code = authorizer.authorize(req, now);
        let mut pairs: Vec<(String, String)> = Vec::new();
        pairs.push((String::from_str("code"), code.clone()));
        let ghost state_view = opt_str_view(state);
        match state {
            Some(st) => pairs.push((String::from_str("state"), st)),
            None => (),
        }
        let url = append_url_pairs(pre_grant.redirect_url.as_str(), &pairs);
        proof {
            assert(pairs_view(pairs@) =~= success_pairs(code@, state_view));
            assert(final(authorizer).codes() == old(authorizer).codes().insert(
                code@,
                consented(self.pre_grant@, owner_id@, now + 600),
            ));
        }
        Ok(url)
    }
}

/// The decision the token exchange reaches, as a function of the request,
/// the registry's model, the code store's model, and the time.
pub enum ExchangeDecision {
    RejectInvalid(AccessTokenErrorKind, Option<Seq<char>>),
    RejectUnauthorized,
    Issue(GrantData),
}

/// The client the exchange acts for: exactly one of the bare identifier and
/// the authentication header must be present.
pub open spec fn exchange_client<Q: AccessTokenRequest>(q: &Q) -> Option<
    (Seq<char>, Option<Seq<u8>>),
> {
    match (q.client_id_spec(), q.authorization_spec()) {
        (Option::None, Option::Some(p)) => Some((p.0, Some(p.1))),
        (Option::Some(id), Option::None) => Some((id, None)),
        _ => None,
    }
}

/// Whether the exchange reaches the redemption step, and with which code:
/// once client authentication and the grant type have passed, the code is
/// consumed whatever happens afterwards.
pub open spec fn exchange_redeems<R: Registrar, Q: AccessTokenRequest>(reg: &R, q: &Q) -> Option<
    Seq<char>,
> {
    if !q.valid_spec() {
        None
    } else {
        match exchange_client(q) {
            None => None,
            Some((id, auth)) => {
                if !reg.registered(id) {
                    None
                } else if !auth_accepted(reg.client_record(id).passphrase_spec(), auth) {
                    None
                } else {
                    match q.grant_type_spec() {
                        Some(gt) => if gt == "authorization_code"@ {
                            q.code_spec()
                        } else {
                            None
                        },
                        None => None,
                    }
                }
            },
        }
    }
}

/// The exchange's forced outcome.
pub open spec fn exchange_decision<R: Registrar, Q: AccessTokenRequest>(
    reg: &R,
    codes: Map<Seq<char>, GrantData>,
    q: &Q,
    now: int,
) -> ExchangeDecision {
    if !q.valid_spec() {
        ExchangeDecision::RejectInvalid(AccessTokenErrorKind::InvalidRequest, None)
    } else {
        match exchange_client(q) {
            None => ExchangeDecision::RejectInvalid(AccessTokenErrorKind::InvalidRequest, None),
            Some((id, auth)) => {
                if !reg.registered(id) {
                    ExchangeDecision::RejectUnauthorized
                } else if !auth_accepted(reg.client_record(id).passphrase_spec(), auth) {
                    ExchangeDecision::RejectUnauthorized
                } else {
                    match q.grant_type_spec() {
                        None => ExchangeDecision::RejectInvalid(
                            AccessTokenErrorKind::InvalidRequest,
                            None,
                        ),
                        Some(gt) => {
                            if gt != "authorization_code"@ {
                                ExchangeDecision::RejectInvalid(
                                    AccessTokenErrorKind::UnsupportedGrantType,
                                    None,
                                )
                            } else {
                                match q.code_spec() {
                                    None => ExchangeDecision::RejectInvalid(
                                        AccessTokenErrorKind::InvalidRequest,
                                        None,
                                    ),
                                    Some(c) => {
                                        if !codes.contains_key(c) {
                                            ExchangeDecision::RejectInvalid(
                                                AccessTokenErrorKind::InvalidRequest,
                                                None,
                                            )
                                        } else {
                                            let saved = codes[c];
                                            match q.redirect_url_spec() {
                                                None => ExchangeDecision::RejectInvalid(
                                                    AccessTokenErrorKind::InvalidRequest,
                                                    None,
                                                ),
                                                Some(ru) => {
                                                    if saved.client_id != id || saved.redirect_url
                                                        != ru {
                                                        ExchangeDecision::RejectInvalid(
                                                            AccessTokenErrorKind::InvalidGrant,
                                                            None,
                                                        )
                                                    } else if saved.until < now {
                                                        ExchangeDecision::RejectInvalid(
                                                            AccessTokenErrorKind::InvalidGrant,
                                                            Some("Grant expired"@),
                                                        )
                                                    } else {
                                                        ExchangeDecision::Issue(saved)
                                                    }
                                                },
                                            }
                                        }
                                    },
                                }
                            }
                        },
                    }
                }
            },
        }
    }
}

/// Bundles the registry for one token-exchange call; the mutable code store
/// and token backend are borrowed per call.
pub struct IssuerRef<'a, R: Registrar> {
    pub registrar: &'a R,
}

impl<'a, R: Registrar> IssuerRef<'a, R> {
    /// Bundle a registry.
    pub fn with(registrar: &'a R) -> (r: Self)
        ensures
            r.registrar == registrar,
    {
        IssuerRef { registrar }
    }

    /// Redeem an authorization code for a bearer token. The code is consumed
    /// the moment it is looked up: a replay, or a redeemed code presented
    /// with mismatched parameters, burns it.
    pub fn use_code<A: Authorizer, I: Issuer, Q: AccessTokenRequest>(
        &self,
        authorizer: &mut A,
        issuer: &mut I,
        request: &Q,
        now: i64,
    ) -> (r: Result<BearerToken, IssuerError>)
        ensures
            final(authorizer).codes() == (match exchange_redeems(self.registrar, request) {
                Some(c) => old(authorizer).codes().remove(c),
                None => old(authorizer).codes(),
            }),
            match exchange_decision(self.registrar, old(authorizer).codes(), request, now as int) {
                ExchangeDecision::RejectInvalid(kind, desc) => {
                    &&& r matches Err(e)
                    &&& e matches IssuerError::Invalid(d)
                    &&& d.error.kind == kind
                    &&& opt_str_view(d.error.description) == desc
                    &&& final(issuer).issued() == old(issuer).issued()
                },
                ExchangeDecision::RejectUnauthorized => {
                    &&& r matches Err(e)
                    &&& e matches IssuerError::Unauthorized(d, t)
                    &&& d.error.kind == AccessTokenErrorKind::InvalidClient
                    &&& t@ == "basic"@
                    &&& final(issuer).issued() == old(issuer).issued()
                },
                ExchangeDecision::Issue(saved) => {
                    &&& r matches Ok(b)
                    &&& b.1@ == join_tokens(saved.scope_tokens)
                    &&& final(issuer).issued() == old(issuer).issued().insert(
                        b.0.token@,
                        GrantData {
                            owner_id: saved.owner_id,
                            client_id: saved.client_id,
                            scope: saved.scope,
                            scope_tokens: saved.scope_tokens,
                            redirect_url: saved.redirect_url,
                            until: b.0.until as int,
                        },
                    )
                },
            },
    {
        if !request.valid() {
            return Err(IssuerError::invalid(AccessTokenErrorKind::InvalidRequest, None));
        }
        let authorization = request.authorization();
        let client_id_opt = request.client_id();
        let (client_id, auth): (String, Option<Vec<u8>>) = match (client_id_opt, authorization) {
            (None, Some(p)) => (p.0, Some(p.1)),
            (Some(id), None) => (id, None),
            _ => {
                return Err(IssuerError::invalid(AccessTokenErrorKind::InvalidRequest, None));
            },
        };
        let client = match self.registrar.client(client_id.as_str()) {
            None => {
                return Err(IssuerError::unauthorized("basic"));
            },
            Some(c) => c,
        };
        let auth_ref: Option<&[u8]> = match &auth {
            Some(v) => Some(v.as_slice()),
            None => None,
        };
        if !client.check_authentication(auth_ref) {
            return Err(IssuerError::unauthorized("basic"));
        }
        match request.grant_type() {
            Some(gt) => {
                if !str_eq(gt.as_str(), "authorization_code") {
                    return Err(
                        IssuerError::invalid(AccessTokenErrorKind::UnsupportedGrantType, None),
                    );
                }
            },
            None => {
                return Err(IssuerError::invalid(AccessTokenErrorKind::InvalidRequest, None));
            },
        }
        let code = match request.code() {
            None => {
                return Err(IssuerError::invalid(AccessTokenErrorKind::InvalidRequest, None));
            },
            Some(c) => c,
        };
        let saved = match authorizer.extract(code.as_str()) {
            None => {
                return Err(IssuerError::invalid(AccessTokenErrorKind::InvalidRequest, None));
            },
            Some(g) => g,
        };
        let redirect_url = match request.redirect_url() {
            None => {
                return Err(IssuerError::invalid(AccessTokenErrorKind::InvalidRequest, None));
            },
            Some(u) => u,
        };
        if !str_eq(saved.client_id.as_str(), client_id.as_str()) || !str_eq(
            saved.redirect_url.as_str(),
            redirect_url.as_str(),
        ) {
            return Err(IssuerError::invalid(AccessTokenErrorKind::InvalidGrant, None));
        }
        if saved.until < now {
            return Err(
                IssuerError::invalid(
                    AccessTokenErrorKind::InvalidGrant,
                    Some(String::from_str("Grant expired")),
                ),
            );
        }
        let scope_string = saved.scope.as_string();
        let req = GrantRequest {
            owner_id: saved.owner_id,
            client_id: saved.client_id,
            scope: saved.scope,
            redirect_url: saved.redirect_url,
        };
        let token = issuer.issue(req, now);
        Ok(BearerToken(token, scope_string))
    }
}

/// Bundles the acceptable scopes for one protected resource: a grant must
/// cover at least one of them, and each scope may require several tokens.
pub struct GuardRef {
    pub scopes: Vec<Scope>,
}

impl GuardRef {
    /// Guard a resource with a choice of acceptable scopes.
    pub fn with(scopes: Vec<Scope>) -> (r: GuardRef)
        ensures
            r.scopes == scopes,
    {
        GuardRef { scopes }
    }

    /// Decide resource access: allowed exactly when the token resolves to an
    /// unexpired grant whose scope covers one of the acceptable scopes. All
    /// other failures answer alike, to give an attacker no oracle on token
    /// validity.
    #[verifier::loop_isolation(false)]
    pub fn protect<I: Issuer, Q: GuardRequest>(&self, issuer: &I, req: &Q, now: i64) -> (r: Result<
        (),
        AccessError,
    >)
        ensures
            r is Ok <==> ({
                &&& req.valid_spec()
                &&& req.token_spec() matches Some(t)
                &&& issuer.issued().contains_key(req.token_spec()->0)
                &&& issuer.issued()[req.token_spec()->0].until >= now
                &&& exists|k: int|
                    0 <= k < self.scopes@.len() && (#[trigger] self.scopes@[k])@.subset_of(
                        issuer.issued()[req.token_spec()->0].scope,
                    )
            }),
            !req.valid_spec() ==> r == Err::<(), AccessError>(AccessError::InvalidRequest),
            req.valid_spec() && !(r is Ok) ==> r == Err::<(), AccessError>(
                AccessError::AccessDenied,
            ),
    {
        if !req.valid() {
            return Err(AccessError::InvalidRequest);
        }
        let token = match req.token() {
            None => {
                return Err(AccessError::AccessDenied);
            },
            Some(t) => t,
        };
        let grant = match issuer.recover_token(token.as_str()) {
            None => {
                return Err(AccessError::AccessDenied);
            },
            Some(g) => g,
        };
        if grant.until < now {
            return Err(AccessError::AccessDenied);
        }
        let mut k: usize = 0;
        while k < self.scopes.len()
            invariant
                k <= self.scopes@.len(),
                forall|j: int|
                    0 <= j < k ==> !(#[trigger] self.scopes@[j])@.subset_of(grant@.scope),
            decreases self.scopes@.len() - k,
        {
            if self.scopes[k].subset_of(&grant.scope) {
                return Ok(());
            }
            k += 1;
        }
        Err(AccessError::AccessDenied)
    }
}

} // verus!
