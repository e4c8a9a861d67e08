//! Request views: the capability interfaces adapters implement to hand the
//! engine what they decoded from the transport, plus plain-value
//! implementations for adapters that already hold decoded values.
use vstd::prelude::*;

verus! {

/// An optional string as a plain value.
pub open spec fn opt_str_view(o: Option<String>) -> Option<Seq<char>> {
    match o {
        Some(s) => Some(s@),
        None => None,
    }
}

fn clone_opt(o: &Option<String>) -> (r: Option<String>)
    ensures
        opt_str_view(r) == opt_str_view(*o),
{
    match o {
        Some(s) => Some(s.clone()),
        None => None,
    }
}

fn clone_bytes(v: &Vec<u8>) -> (r: Vec<u8>)
    ensures
        r@ == v@,
{
    let mut out: Vec<u8> = Vec::new();
    let mut k: usize = 0;
    while k < v.len()
        invariant
            k <= v@.len(),
            out@ =~= v@.take(k as int),
        decreases v@.len() - k,
    {
        out.push(v[k]);
        k += 1;
    }
    proof {
        assert(out@ =~= v@);
    }
    out
}

/// An authorization request as the adapter presents it. A malformed request
/// reports `valid` false and is queried no further.
pub trait CodeRequest: Sized {
    /// Whether the request was well-formed at the transport level.
    spec fn valid_spec(&self) -> bool;

    /// The client asking for authorization.
    spec fn client_id_spec(&self) -> Option<Seq<char>>;

    /// The requested scope string.
    spec fn scope_spec(&self) -> Option<Seq<char>>;

    /// The redirect URL the client supplied.
    spec fn redirect_url_spec(&self) -> Option<Seq<char>>;

    /// The client's state parameter, echoed back on redirects.
    spec fn state_spec(&self) -> Option<Seq<char>>;

    /// The requested method; only "code" is served.
    spec fn method_spec(&self) -> Option<Seq<char>>;

    fn valid(&self) -> (r: bool)
        ensures
            r == self.valid_spec(),
    ;

    fn client_id(&self) -> (r: Option<String>)
        ensures
            opt_str_view(r) == self.client_id_spec(),
    ;

    fn scope(&self) -> (r: Option<String>)
        ensures
            opt_str_view(r) == self.scope_spec(),
    ;

    fn redirect_url(&self) -> (r: Option<String>)
        ensures
            opt_str_view(r) == self.redirect_url_spec(),
    ;

    fn state(&self) -> (r: Option<String>)
        ensures
            opt_str_view(r) == self.state_spec(),
    ;

    fn method(&self) -> (r: Option<String>)
        ensures
            opt_str_view(r) == self.method_spec(),
    ;
}

/// A token-exchange request as the adapter presents it.
pub trait AccessTokenRequest: Sized {
    /// Whether the request was well-formed at the transport level.
    spec fn valid_spec(&self) -> bool;

    /// The authorization code to redeem.
    spec fn code_spec(&self) -> Option<Seq<char>>;

    /// Client identifier and secret from an authentication header.
    spec fn authorization_spec(&self) -> Option<(Seq<char>, Seq<u8>)>;

    /// The bare client identifier of a public client.
    spec fn client_id_spec(&self) -> Option<Seq<char>>;

    /// The redirect URL used when the code was requested.
    spec fn redirect_url_spec(&self) -> Option<Seq<char>>;

    /// The grant type; only "authorization_code" is served.
    spec fn grant_type_spec(&self) -> Option<Seq<char>>;

    fn valid(&self) -> (r: bool)
        ensures
            r == self.valid_spec(),
    ;

    fn code(&self) -> (r: Option<String>)
        ensures
            opt_str_view(r) == self.code_spec(),
    ;

    fn authorization(&self) -> (r: Option<(String, Vec<u8>)>)
        ensures
            match r {
                Some(p) => self.authorization_spec() == Some((p.0@, p.1@)),
                None => self.authorization_spec() is None,
            },
    ;

    fn client_id(&self) -> (r: Option<String>)
        ensures
            opt_str_view(r) == self.client_id_spec(),
    ;

    fn redirect_url(&self) -> (r: Option<String>)
        ensures
            opt_str_view(r) == self.redirect_url_spec(),
    ;

    fn grant_type(&self) -> (r: Option<String>)
        ensures
            opt_str_view(r) == self.grant_type_spec(),
    ;
}

/// A guarded-resource request as the adapter presents it.
pub trait GuardRequest: Sized {
    /// Whether the request was well-formed at the transport level.
    spec fn valid_spec(&self) -> bool;

    /// The bearer token presented for access.
    spec fn token_spec(&self) -> Option<Seq<char>>;

    fn valid(&self) -> (r: bool)
        ensures
            r == self.valid_spec(),
    ;

    fn token(&self) -> (r: Option<String>)
        ensures
            opt_str_view(r) == self.token_spec(),
    ;
}

/// An authorization request held as plain values.
pub struct SimpleCodeRequest {
    pub valid: bool,
    pub client_id: Option<String>,
    pub scope: Option<String>,
    pub redirect_url: Option<String>,
    pub state: Option<String>,
    pub method: Option<String>,
}

impl CodeRequest for SimpleCodeRequest {
    open spec fn valid_spec(&self) -> bool {
        self.valid
    }

    open spec fn client_id_spec(&self) -> Option<Seq<char>> {
        opt_str_view(self.client_id)
    }

    open spec fn scope_spec(&self) -> Option<Seq<char>> {
        opt_str_view(self.scope)
    }

    open spec fn redirect_url_spec(&self) -> Option<Seq<char>> {
        opt_str_view(self.redirect_url)
    }

    open spec fn state_spec(&self) -> Option<Seq<char>> {
        opt_str_view(self.state)
    }

    open spec fn method_spec(&self) -> Option<Seq<char>> {
        opt_str_view(self.method)
    }

    fn valid(&self) -> (r: bool) {
        self.valid
    }

    fn client_id(&self) -> (r: Option<String>) {
        clone_opt(&self.client_id)
    }

    fn scope(&self) -> (r: Option<String>) {
        clone_opt(&self.scope)
    }

    fn redirect_url(&self) -> (r: Option<String>) {
        clone_opt(&self.redirect_url)
    }

    fn state(&self) -> (r: Option<String>) {
        clone_opt(&self.state)
    }

    fn method(&self) -> (r: Option<String>) {
        clone_opt(&self.method)
    }
}

/// A token-exchange request held as plain values.
pub struct SimpleTokenRequest {
    pub valid: bool,
    pub code: Option<String>,
    pub authorization: Option<(String, Vec<u8>)>,
    pub client_id: Option<String>,
    pub redirect_url: Option<String>,
    pub grant_type: Option<String>,
}

impl AccessTokenRequest for SimpleTokenRequest {
    open spec fn valid_spec(&self) -> bool {
        self.valid
    }

    open spec fn code_spec(&self) -> Option<Seq<char>> {
        opt_str_view(self.code)
    }

    open spec fn authorization_spec(&self) -> Option<(Seq<char>, Seq<u8>)> {
        match self.authorization {
            Some(p) => Some((p.0@, p.1@)),
            None => None,
        }
    }

    open spec fn client_id_spec(&self) -> Option<Seq<char>> {
        opt_str_view(self.client_id)
    }

    open spec fn redirect_url_spec(&self) -> Option<Seq<char>> {
        opt_str_view(self.redirect_url)
    }

    open spec fn grant_type_spec(&self) -> Option<Seq<char>> {
        opt_str_view(self.grant_type)
    }

    fn valid(&self) -> (r: bool) {
        self.valid
    }

    fn code(&self) -> (r: Option<String>) {
        clone_opt(&self.code)
    }

    fn authorization(&self) -> (r: Option<(String, Vec<u8>)>) {
        match &self.authorization {
            Some(p) => Some((p.0.clone(), clone_bytes(&p.1))),
            None => None,
        }
    }

    fn client_id(&self) -> (r: Option<String>) {
        clone_opt(&self.client_id)
    }

    fn redirect_url(&self) -> (r: Option<String>) {
        clone_opt(&self.redirect_url)
    }

    fn grant_type(&self) -> (r: Option<String>) {
        clone_opt(&self.grant_type)
    }
}

/// A guarded-resource request held as plain values.
pub struct SimpleGuardRequest {
    pub valid: bool,
    pub token: Option<String>,
}

impl GuardRequest for SimpleGuardRequest {
    open spec fn valid_spec(&self) -> bool {
        self.valid
    }

    open spec fn token_spec(&self) -> Option<Seq<char>> {
        opt_str_view(self.token)
    }

    fn valid(&self) -> (r: bool) {
        self.valid
    }

    fn token(&self) -> (r: Option<String>) {
        clone_opt(&self.token)
    }
}

} // verus!
