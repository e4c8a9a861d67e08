//! The client registry capability: resolving a client identifier and an
//! optional redirect URL into validated, negotiated parameters.
use crate::scope::Scope;
use vstd::hash_map::StringHashMap;
use vstd::prelude::*;

verus! {

/// Why the registry refused to bind a client and redirect URL.
#[derive(Clone, Copy, PartialEq, Eq, Structural, Debug)]
pub enum RegistrarError {
    Unregistered,
    MismatchedRedirect,
    UnauthorizedClient,
}

/// The mathematical content of a pre-grant.
pub struct PreGrantData {
    pub client_id: Seq<char>,
    pub redirect_url: Seq<char>,
    pub scope: Set<Seq<char>>,
    pub scope_tokens: Seq<Seq<char>>,
}

/// The negotiated parameters of an authorization request, after registry
/// validation and before owner consent. Display-only; never persisted.
pub struct PreGrant {
    pub client_id: String,
    pub redirect_url: String,
    pub scope: Scope,
}

impl View for PreGrant {
    type V = PreGrantData;

    open spec fn view(&self) -> PreGrantData {
        PreGrantData {
            client_id: self.client_id@,
            redirect_url: self.redirect_url@,
            scope: self.scope@,
            scope_tokens: self.scope.token_seq(),
        }
    }
}

impl PreGrant {
    /// Negotiate the scope: keep the registry's default when the client asked
    /// for nothing, otherwise grant the intersection of the request with the
    /// default. The outcome never exceeds what the registry allows.
    pub fn negotiate(self, requested: Option<Scope>) -> (r: PreGrant)
        ensures
            r@.client_id == self@.client_id,
            r@.redirect_url == self@.redirect_url,
            match requested {
                None => r@.scope == self@.scope && r@.scope_tokens == self@.scope_tokens,
                Some(req) => r@.scope == req@.intersect(self@.scope) && r@.scope_tokens
                    == req.token_seq().filter(|t: Seq<char>| self.scope.token_seq().contains(t)),
            },
            r@.scope.subset_of(self@.scope),
    {
        match requested {
            None => self,
            Some(req) => {
                let scope = req.intersect(&self.scope);
                proof {
                    assert(req@.intersect(self@.scope).subset_of(self@.scope));
                }
                PreGrant { client_id: self.client_id, redirect_url: self.redirect_url, scope }
            },
        }
    }

    /// An owned copy.
    pub fn duplicate(&self) -> (r: PreGrant)
        ensures
            r@ == self@,
    {
        PreGrant {
            client_id: self.client_id.clone(),
            redirect_url: self.redirect_url.clone(),
            scope: self.scope.duplicate(),
        }
    }
}

/// Whether a supplied authentication secret is accepted for a record: a
/// public client (no passphrase) must come with no secret, a confidential
/// client with exactly its passphrase.
pub open spec fn auth_accepted(stored: Option<Seq<u8>>, given: Option<Seq<u8>>) -> bool {
    match (stored, given) {
        (None, None) => true,
        (Some(a), Some(b)) => a == b,
        _ => false,
    }
}

/// A registered client record.
pub struct Client {
    pub client_id: String,
    pub redirect_url: String,
    pub default_scope: Scope,
    pub passphrase: Option<Vec<u8>>,
}

impl Client {
    /// The stored passphrase as a plain value.
    pub open spec fn passphrase_spec(&self) -> Option<Seq<u8>> {
        match self.passphrase {
            Some(p) => Some(p@),
            None => None,
        }
    }

    /// Check a supplied secret against the record.
    pub fn check_authentication(&self, auth: Option<&[u8]>) -> (r: bool)
        ensures
            r == auth_accepted(
                self.passphrase_spec(),
                match auth {
                    Some(a) => Some(a@),
                    None => None,
                },
            ),
    {
        match (&self.passphrase, auth) {
            (None, None) => true,
            (Some(a), Some(b)) => bytes_eq(a.as_slice(), b),
            _ => false,
        }
    }
}

fn bytes_eq(a: &[u8], b: &[u8]) -> (r: bool)
    ensures
        r == (a@ == b@),
{
    if a.len() != b.len() {
        return false;
    }
    let mut k: usize = 0;
    while k < a.len()
        invariant
            k <= a@.len(),
            a@.len() == b@.len(),
            forall|j: int| 0 <= j < k ==> a@[j] == b@[j],
        decreases a@.len() - k,
    {
        if a[k] != b[k] {
            return false;
        }
        k += 1;
    }
    proof {
        assert(a@ =~= b@);
    }
    true
}

/// The registry capability consumed by the engine. Implementations decide
/// which clients exist and which requests they authorize; the contracts tie
/// the executable answers to that decision.
pub trait Registrar: Sized {
    /// Whether a client with this identifier is registered.
    spec fn registered(&self, client_id: Seq<char>) -> bool;

    /// The record registered under the identifier (meaningful only when
    /// `registered` holds).
    spec fn client_record(&self, client_id: Seq<char>) -> Client;

    /// Whether the registry's policy authorizes this client and redirect
    /// pair at all.
    spec fn authorized(&self, client_id: Seq<char>, redirect_url: Option<Seq<char>>) -> bool;

    /// Resolve a client identifier and an optional redirect URL into a
    /// validated pre-grant, or say why not: unregistered client, redirect
    /// URL differing from the registered one, or client refused by policy.
    fn bound_redirect(&self, client_id: &str, redirect_url: Option<&String>) -> (r: Result<
        PreGrant,
        RegistrarError,
    >)
        ensures
            ({
                let url = match redirect_url {
                    Some(u) => Some(u@),
                    None => None,
                };
                match registry_verdict(
                    self.registered(client_id@),
                    self.client_record(client_id@),
                    self.authorized(client_id@, url),
                    client_id@,
                    url,
                ) {
                    Ok(d) => r matches Ok(pg) && pg@ == d,
                    Err(e) => r matches Err(e2) && e2 == e,
                }
            }),
    ;

    /// Look a client up by its identifier.
    fn client(&self, client_id: &str) -> (r: Option<&Client>)
        ensures
            match r {
                Some(c) => self.registered(client_id@) && *c == self.client_record(client_id@),
                None => !self.registered(client_id@),
            },
    ;
}

/// The answer a registry's contract forces for a lookup, as a function of
/// its model: whether the client is registered, its record, and whether the
/// policy authorizes the pair.
pub open spec fn registry_verdict(
    is_registered: bool,
    record: Client,
    is_authorized: bool,
    client_id: Seq<char>,
    url: Option<Seq<char>>,
) -> Result<PreGrantData, RegistrarError> {
    if !is_registered {
        Err(RegistrarError::Unregistered)
    } else if url matches Some(u) && u != record.redirect_url@ {
        Err(RegistrarError::MismatchedRedirect)
    } else if !is_authorized {
        Err(RegistrarError::UnauthorizedClient)
    } else {
        Ok(
            PreGrantData {
                client_id: client_id,
                redirect_url: record.redirect_url@,
                scope: record.default_scope@,
                scope_tokens: record.default_scope.token_seq(),
            },
        )
    }
}

/// A reference in-memory registry: a map from client identifier to record,
/// with a policy that authorizes every registered pair.
pub struct ClientMap {
    clients: StringHashMap<Client>,
}

impl ClientMap {
    /// An empty registry.
    pub fn new() -> (r: ClientMap)
        ensures
            forall|id: Seq<char>| !r.registered(id),
    {
        ClientMap { clients: StringHashMap::new() }
    }

    /// Register a client under its own identifier, replacing any previous
    /// record under that identifier.
    pub fn register_client(&mut self, client: Client)
        ensures
            final(self).client_record(client.client_id@) == client,
            forall|id: Seq<char>|
                #[trigger] final(self).registered(id) <==> old(self).registered(id) || id
                    == client.client_id@,
            forall|id: Seq<char>|
                id != client.client_id@ ==> #[trigger] final(self).client_record(id) == old(
                    self,
                ).client_record(id),
    {
        let key = client.client_id.clone();
        self.clients.insert(key, client);
    }
}

impl Registrar for ClientMap {
    closed spec fn registered(&self, client_id: Seq<char>) -> bool {
        self.clients@.contains_key(client_id)
    }

    closed spec fn client_record(&self, client_id: Seq<char>) -> Client {
        self.clients@[client_id]
    }

    closed spec fn authorized(&self, client_id: Seq<char>, redirect_url: Option<Seq<char>>) -> bool {
        true
    }

    fn bound_redirect(&self, client_id: &str, redirect_url: Option<&String>) -> (r: Result<
        PreGrant,
        RegistrarError,
    >) {
        match self.clients.get(client_id) {
            None => Err(RegistrarError::Unregistered),
            Some(c) => {
                match redirect_url {
                    Some(u) => {
                        if !u.eq(&c.redirect_url) {
                            Err(RegistrarError::MismatchedRedirect)
                        } else {
                            Ok(
                                PreGrant {
                                    client_id: client_id.to_owned(),
                                    redirect_url: c.redirect_url.clone(),
                                    scope: c.default_scope.duplicate(),
                                },
                            )
                        }
                    },
                    None => Ok(
                        PreGrant {
                            client_id: client_id.to_owned(),
                            redirect_url: c.redirect_url.clone(),
                            scope: c.default_scope.duplicate(),
                        },
                    ),
                }
            },
        }
    }

    fn client(&self, client_id: &str) -> (r: Option<&Client>) {
        self.clients.get(client_id)
    }
}

} // verus!
