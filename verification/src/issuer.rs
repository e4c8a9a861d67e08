//! The token-issuing capability: minting bearer credentials and recovering
//! the grant behind a previously issued token.
use crate::authorizer::grants_view;
use crate::grant::{granted, Grant, GrantData, GrantRequest};
use vstd::hash_map::StringHashMap;
use vstd::prelude::*;

verus! {

/// An issued bearer credential: access token, refresh token, and expiry in
/// seconds since the Unix epoch.
pub struct IssuedToken {
    pub token: String,
    pub refresh: String,
    pub until: i64,
}

/// The token backend consumed by the engine. `issue` mints a credential and
/// records the grant under the new token; `recover_token` finds the grant
/// behind a token.
pub trait Issuer: Sized {
    /// The live tokens and the grants they were minted for.
    spec fn issued(&self) -> Map<Seq<char>, GrantData>;

    /// Mint a bearer credential for the requested grant. The backend chooses
    /// the expiry `r.until` and records the grant, with that expiry, under
    /// the new access token.
    fn issue(&mut self, req: GrantRequest, now: i64) -> (r: IssuedToken)
        ensures
            final(self).issued() == old(self).issued().insert(
                r.token@,
                granted(&req, r.until as int),
            ),
    ;

    /// Recover the grant behind a previously issued token.
    fn recover_token(&self, token: &str) -> (r: Option<Grant>)
        ensures
            match r {
                Some(g) => self.issued().contains_key(token@) && g@ == self.issued()[token@],
                None => !self.issued().contains_key(token@),
            },
    ;
}

/// A reference in-memory token backend: serially numbered tokens, each valid
/// for an hour.
pub struct TokenMap {
    counter: u64,
    tokens: StringHashMap<Grant>,
}

impl TokenMap {
    /// An empty token store.
    pub fn new() -> (r: TokenMap)
        ensures
            r.issued() == Map::<Seq<char>, GrantData>::empty(),
    {
        let r = TokenMap { counter: 0, tokens: StringHashMap::new() };
        proof {
            assert(r.issued() =~= Map::<Seq<char>, GrantData>::empty());
        }
        r
    }
}

impl Issuer for TokenMap {
    closed spec fn issued(&self) -> Map<Seq<char>, GrantData> {
        grants_view(self.tokens@)
    }

    fn issue(&mut self, req: GrantRequest, now: i64) -> (r: IssuedToken) {
        let number = crate::encode::u64_to_string(self.counter);
        if self.counter < u64::MAX {
            self.counter = self.counter + 1;
        }
        let token = String::from_str("token-").concat(number.as_str());
        let refresh = String::from_str("refresh-").concat(number.as_str());
        let until: i64 = if now <= i64::MAX - 3600 {
            now + 3600
        } else {
            i64::MAX
        };
        let GrantRequest { owner_id, client_id, scope, redirect_url } = req;
        let grant = Grant { owner_id, client_id, scope, redirect_url, until };
        let key = token.clone();
        self.tokens.insert(key, grant);
        proof {
            assert(self.issued() =~= old(self).issued().insert(
                token@,
                granted(&req, until as int),
            ));
        }
        IssuedToken { token, refresh, until }
    }

    fn recover_token(&self, token: &str) -> (r: Option<Grant>) {
        match self.tokens.get(token) {
            Some(g) => Some(g.duplicate()),
            None => None,
        }
    }
}

} // verus!
