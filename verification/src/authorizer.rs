//! Authorizers: issuing one-time authorization codes and redeeming each at
//! most once.
use crate::grant::{granted, Grant, GrantData, GrantRequest};
use vstd::hash_map::StringHashMap;
use vstd::prelude::*;

verus! {

/// A backend that turns a grant into a short string code. Nothing is assumed
/// of the codes it produces; a production backend draws them at random.
pub trait TokenGenerator: Sized {
    fn generate(&mut self, grant: &Grant) -> (code: String);
}

/// The code store capability: `authorize` binds a fresh code to a grant with
/// a ten-minute expiry, `extract` redeems a code and consumes it, so that no
/// code is ever redeemed twice.
pub trait Authorizer: Sized {
    /// The live codes and the grants they are bound to.
    spec fn codes(&self) -> Map<Seq<char>, GrantData>;

    /// Issue a code for the requested grant, valid for ten minutes from
    /// `now` (seconds since the Unix epoch).
    fn authorize(&mut self, req: GrantRequest, now: i64) -> (code: String)
        requires
            now <= i64::MAX - 600,
        ensures
            final(self).codes() == old(self).codes().insert(code@, granted(&req, now + 600)),
    ;

    /// Redeem a code: hand back the grant it was bound to and forget the
    /// binding, or nothing for a code that is unknown or already redeemed.
    fn extract(&mut self, code: &str) -> (r: Option<Grant>)
        ensures
            match r {
                Some(g) => old(self).codes().contains_key(code@) && g@ == old(self).codes()[code@]
                    && final(self).codes() == old(self).codes().remove(code@),
                None => !old(self).codes().contains_key(code@) && final(self).codes() == old(
                    self,
                ).codes(),
            },
    ;
}

/// Once a code is bound to a grant, redeeming it yields exactly that grant
/// and removes the binding, and the binding stays absent: by `extract`'s
/// contract the first redemption returns the grant and a second redemption
/// of the same code returns nothing.
pub proof fn lemma_code_single_use(
    codes: Map<Seq<char>, GrantData>,
    code: Seq<char>,
    g: GrantData,
)
    ensures
        codes.insert(code, g).contains_key(code),
        codes.insert(code, g)[code] == g,
        !codes.insert(code, g).remove(code).contains_key(code),
{
}

/// The view of a string-keyed map of grants, grant by grant.
pub open spec fn grants_view(m: Map<Seq<char>, Grant>) -> Map<Seq<char>, GrantData> {
    Map::new(|k: Seq<char>| m.contains_key(k), |k: Seq<char>| m[k]@)
}

/// The reference in-memory code store: a generation backend and a map from
/// code to grant.
pub struct Storage<I: TokenGenerator> {
    issuer: I,
    tokens: StringHashMap<Grant>,
}

impl<I: TokenGenerator> Storage<I> {
    /// An empty store over the given generation backend.
    pub fn new(issuer: I) -> (r: Storage<I>)
        ensures
            r.codes() == Map::<Seq<char>, GrantData>::empty(),
    {
        let r = Storage { issuer, tokens: StringHashMap::new() };
        proof {
            assert(r.codes() =~= Map::<Seq<char>, GrantData>::empty());
        }
        r
    }
}

impl<I: TokenGenerator> Authorizer for Storage<I> {
    closed spec fn codes(&self) -> Map<Seq<char>, GrantData> {
        grants_view(self.tokens@)
    }

    fn authorize(&mut self, req: GrantRequest, now: i64) -> (code: String) {
        let GrantRequest { owner_id, client_id, scope, redirect_url } = req;
        let until: i64 = now + 600;
        let grant = Grant { owner_id, client_id, scope, redirect_url, until };
        let code = self.issuer.generate(&grant);
        let key = code.clone();
        self.tokens.insert(key, grant);
        proof {
            assert(self.codes() =~= old(self).codes().insert(code@, granted(&req, now + 600)));
        }
        code
    }

    fn extract(&mut self, code: &str) -> (r: Option<Grant>) {
        let found = match self.tokens.get(code) {
            Some(g) => Some(g.duplicate()),
            None => None,
        };
        match found {
            Some(g) => {
                self.tokens.remove(code);
                proof {
                    assert(self.codes() =~= old(self).codes().remove(code@));
                }
                Some(g)
            },
            None => None,
        }
    }
}

/// A deterministic generation backend: a counter rendered in decimal behind
/// a fixed prefix. Meant for tests and examples; production code supplies a
/// random generator.
pub struct SerialGenerator {
    counter: u64,
}

impl SerialGenerator {
    /// A generator counting up from zero.
    pub fn new() -> SerialGenerator {
        SerialGenerator { counter: 0 }
    }
}

impl TokenGenerator for SerialGenerator {
    fn generate(&mut self, grant: &Grant) -> (code: String) {
        let number = crate::encode::u64_to_string(self.counter);
        if self.counter < u64::MAX {
            self.counter = self.counter + 1;
        }
        let prefix = String::from_str("code-");
        prefix.concat(number.as_str())
    }
}

} // verus!
