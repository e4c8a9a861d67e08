//! Grants: records of a resource owner's consent decision.
use crate::scope::Scope;
use vstd::prelude::*;

verus! {

/// The mathematical content of a grant: every field as a plain value, the
/// scope both as a set (for subset checks) and as its token list (for the
/// serialized form), and the expiry as seconds since the Unix epoch.
pub struct GrantData {
    pub owner_id: Seq<char>,
    pub client_id: Seq<char>,
    pub scope: Set<Seq<char>>,
    pub scope_tokens: Seq<Seq<char>>,
    pub redirect_url: Seq<char>,
    pub until: int,
}

/// A resource owner's consent: which owner allowed which client to use which
/// scope, bound to a redirect URL, valid until `until` (seconds since the
/// Unix epoch).
pub struct Grant {
    pub owner_id: String,
    pub client_id: String,
    pub scope: Scope,
    pub redirect_url: String,
    pub until: i64,
}

impl View for Grant {
    type V = GrantData;

    open spec fn view(&self) -> GrantData {
        GrantData {
            owner_id: self.owner_id@,
            client_id: self.client_id@,
            scope: self.scope@,
            scope_tokens: self.scope.token_seq(),
            redirect_url: self.redirect_url@,
            until: self.until as int,
        }
    }
}

impl Grant {
    /// An owned copy.
    pub fn duplicate(&self) -> (r: Grant)
        ensures
            r@ == self@,
    {
        let r = Grant {
            owner_id: self.owner_id.clone(),
            client_id: self.client_id.clone(),
            scope: self.scope.duplicate(),
            redirect_url: self.redirect_url.clone(),
            until: self.until,
        };
        proof {
            assert(r@ == self@);
        }
        r
    }
}

/// A request to create a grant or mint a token; the serving backend chooses
/// the expiry.
pub struct GrantRequest {
    pub owner_id: String,
    pub client_id: String,
    pub scope: Scope,
    pub redirect_url: String,
}

/// The grant a backend records when it serves `req` with expiry `until`.
pub open spec fn granted(req: &GrantRequest, until: int) -> GrantData {
    GrantData {
        owner_id: req.owner_id@,
        client_id: req.client_id@,
        scope: req.scope@,
        scope_tokens: req.scope.token_seq(),
        redirect_url: req.redirect_url@,
        until: until,
    }
}

} // verus!
