//! Scopes: set-valued permission descriptors ordered by subset inclusion.
//!
//! A single scope is an AND of permission tokens; the guard's list of
//! acceptable scopes is an OR across alternatives.
use vstd::prelude::*;

verus! {

/// A scope token character: printable ASCII except space, double quote and
/// backslash.
pub open spec fn valid_scope_char(c: char) -> bool {
    33 <= c as u32 && c as u32 <= 126 && c != '"' && c != '\\'
}

/// Every character of a scope string is either a token character or the
/// space separator.
pub open spec fn scope_chars_ok(s: Seq<char>) -> bool {
    forall|k: int| 0 <= k < s.len() ==> valid_scope_char(s[k]) || s[k] == ' '
}

/// `s[i..j]` is a maximal nonempty run of non-space characters in `s`.
pub open spec fn is_token_at(s: Seq<char>, i: int, j: int) -> bool {
    &&& 0 <= i < j <= s.len()
    &&& (forall|k: int| i <= k < j ==> s[k] != ' ')
    &&& (i == 0 || s[i - 1] == ' ')
    &&& (j == s.len() || s[j] == ' ')
}

/// The maximal runs of `s` that end before `bound`.
pub open spec fn tokens_upto(s: Seq<char>, bound: int) -> Set<Seq<char>> {
    Set::new(
        |t: Seq<char>|
            exists|i: int, j: int|
                #![trigger is_token_at(s, i, j)]
                is_token_at(s, i, j) && j < bound && t == s.subrange(i, j),
    )
}

/// The set of permission tokens a scope string denotes: its maximal
/// space-separated runs.
pub open spec fn tokens_of(s: Seq<char>) -> Set<Seq<char>> {
    Set::new(
        |t: Seq<char>|
            exists|i: int, j: int|
                #![trigger is_token_at(s, i, j)]
                is_token_at(s, i, j) && t == s.subrange(i, j),
    )
}

/// Two maximal runs ending at the same position start at the same position.
proof fn lemma_token_start_unique(s: Seq<char>, i1: int, i2: int, j: int)
    requires
        is_token_at(s, i1, j),
        is_token_at(s, i2, j),
    ensures
        i1 == i2,
{
    if i1 < i2 {
        assert(s[i2 - 1] != ' ');
    }
    if i2 < i1 {
        assert(s[i1 - 1] != ' ');
    }
}

proof fn lemma_to_set_push(m: Seq<Seq<char>>, x: Seq<char>)
    ensures
        m.push(x).to_set() =~= m.to_set().insert(x),
{
    let m2 = m.push(x);
    assert forall|y: Seq<char>| m2.to_set().contains(y) implies m.to_set().contains(y) || y
        == x by {
        let k = choose|k: int| 0 <= k < m2.len() && m2[k] == y;
        if k < m.len() {
            assert(m[k] == y);
        }
    }
    assert forall|y: Seq<char>| m.to_set().contains(y) || y == x implies m2.to_set().contains(
        y,
    ) by {
        if m.contains(y) {
            let k = choose|k: int| 0 <= k < m.len() && m[k] == y;
            assert(m2[k] == y);
        } else {
            assert(m2[m.len() as int] == x);
        }
    }
}

/// Raising the bound past a completed token adds exactly that token.
proof fn lemma_tokens_upto_push(s: Seq<char>, a: int, b: int)
    requires
        is_token_at(s, a, b),
    ensures
        tokens_upto(s, b + 1) =~= tokens_upto(s, b).insert(s.subrange(a, b)),
{
    assert forall|x: Seq<char>| tokens_upto(s, b + 1).contains(x) implies tokens_upto(
        s,
        b,
    ).insert(s.subrange(a, b)).contains(x) by {
        let (a2, b2) = choose|a2: int, b2: int|
            #![trigger is_token_at(s, a2, b2)]
            is_token_at(s, a2, b2) && b2 < b + 1 && x == s.subrange(a2, b2);
        if b2 == b {
            lemma_token_start_unique(s, a2, a, b);
        }
    }
    assert forall|x: Seq<char>| tokens_upto(s, b).insert(s.subrange(a, b)).contains(
        x,
    ) implies tokens_upto(s, b + 1).contains(x) by {
        if tokens_upto(s, b).contains(x) {
            let (a2, b2) = choose|a2: int, b2: int|
                #![trigger is_token_at(s, a2, b2)]
                is_token_at(s, a2, b2) && b2 < b && x == s.subrange(a2, b2);
            assert(is_token_at(s, a2, b2) && b2 < b + 1 && x == s.subrange(a2, b2));
        } else {
            assert(is_token_at(s, a, b) && b < b + 1 && x == s.subrange(a, b));
        }
    }
}

/// If no token ends exactly at `b`, raising the bound to `b + 1` adds nothing.
proof fn lemma_tokens_upto_same(s: Seq<char>, b: int)
    requires
        forall|a: int| !is_token_at(s, a, b),
    ensures
        tokens_upto(s, b + 1) =~= tokens_upto(s, b),
{
    assert forall|x: Seq<char>| tokens_upto(s, b + 1).contains(x) implies tokens_upto(
        s,
        b,
    ).contains(x) by {
        let (a2, b2) = choose|a2: int, b2: int|
            #![trigger is_token_at(s, a2, b2)]
            is_token_at(s, a2, b2) && b2 < b + 1 && x == s.subrange(a2, b2);
        assert(b2 != b);
        assert(is_token_at(s, a2, b2) && b2 < b && x == s.subrange(a2, b2));
    }
    assert forall|x: Seq<char>| tokens_upto(s, b).contains(x) implies tokens_upto(
        s,
        b + 1,
    ).contains(x) by {
        let (a2, b2) = choose|a2: int, b2: int|
            #![trigger is_token_at(s, a2, b2)]
            is_token_at(s, a2, b2) && b2 < b && x == s.subrange(a2, b2);
        assert(is_token_at(s, a2, b2) && b2 < b + 1 && x == s.subrange(a2, b2));
    }
}

proof fn lemma_tokens_upto_all(s: Seq<char>)
    ensures
        tokens_upto(s, s.len() as int + 1) =~= tokens_of(s),
{
    assert forall|x: Seq<char>| tokens_of(s).contains(x) implies tokens_upto(
        s,
        s.len() as int + 1,
    ).contains(x) by {
        let (a2, b2) = choose|a2: int, b2: int|
            #![trigger is_token_at(s, a2, b2)]
            is_token_at(s, a2, b2) && x == s.subrange(a2, b2);
        assert(is_token_at(s, a2, b2) && b2 < s.len() as int + 1 && x == s.subrange(a2, b2));
    }
}

proof fn lemma_filter_singleton(x: Seq<char>, pred: spec_fn(Seq<char>) -> bool)
    ensures
        pred(x) ==> seq![x].filter(pred) == seq![x],
        !pred(x) ==> seq![x].filter(pred) == Seq::<Seq<char>>::empty(),
{
    reveal_with_fuel(Seq::<_>::filter, 2);
    let s = seq![x];
    assert(s.drop_last() =~= Seq::<Seq<char>>::empty());
    assert(s.last() == x);
    if pred(x) {
        assert(s.filter(pred) =~= seq![x]);
    } else {
        assert(s.filter(pred) =~= Seq::<Seq<char>>::empty());
    }
}

/// Everything the filter keeps was in the original sequence.
proof fn lemma_filter_in_original(s: Seq<Seq<char>>, pred: spec_fn(Seq<char>) -> bool, x: Seq<char>)
    requires
        s.filter(pred).contains(x),
    ensures
        s.contains(x),
    decreases s.len(),
{
    reveal_with_fuel(Seq::<_>::filter, 2);
    if s.len() == 0 {
    } else {
        let sub = s.drop_last().filter(pred);
        if pred(s.last()) {
            assert(s.filter(pred) == sub.push(s.last()));
            if x == s.last() {
                assert(s[s.len() - 1] == x);
            } else {
                let j = choose|j: int|
                    0 <= j < s.filter(pred).len() && s.filter(pred)[j] == x;
                assert(sub[j] == x);
                assert(sub.contains(x));
                lemma_filter_in_original(s.drop_last(), pred, x);
                let k = choose|k: int| 0 <= k < s.drop_last().len() && s.drop_last()[k] == x;
                assert(s[k] == x);
            }
        } else {
            assert(s.filter(pred) == sub);
            lemma_filter_in_original(s.drop_last(), pred, x);
            let k = choose|k: int| 0 <= k < s.drop_last().len() && s.drop_last()[k] == x;
            assert(s[k] == x);
        }
    }
}

/// An AND-set of permission tokens; `a` grants no more than `b` exactly when
/// `a@` is a subset of `b@`.
pub struct Scope {
    tokens: Vec<String>,
}

impl View for Scope {
    type V = Set<Seq<char>>;

    open spec fn view(&self) -> Set<Seq<char>> {
        self.token_seq().to_set()
    }
}

impl Scope {
    /// The tokens in the order they were parsed or assembled.
    pub closed spec fn token_seq(&self) -> Seq<Seq<char>> {
        self.tokens@.map_values(|t: String| t@)
    }

    /// Parse a space-separated scope string. Parsing fails exactly when some
    /// character is neither a token character nor a space.
    pub fn parse(s: &str) -> (r: Option<Scope>)
        ensures
            r is Some <==> scope_chars_ok(s@),
            r matches Some(sc) ==> sc@ == tokens_of(s@),
    {
        let len: usize = s.unicode_len();
        let mut toks: Vec<String> = Vec::new();
        let mut start: Option<usize> = None;
        let mut i: usize = 0;
        while i < len
            invariant
                len == s@.len(),
                i <= len,
                forall|k: int| 0 <= k < i ==> valid_scope_char(s@[k]) || s@[k] == ' ',
                match start {
                    Some(a) => a < i && (a == 0 || s@[a - 1] == ' ') && (forall|k: int|
                        a <= k < i ==> s@[k] != ' '),
                    None => i == 0 || s@[i - 1] == ' ',
                },
                toks@.map_values(|t: String| t@).to_set() =~= tokens_upto(s@, i as int),
            decreases len - i,
        {
            let c = s.get_char(i);
            let u = c as u32;
            if u == 32 {
                match start {
                    Some(a) => {
                        let t = s.substring_char(a, i).to_owned();
                        let ghost old_map = toks@.map_values(|q: String| q@);
                        toks.push(t);
                        proof {
                            assert(is_token_at(s@, a as int, i as int));
                            assert(toks@.map_values(|q: String| q@) =~= old_map.push(
                                s@.subrange(a as int, i as int),
                            ));
                            lemma_to_set_push(old_map, s@.subrange(a as int, i as int));
                            lemma_tokens_upto_push(s@, a as int, i as int);
                        }
                        start = None;
                    },
                    None => {
                        proof {
                            assert forall|a2: int| !is_token_at(s@, a2, i as int) by {
                                if is_token_at(s@, a2, i as int) {
                                    assert(s@[i - 1] != ' ');
                                }
                            }
                            lemma_tokens_upto_same(s@, i as int);
                        }
                    },
                }
            } else if 33 <= u && u <= 126 && c != '"' && c != '\\' {
                if start.is_none() {
                    start = Some(i);
                }
                proof {
                    assert forall|a2: int| !is_token_at(s@, a2, i as int) by {
                        if is_token_at(s@, a2, i as int) {
                            assert(s@[i as int] == ' ');
                        }
                    }
                    lemma_tokens_upto_same(s@, i as int);
                }
            } else {
                proof {
                    assert(!(valid_scope_char(s@[i as int]) || s@[i as int] == ' '));
                }
                return None;
            }
            i += 1;
        }
        match start {
            Some(a) => {
                let t = s.substring_char(a, len).to_owned();
                let ghost old_map = toks@.map_values(|q: String| q@);
                toks.push(t);
                let sc = Scope { tokens: toks };
                proof {
                    assert(is_token_at(s@, a as int, len as int));
                    assert(sc.token_seq() =~= old_map.push(s@.subrange(a as int, len as int)));
                    lemma_to_set_push(old_map, s@.subrange(a as int, len as int));
                    lemma_tokens_upto_push(s@, a as int, len as int);
                    lemma_tokens_upto_all(s@);
                    assert(sc@ =~= tokens_of(s@));
                }
                Some(sc)
            },
            None => {
                let sc = Scope { tokens: toks };
                proof {
                    assert forall|a2: int| !is_token_at(s@, a2, len as int) by {
                        if is_token_at(s@, a2, len as int) {
                            assert(s@[len - 1] != ' ');
                        }
                    }
                    lemma_tokens_upto_same(s@, len as int);
                    lemma_tokens_upto_all(s@);
                    assert(sc@ =~= tokens_of(s@));
                }
                Some(sc)
            },
        }
    }

    /// Whether every token of `self` is also a token of `other`: the scope
    /// subset partial order.
    pub fn subset_of(&self, other: &Scope) -> (r: bool)
        ensures
            r == self@.subset_of(other@),
    {
        let mut k: usize = 0;
        while k < self.tokens.len()
            invariant
                k <= self.tokens.len(),
                forall|j: int| 0 <= j < k ==> other@.contains(#[trigger] self.token_seq()[j]),
            decreases self.tokens.len() - k,
        {
            if !contains_token(&other.tokens, &self.tokens[k]) {
                proof {
                    assert(self.token_seq()[k as int] == self.tokens@[k as int]@);
                    assert(self@.contains(self.token_seq()[k as int]));
                    assert(!other.token_seq().contains(self.tokens@[k as int]@));
                }
                return false;
            }
            proof {
                assert(other.token_seq().contains(self.tokens@[k as int]@));
                assert(self.token_seq()[k as int] == self.tokens@[k as int]@);
            }
            k += 1;
        }
        proof {
            assert forall|t: Seq<char>| self@.contains(t) implies other@.contains(t) by {
                let j = choose|j: int| 0 <= j < self.token_seq().len() && self.token_seq()[j] == t;
                assert(other@.contains(self.token_seq()[j]));
            }
        }
        true
    }

    /// The tokens of `self` that `other` also holds, in the order of `self`.
    pub fn intersect(&self, other: &Scope) -> (r: Scope)
        ensures
            r.token_seq() == self.token_seq().filter(
                |t: Seq<char>| other.token_seq().contains(t),
            ),
            r@ == self@.intersect(other@),
    {
        let ghost pred = |t: Seq<char>| other.token_seq().contains(t);
        let mut toks: Vec<String> = Vec::new();
        let mut k: usize = 0;
        while k < self.tokens.len()
            invariant
                k <= self.tokens.len(),
                pred == (|t: Seq<char>| other.token_seq().contains(t)),
                toks@.map_values(|q: String| q@) =~= self.token_seq().take(k as int).filter(pred),
            decreases self.tokens.len() - k,
        {
            let ghost pre = self.token_seq().take(k as int);
            let ghost post = self.token_seq().take(k as int + 1);
            proof {
                assert(post =~= pre + seq![self.token_seq()[k as int]]);
                Seq::filter_distributes_over_add(pre, seq![self.token_seq()[k as int]], pred);
                lemma_filter_singleton(self.token_seq()[k as int], pred);
            }
            if contains_token(&other.tokens, &self.tokens[k]) {
                let ghost old_map = toks@.map_values(|q: String| q@);
                toks.push(self.tokens[k].clone());
                proof {
                    assert(toks@.map_values(|q: String| q@) =~= old_map.push(
                        self.token_seq()[k as int],
                    ));
                    assert(toks@.map_values(|q: String| q@) =~= post.filter(pred));
                }
            } else {
                proof {
                    assert(toks@.map_values(|q: String| q@) =~= post.filter(pred));
                }
            }
            k += 1;
        }
        let r = Scope { tokens: toks };
        proof {
            broadcast use vstd::seq_lib::group_filter_ensures;

            assert(self.token_seq().take(self.tokens@.len() as int) =~= self.token_seq());
            let fs = self.token_seq().filter(pred);
            assert(r.token_seq() == fs);
            assert forall|t: Seq<char>| r@.contains(t) implies self@.intersect(other@).contains(
                t,
            ) by {
                let j = choose|j: int| 0 <= j < fs.len() && fs[j] == t;
                assert(pred(fs[j]));
                lemma_filter_in_original(self.token_seq(), pred, t);
            }
            assert forall|t: Seq<char>| self@.intersect(other@).contains(t) implies r@.contains(
                t,
            ) by {
                let j = choose|j: int|
                    0 <= j < self.token_seq().len() && self.token_seq()[j] == t;
                assert(pred(self.token_seq()[j]));
                assert(fs.contains(self.token_seq()[j]));
            }
            assert(r@ =~= self@.intersect(other@));
        }
        r
    }

    /// An owned copy.
    pub fn duplicate(&self) -> (r: Scope)
        ensures
            r.token_seq() == self.token_seq(),
            r@ == self@,
    {
        let mut toks: Vec<String> = Vec::new();
        let mut k: usize = 0;
        while k < self.tokens.len()
            invariant
                k <= self.tokens.len(),
                toks@ =~= self.tokens@.take(k as int),
            decreases self.tokens.len() - k,
        {
            toks.push(self.tokens[k].clone());
            k += 1;
        }
        proof {
            assert(toks@ =~= self.tokens@);
        }
        let r = Scope { tokens: toks };
        proof {
            assert(r.token_seq() =~= self.token_seq());
        }
        r
    }

    /// The tokens joined by single spaces, in their stored order.
    pub fn as_string(&self) -> (r: String)
        ensures
            r@ == join_tokens(self.token_seq()),
    {
        let mut out = String::new();
        let mut k: usize = 0;
        while k < self.tokens.len()
            invariant
                k <= self.tokens.len(),
                out@ == join_tokens(self.token_seq().take(k as int)),
            decreases self.tokens.len() - k,
        {
            if k > 0 {
                out.append(" ");
                proof {
                    reveal_strlit(" ");
                }
            }
            out.append(self.tokens[k].as_str());
            proof {
                let pre = self.token_seq().take(k as int);
                let post = self.token_seq().take(k as int + 1);
                assert(post.drop_last() =~= pre);
                assert(post.last() == self.token_seq()[k as int]);
                if k > 0 {
                    assert(" "@ =~= seq![' ']);
                    assert(out@ =~= join_tokens(post));
                } else {
                    assert(out@ =~= join_tokens(post));
                }
            }
            k += 1;
        }
        proof {
            assert(self.token_seq().take(self.tokens@.len() as int) =~= self.token_seq());
        }
        out
    }
}

/// The tokens joined by single spaces.
pub open spec fn join_tokens(ts: Seq<Seq<char>>) -> Seq<char>
    decreases ts.len(),
{
    if ts.len() == 0 {
        Seq::empty()
    } else if ts.len() == 1 {
        ts[0]
    } else {
        join_tokens(ts.drop_last()) + seq![' '] + ts.last()
    }
}

fn contains_token(v: &Vec<String>, t: &String) -> (r: bool)
    ensures
        r == v@.map_values(|q: String| q@).contains(t@),
{
    let mut k: usize = 0;
    while k < v.len()
        invariant
            k <= v@.len(),
            forall|j: int| 0 <= j < k ==> (#[trigger] v@[j])@ != t@,
        decreases v@.len() - k,
    {
        if v[k].eq(t) {
            proof {
                assert(v@.map_values(|q: String| q@)[k as int] == t@);
            }
            return true;
        }
        k += 1;
    }
    proof {
        let m = v@.map_values(|q: String| q@);
        assert(!m.contains(t@)) by {
            if m.contains(t@) {
                let j = choose|j: int| 0 <= j < m.len() && m[j] == t@;
                assert(v@[j]@ != t@);
            }
        }
    }
    false
}

} // verus!
