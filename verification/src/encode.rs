//! Renderings at the edge of the library: decimal numbers, string equality
//! through std, and JSON objects through serde_json.
use vstd::prelude::*;

verus! {

/// The decimal digits of `n`, most significant first.
pub open spec fn dec_digits(n: nat) -> Seq<char>
    decreases n,
{
    if n < 10 {
        seq![digit_char(n)]
    } else {
        dec_digits(n / 10).push(digit_char(n % 10))
    }
}

/// The character for one decimal digit.
pub open spec fn digit_char(d: nat) -> char {
    if d == 0 {
        '0'
    } else if d == 1 {
        '1'
    } else if d == 2 {
        '2'
    } else if d == 3 {
        '3'
    } else if d == 4 {
        '4'
    } else if d == 5 {
        '5'
    } else if d == 6 {
        '6'
    } else if d == 7 {
        '7'
    } else if d == 8 {
        '8'
    } else {
        '9'
    }
}

/// The decimal rendering of a signed value: the digits, with a leading minus
/// sign when negative.
pub open spec fn dec_int(v: int) -> Seq<char> {
    if v < 0 {
        seq!['-'] + dec_digits((-v) as nat)
    } else {
        dec_digits(v as nat)
    }
}

/// Relies on u64's `Display` implementation: the plain decimal digit string.
#[verifier::external_body]
pub(crate) fn u64_to_string(v: u64) -> (r: String)
    ensures
        r@ == dec_digits(v as nat),
{
    v.to_string()
}

/// Relies on i64's `Display` implementation: the decimal digit string, with
/// a leading minus sign for negative values.
#[verifier::external_body]
pub(crate) fn i64_to_string(v: i64) -> (r: String)
    ensures
        r@ == dec_int(v as int),
{
    v.to_string()
}

/// Whether two strings hold the same characters.
pub fn str_eq(a: &str, b: &str) -> (r: bool)
    ensures
        r == (a@ == b@),
{
    let alen = a.unicode_len();
    let blen = b.unicode_len();
    if alen != blen {
        return false;
    }
    let mut i: usize = 0;
    while i < alen
        invariant
            alen == a@.len(),
            alen == b@.len(),
            i <= alen,
            forall|j: int| 0 <= j < i ==> a@[j] == b@[j],
        decreases alen - i,
    {
        if a.get_char(i) != b.get_char(i) {
            return false;
        }
        i += 1;
    }
    proof {
        assert(a@ =~= b@);
    }
    true
}

/// What serde_json's serializer prints for a flat string-to-string object
/// with the given entries.
pub uninterp spec fn json_object(entries: Map<Seq<char>, Seq<char>>) -> Seq<char>;

/// An entry list as a map, later pairs winning a repeated key.
pub open spec fn pairs_map(pairs: Seq<(Seq<char>, Seq<char>)>) -> Map<Seq<char>, Seq<char>>
    decreases pairs.len(),
{
    if pairs.len() == 0 {
        Map::empty()
    } else {
        pairs_map(pairs.drop_last()).insert(pairs.last().0, pairs.last().1)
    }
}

/// An entry list of strings as plain values.
pub open spec fn pairs_view(pairs: Seq<(String, String)>) -> Seq<(Seq<char>, Seq<char>)> {
    pairs.map_values(|p: (String, String)| (p.0@, p.1@))
}

/// Relies on serde_json::to_string over a `BTreeMap<&str, &str>`: a JSON
/// object holding exactly the given entries. Such a map always serializes,
/// so the call cannot fail.
#[verifier::external_body]
pub(crate) fn json_string_of_pairs(pairs: &Vec<(String, String)>) -> (r: String)
    ensures
        r@ == json_object(pairs_map(pairs_view(pairs@))),
{
    let map: std::collections::BTreeMap<&str, &str> = pairs.iter().map(
        |p| (p.0.as_str(), p.1.as_str()),
    ).collect();
    serde_json::to_string(&map).unwrap()
}

} // verus!
