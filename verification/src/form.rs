//! Query strings and form bodies: lists of names with their values, written
//! in the `application/x-www-form-urlencoded` form.

use vstd::prelude::*;

verus! {

/// The names and values of `pairs`, each as a sequence of characters.
pub open spec fn pairs_view(pairs: Seq<(String, String)>) -> Seq<(Seq<char>, Seq<char>)> {
    Seq::new(pairs.len(), |i: int| (pairs[i].0@, pairs[i].1@))
}

/// What `serde_urlencoded::to_string` writes for a list of names and values.
pub uninterp spec fn form_urlencoded(pairs: Seq<(Seq<char>, Seq<char>)>) -> Seq<char>;

/// Calls `serde_urlencoded::to_string` on the list. For a list of pairs of
/// strings the serializer has nothing to refuse: it writes each pair in turn,
/// name and value percent-encoded, with `=` between them and `&` between
/// pairs. The contract names that text and says no more of it.
#[verifier::external_body]
pub(crate) fn urlencode(pairs: &Vec<(String, String)>) -> (r: String)
    ensures
        r@ == form_urlencoded(pairs_view(pairs@)),
{
    serde_urlencoded::to_string(pairs).unwrap()
}

} // verus!
