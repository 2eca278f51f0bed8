use vstd::prelude::*;

verus! {

/// The percent-encoding of a text under the component encode set; a pure function
/// of the characters, left uninterpreted.
pub uninterp spec fn url_encoded(s: Seq<char>) -> Seq<char>;

/// Relies on url_escape::encode_component: percent-encodes the component encode set
/// (space, `&`, `/`, `?` and the rest), exactly as JavaScript's encodeURIComponent;
/// the result depends on the characters alone.
#[verifier::external_body]
pub(crate) fn encode_component(s: &str) -> (r: String)
    ensures
        r@ == url_encoded(s@),
{
    url_escape::encode_component(s).into_owned()
}

} // verus!
