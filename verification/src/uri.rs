//! What this library takes on trust from hyper's `Uri`.

use std::str::FromStr;
use vstd::prelude::*;

verus! {

/// hyper's `Uri`: a request target, parsed. Opaque here; [`uri_text`] names
/// the text it holds.
#[verifier::external_type_specification]
#[verifier::external_body]
pub struct ExUri(hyper::Uri);

/// The text that a `Uri` holds: the string that its `as_ref` hands out, and
/// the one it is compared by.
pub uninterp spec fn uri_text(uri: hyper::Uri) -> Seq<char>;

/// `s` reads `scheme://authority/rest`, where the scheme holds neither `:` nor
/// `/`, and the authority is not empty and holds none of `/ ? # [ ]`.
pub open spec fn splits_as(
    s: Seq<char>,
    scheme: Seq<char>,
    authority: Seq<char>,
    rest: Seq<char>,
) -> bool {
    &&& s == scheme + seq![':', '/', '/'] + authority + seq!['/'] + rest
    &&& forall|i: int| 0 <= i < scheme.len() ==> scheme[i] != ':' && scheme[i] != '/'
    &&& authority.len() > 0
    &&& forall|i: int|
        0 <= i < authority.len() ==> {
            let c = #[trigger] authority[i];
            c != '/' && c != '?' && c != '#' && c != '[' && c != ']'
        }
}

/// `s` is a URL in absolute form with a path: it can be read as
/// `scheme://authority/rest` in the sense of [`splits_as`].
pub open spec fn is_absolute_form(s: Seq<char>) -> bool {
    exists|scheme: Seq<char>, authority: Seq<char>, rest: Seq<char>|
        splits_as(s, scheme, authority, rest)
}

/// Parses `s` with hyper's `Uri::from_str`, giving `None` where hyper reports
/// an error.
///
/// Trusted, from hyper's parser: a text in absolute form with a path is
/// accepted as it stands, whatever follows the authority, and the `Uri` holds
/// it unchanged. Nothing is claimed of any other text.
#[verifier::external_body]
pub(crate) fn parse_uri(s: &str) -> (r: Option<hyper::Uri>)
    ensures
        is_absolute_form(s@) ==> r is Some && uri_text(r->0) == s@,
{
    hyper::Uri::from_str(s).ok()
}

} // verus!
