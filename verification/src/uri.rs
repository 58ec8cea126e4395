//! Addresses, read and written by the `url` crate.
//!
//! Everything in this file is believed, not proved: it says what the library
//! takes `url` to do.

use vstd::prelude::*;

use crate::auth::SPOTIFY_AUTH_URL;

verus! {

/// `url::Url`: a parsed absolute address.
#[verifier::external_type_specification]
#[verifier::external_body]
pub struct ExUrl(url::Url);

/// `url::ParseError`: why a text is no absolute address.
#[verifier::external_type_specification]
#[verifier::external_body]
pub struct ExParseError(url::ParseError);

/// The text that an address holds: its serialisation, as `Url::as_str` gives it.
pub uninterp spec fn url_text(url: url::Url) -> Seq<char>;

/// What `Url::parse` makes of a text: the serialisation of the address that it
/// reads, or nothing where it refuses the text.
pub uninterp spec fn parsed_text(raw: Seq<char>) -> Option<Seq<char>>;

/// The name/value pairs that `Url::query_pairs` reads, in their order, from the
/// query of an address with the given serialisation.
pub uninterp spec fn query_of_text(text: Seq<char>) -> Seq<(Seq<char>, Seq<char>)>;

/// What `Url::parse_with_params` makes of a text and a list of pairs: the
/// serialisation of the address with the pairs added to its query, or nothing where
/// it refuses the text.
pub uninterp spec fn text_with_params(
    base: Seq<char>,
    params: Seq<(Seq<char>, Seq<char>)>,
) -> Option<Seq<char>>;

/// `Url::parse`. It returns an address exactly where [`parsed_text`] names one,
/// and that address then holds the named text.
pub assume_specification[ url::Url::parse ](input: &str) -> (parsed: Result<url::Url, url::ParseError>)
    ensures
        match parsed_text(input@) {
            Some(text) => parsed is Ok && url_text(parsed->Ok_0) == text,
            None => parsed is Err,
        },
;

/// `Url::as_str`. It returns the text that the address holds.
pub assume_specification[ url::Url::as_str ](url: &url::Url) -> (text: &str)
    ensures
        text@ == url_text(*url),
;

/// `Url::query_pairs`, each pair of the iterator made owned and collected. The
/// pairs depend on the address's text alone, and come in the order of the query.
#[verifier::external_body]
pub(crate) fn query_pairs(url: &url::Url) -> (pairs: Vec<(String, String)>)
    ensures
        pairs.deep_view() == query_of_text(url_text(*url)),
{
    url.query_pairs().into_owned().collect()
}

/// `Url::parse_with_params`. It returns an address exactly where
/// [`text_with_params`] names one, and that address then holds the named text.
///
/// `url` keeps 32-bit offsets into an address and panics where a fragment or a
/// first query would start behind them. The call is therefore asked only of the
/// authorize endpoint, a short text without query and fragment: the pairs are then
/// appended to the end of the text, and no offset is taken after them.
#[verifier::external_body]
pub(crate) fn url_with_params(
    base: &str,
    params: &Vec<(String, String)>,
) -> (built: Result<url::Url, url::ParseError>)
    requires
        base@ == SPOTIFY_AUTH_URL@,
    ensures
        match text_with_params(base@, params.deep_view()) {
            Some(text) => built is Ok && url_text(built->Ok_0) == text,
            None => built is Err,
        },
{
    url::Url::parse_with_params(base, params)
}

} // verus!
