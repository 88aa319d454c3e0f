//! What the address bar's text means once it is submitted.
//!
//! The text is read in one of three ways, tried in this order: as a full
//! URL, as a search query, as a bare domain. Every text falls under exactly
//! one of them, so submitting never fails.

use vstd::prelude::*;
use vstd::string::StringExecFns;
use crate::text::contains_char;
use crate::text::contains_scheme_separator;
use crate::text::contains_whitespace;
use crate::text::has_scheme_separator;
use crate::text::has_whitespace;

verus! {

/// The three readings of a submitted text.
#[derive(Clone, Copy, PartialEq, Eq, Structural, Debug)]
pub enum AddressKind {
    /// The text holds `://` and is loaded as it stands.
    FullUrl,
    /// The text holds no `.` or holds white space, and is searched for.
    SearchQuery,
    /// Anything else is taken for a host name.
    BareDomain,
}

/// The reading of the submitted text `input`.
pub open spec fn address_kind(input: Seq<char>) -> AddressKind {
    if has_scheme_separator(input) {
        AddressKind::FullUrl
    } else if !input.contains('.') || has_whitespace(input) {
        AddressKind::SearchQuery
    } else {
        AddressKind::BareDomain
    }
}

/// The scheme put in front of a bare domain.
pub open spec fn secure_scheme() -> Seq<char> {
    "https://"@
}

/// The URL that submitting `input` loads, with `search_engine_url` as the
/// query prefix of the current search engine.
pub open spec fn address_target(input: Seq<char>, search_engine_url: Seq<char>) -> Seq<char> {
    match address_kind(input) {
        AddressKind::FullUrl => input,
        AddressKind::SearchQuery => search_engine_url + input,
        AddressKind::BareDomain => secure_scheme() + input,
    }
}

/// Classifies a submitted text.
pub fn classify_address(input: &str) -> (kind: AddressKind)
    ensures
        kind == address_kind(input@),
{
    if contains_scheme_separator(input) {
        AddressKind::FullUrl
    } else if !contains_char(input, '.') || contains_whitespace(input) {
        AddressKind::SearchQuery
    } else {
        AddressKind::BareDomain
    }
}

/// The URL to load for a submitted text.
pub fn resolve_address(input: &str, search_engine_url: &str) -> (target: String)
    ensures
        target@ == address_target(input@, search_engine_url@),
{
    match classify_address(input) {
        AddressKind::FullUrl => String::from_str(input),
        AddressKind::SearchQuery => String::from_str(search_engine_url).concat(input),
        AddressKind::BareDomain => String::from_str("https://").concat(input),
    }
}

/// A text without `://` and without a `.` is a search query, never a bare
/// domain, and what is loaded for a query is the engine's prefix followed
/// by the text.
pub proof fn law_dotless_text_is_searched(input: Seq<char>, search_engine_url: Seq<char>)
    requires
        !has_scheme_separator(input),
        !input.contains('.'),
    ensures
        address_kind(input) == AddressKind::SearchQuery,
        address_target(input, search_engine_url) == search_engine_url + input,
{
}

/// Every submitted text ends in the target that is loaded: a full URL is
/// the target itself, and the other two readings put a prefix in front of
/// the text and change nothing in it.
pub proof fn law_target_ends_with_input(input: Seq<char>, search_engine_url: Seq<char>)
    ensures
        ({
            let target = address_target(input, search_engine_url);
            &&& target.len() >= input.len()
            &&& target.skip(target.len() - input.len()) == input
        }),
{
    let target = address_target(input, search_engine_url);
    assert(target.skip(target.len() - input.len()) =~= input);
}

} // verus!
