//! The two calls that leave this crate: formatting an identifier and testing
//! a language tag. Their contracts are believed, not proved.

use vstd::prelude::*;

verus! {

/// The text that the `uuid` crate gives for the identifier whose 128 bits,
/// most significant byte first, are `id`.
pub uninterp spec fn uuid_text(id: u128) -> Seq<char>;

/// Whether the `language_tags` crate reads `tag` as a well-formed language
/// tag.
pub uninterp spec fn is_language_tag(tag: Seq<char>) -> bool;

/// Calls `Uuid::from_u128` and then the `to_string` that `Uuid` has from its
/// `Display` impl. The contract only names the text: it is the same for the
/// same 128 bits.
#[verifier::external_body]
pub(crate) fn format_uuid(id: u128) -> (text: String)
    ensures
        text@ == uuid_text(id),
{
    uuid::Uuid::from_u128(id).to_string()
}

/// Calls `LanguageTag::parse` and reports whether it returned `Ok`. The
/// contract only names the answer: it depends on the text alone.
#[verifier::external_body]
pub(crate) fn parses_as_language_tag(tag: &str) -> (ok: bool)
    ensures
        ok == is_language_tag(tag@),
{
    language_tags::LanguageTag::parse(tag).is_ok()
}

} // verus!
