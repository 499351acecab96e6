//! The obfuscation classifier.
//!
//! A comment text is considered obfuscated when it changes under Unicode
//! compatibility decomposition (NFKD): compatibility variants such as
//! fullwidth Latin letters decompose to their plain forms, so any
//! difference between a text and its decomposed form signals that a
//! non-canonical visual variant was used. The check is a heuristic: it
//! does not catch zero-width characters or lookalike characters whose
//! NFKD decomposition is the character itself (many Cyrillic and Greek
//! homoglyphs), and that limitation is deliberate.

use unicode_normalization::UnicodeNormalization;
use vstd::prelude::*;

verus! {

broadcast use vstd::string::to_string_from_display_ensures_for_str;

/// The NFKD normal form of a character sequence. The normal form is a
/// pure function of the characters, defined by the Unicode standard; it
/// is left uninterpreted here and is characterised only through the
/// contract of the trusted call into the normalization library.
pub uninterp spec fn nfkd_of(s: Seq<char>) -> Seq<char>;

/// Whether all characters of a sequence are ASCII.
pub open spec fn all_ascii(s: Seq<char>) -> bool {
    forall|i: int| 0 <= i < s.len() ==> (s[i] as u32) < 128
}

/// Whether a text is considered obfuscated: it differs from its own
/// NFKD normal form.
pub open spec fn spec_obfuscated(s: Seq<char>) -> bool {
    s != nfkd_of(s)
}

/// Relies on unicode_normalization's `nfkd()`: collecting the iterator
/// yields the NFKD normal form of the input, which depends on the
/// characters alone. The Unicode standard further promises that
/// normalization is idempotent (the normal form is itself normalized)
/// and that ASCII text is left unchanged by every normalization form.
#[verifier::external_body]
fn nfkd_normal_form(content: &str) -> (r: String)
    ensures
        r@ == nfkd_of(content@),
        nfkd_of(r@) == r@,
        all_ascii(content@) ==> r@ == content@,
{
    content.nfkd().collect::<String>()
}

/// The NFKD normal form of a text, as a verified entry point.
///
/// The result is itself normalized, so classifying it again reports
/// clean: normalization is idempotent.
pub fn normalize(content: &str) -> (r: String)
    ensures
        r@ == nfkd_of(content@),
        nfkd_of(r@) == r@,
        !spec_obfuscated(r@),
{
    nfkd_normal_form(content)
}

/// Whether the text uses visually deceptive compatibility variants:
/// true exactly when the text differs from its NFKD normal form.
///
/// ASCII-only text is never flagged, the empty string is never flagged,
/// and a text already in normal form is never flagged; classifying the
/// normal form of any text (flagged or not) reports clean, since the
/// normal form of the normal form is the normal form itself.
pub fn contains_unicode_abuse(content: &str) -> (r: bool)
    ensures
        r == spec_obfuscated(content@),
        all_ascii(content@) ==> !r,
        content@ == nfkd_of(content@) ==> !r,
        content@.len() == 0 ==> !r,
        nfkd_of(nfkd_of(content@)) == nfkd_of(content@),
{
    let normalized = nfkd_normal_form(content);
    let original = content.to_string();
    original != normalized
}

/// A text equal to its own NFKD normal form is never classified as
/// obfuscated; in particular, text made only of characters that
/// normalization leaves in place (plain Latin, CJK ideographs, common
/// punctuation) is clean.
pub proof fn lemma_normalized_text_is_clean(s: Seq<char>)
    requires
        s == nfkd_of(s),
    ensures
        !spec_obfuscated(s),
{
}

} // verus!
