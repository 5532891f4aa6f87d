use vstd::prelude::*;

verus! {

/// The lowercase form of a text, as `str::to_lowercase` gives it.
pub uninterp spec fn lower_of(s: Seq<char>) -> Seq<char>;

/// The SHA-256 digest of the UTF-8 encoding of a text.
pub uninterp spec fn sha256_of_text(s: Seq<char>) -> Seq<u8>;

/// Relies on `str::to_lowercase`: the result depends on the characters alone,
/// and an empty text stays empty.
#[verifier::external_body]
pub(crate) fn lowercase(s: &str) -> (r: String)
    ensures
        r@ == lower_of(s@),
        s@.len() == 0 ==> r@.len() == 0,
{
    s.to_lowercase()
}

/// Relies on `anchor_lang::solana_program::hash::hash`: the SHA-256 digest of
/// the text's UTF-8 bytes, 32 bytes long.
#[verifier::external_body]
pub(crate) fn sha256_text(s: &str) -> (r: [u8; 32])
    ensures
        r@ == sha256_of_text(s@),
{
    anchor_lang::solana_program::hash::hash(s.as_bytes()).to_bytes()
}

} // verus!
