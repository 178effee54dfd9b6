//! The two capabilities the core consumes but does not own: URL validation,
//! done by the `url` crate, and random slug tokens, drawn with the `rand`
//! crate. The items marked `external_body` and the `assume_specification`
//! are trusted: their contracts are stated, not proved.

use vstd::prelude::*;
use crate::model::Slug;

verus! {

/// Whether the `url` crate parses `text` as an absolute URL. The parser is
/// a function of the text alone; what it accepts is not restated here.
pub uninterp spec fn valid_absolute_url(text: Seq<char>) -> bool;

/// Trusted: calls `url::Url::parse` on `text` and reports whether it
/// returned `Ok`. The contract only gives that answer its name.
#[verifier::external_body]
pub(crate) fn is_valid_absolute_url(text: &str) -> (valid: bool)
    ensures
        valid == valid_absolute_url(text@),
{
    url::Url::parse(text).is_ok()
}

/// The ASCII letters and digits.
pub open spec fn is_ascii_alphanumeric(c: char) -> bool {
    ||| '0' <= c <= '9'
    ||| 'A' <= c <= 'Z'
    ||| 'a' <= c <= 'z'
}

/// Trusted: draws one value from `rand::distributions::Alphanumeric` with
/// the thread-local generator (`rand::thread_rng`, `rand::Rng::sample`).
/// The distribution only ever yields an ASCII letter or digit; which one
/// is left open, so two calls may differ. The generator is seeded from the
/// operating system on its first use in a thread, and `rand` panics there
/// if the system cannot supply a seed.
#[verifier::external_body]
fn random_alphanumeric() -> (byte: u8)
    ensures
        is_ascii_alphanumeric(byte as char),
{
    rand::Rng::sample(&mut rand::thread_rng(), rand::distributions::Alphanumeric)
}

/// Trusted: `String::push` appends the given character to the end of the
/// string.
pub assume_specification[ String::push ](text: &mut String, ch: char)
    ensures
        final(text)@ == old(text)@.push(ch),
;

/// The number of characters of a generated slug.
pub const SLUG_LENGTH: usize = 7;

/// The shape of every generated slug: seven ASCII letters or digits.
pub open spec fn is_generated_slug(text: Seq<char>) -> bool {
    &&& text.len() == SLUG_LENGTH
    &&& forall|i: int| 0 <= i < text.len() ==> is_ascii_alphanumeric(#[trigger] text[i])
}

/// A fresh random slug. Nothing is promised about which token comes out,
/// only its shape; in particular it may collide with a registered slug.
pub fn generate_slug() -> (slug: Slug)
    ensures
        is_generated_slug(slug@),
{
    let mut text = String::new();
    let mut drawn: usize = 0;
    while drawn < SLUG_LENGTH
        invariant
            drawn <= SLUG_LENGTH,
            text@.len() == drawn,
            forall|i: int| 0 <= i < text@.len() ==> is_ascii_alphanumeric(#[trigger] text@[i]),
        decreases SLUG_LENGTH - drawn,
    {
        let byte = random_alphanumeric();
        text.push(byte as char);
        drawn = drawn + 1;
    }
    Slug(text)
}

} // verus!
