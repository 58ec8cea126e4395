//! The random text that ties a redirect to the request that led to it.

use vstd::prelude::*;

verus! {

/// Whether a character is an ASCII letter or digit.
pub open spec fn is_alphanumeric(c: char) -> bool {
    let n = c as u32;
    ||| 0x30 <= n <= 0x39
    ||| 0x41 <= n <= 0x5A
    ||| 0x61 <= n <= 0x7A
}

/// Whether a text has `length` characters, each an ASCII letter or digit.
pub open spec fn is_alphanumeric_text(text: Seq<char>, length: nat) -> bool {
    &&& text.len() == length
    &&& forall|i: int| 0 <= i < text.len() ==> is_alphanumeric(#[trigger] text[i])
}

/// `Rng::sample` of the distribution `Alphanumeric`, on the generator of
/// `thread_rng`: one character drawn from the ASCII letters and digits.
///
/// Nothing is said of which character it is. `thread_rng` panics where the
/// system gives it no seed.
#[verifier::external_body]
fn random_alphanumeric() -> (c: char)
    ensures
        is_alphanumeric(c),
{
    rand::Rng::sample(&mut rand::thread_rng(), rand::distributions::Alphanumeric)
}

/// A random text of `length` characters, each an ASCII letter or digit.
pub fn generate_random_string(length: usize) -> (text: String)
    ensures
        is_alphanumeric_text(text@, length as nat),
{
    let mut text = String::new();
    let mut i: usize = 0;
    while i < length
        invariant
            i <= length,
            is_alphanumeric_text(text@, i as nat),
        decreases length - i,
    {
        text.push(random_alphanumeric());
        i += 1;
    }
    text
}

} // verus!
