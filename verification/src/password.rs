//! New passwords: random, and made of letters and digits only, so that they
//! can stand in a statement or a URL as they are.

use vstd::prelude::*;
use vstd::string::*;
use rand::rngs::ThreadRng;

verus! {

/// The generator of the current thread, seeded by the operating system.
#[verifier::external_type_specification]
#[verifier::external_body]
pub struct ExThreadRng(ThreadRng);

/// An ASCII letter or digit.
pub open spec fn is_alphanumeric(c: char) -> bool {
    ||| '0' <= c <= '9'
    ||| 'A' <= c <= 'Z'
    ||| 'a' <= c <= 'z'
}

/// A text of letters and digits only.
pub open spec fn is_alphanumeric_text(text: Seq<char>) -> bool {
    forall|i: int| 0 <= i < text.len() ==> is_alphanumeric(#[trigger] text[i])
}

/// A text that may serve as a generated password of the given length.
pub open spec fn is_password(text: Seq<char>, length: nat) -> bool {
    text.len() == length && is_alphanumeric_text(text)
}

/// `rand::rng`: a handle to the generator of the current thread.
#[verifier::external_body]
fn thread_rng() -> ThreadRng {
    rand::rng()
}

/// `Rng::sample` with `rand::distr::Alphanumeric`: one byte drawn from the
/// sixty-two ASCII letters and digits.
#[verifier::external_body]
fn sample_alphanumeric(rng: &mut ThreadRng) -> (byte: u8)
    ensures
        is_alphanumeric(byte as char),
{
    rand::Rng::sample(rng, rand::distr::Alphanumeric)
}

/// A random password of `length` letters and digits.
pub fn generate_random_password(length: usize) -> (password: String)
    ensures
        is_password(password@, length as nat),
{
    let mut rng = thread_rng();
    let mut password = String::new();
    let mut drawn: usize = 0;
    while drawn < length
        invariant
            drawn <= length,
            is_password(password@, drawn as nat),
        decreases length - drawn,
    {
        let byte = sample_alphanumeric(&mut rng);
        password.push(byte as char);
        drawn = drawn + 1;
    }
    password
}

} // verus!
