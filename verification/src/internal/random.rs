//! Random names.

use vstd::prelude::*;
use vstd::string::*;
use crate::password::is_password;

verus! {

/// A name for a new user: the prefix, then `length` random letters and
/// digits.
pub fn generate_username(prefix: &str, length: usize) -> (username: String)
    ensures
        exists|random_part: Seq<char>|
            is_password(random_part, length as nat) && username@ == prefix@ + random_part,
{
    let random_part = crate::password::generate_random_password(length);
    let mut username = String::from_str(prefix);
    username.append(random_part.as_str());
    username
}

} // verus!
