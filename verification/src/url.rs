//! The address of a profile page, built from a user-supplied identifier.

use vstd::prelude::*;
use vstd::string::StringExecFns;

verus! {

/// The fixed prefix of every profile page's address.
pub open spec fn url_prefix() -> Seq<char> {
    "https://www.ecs.soton.ac.uk/people/"@
}

/// The address of the profile page for an identifier: the fixed prefix with
/// the identifier appended exactly as supplied — no trimming, no validation,
/// no escaping.
pub fn profile_url(identifier: &str) -> (r: String)
    ensures
        r@ == url_prefix() + identifier@,
{
    "https://www.ecs.soton.ac.uk/people/".to_owned().concat(identifier)
}

} // verus!
