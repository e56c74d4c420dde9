use vstd::prelude::*;

verus! {

/// Why the identity program refused a profile.
#[derive(Clone, Copy, PartialEq, Eq, Structural, Debug)]
pub enum IdentityError {
    /// The profile's name has more characters than allowed.
    ProfileNameCharLengthExceeded,
    /// The profile's details URI has more characters than allowed.
    URICharLengthExceeded,
}

} // verus!
