use vstd::prelude::*;

verus! {

/// Why the profile program refused a profile.
#[derive(Clone, Copy, PartialEq, Eq, Structural, Debug)]
pub enum ProfileError {
    /// The profile's alias (its name) has more characters than allowed.
    AliasCharLengthExceeded,
    /// The profile's details URI has more characters than allowed.
    URICharLengthExceeded,
}

impl ProfileError {
    /// The message that the program reports with the error.
    pub fn message(&self) -> (m: &'static str)
        ensures
            m@ == (match *self {
                ProfileError::AliasCharLengthExceeded => "Alias character length exceeded"@,
                ProfileError::URICharLengthExceeded => "URI character length exceeded"@,
            }),
    {
        match self {
            ProfileError::AliasCharLengthExceeded => "Alias character length exceeded",
            ProfileError::URICharLengthExceeded => "URI character length exceeded",
        }
    }
}

} // verus!
