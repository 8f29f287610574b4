use vstd::prelude::*;

verus! {

/// The failures the core itself can detect. Store and transport failures
/// happen outside the library and are reported by the surrounding code.
#[derive(Clone, Copy, PartialEq, Eq, Structural, Debug)]
pub enum Error {
    /// A submission form had the wrong shape (wrong field count).
    Validation,
    /// A stored poll status row could not be decoded.
    InvalidStatus,
    /// A poll id occurred twice while building the cache.
    DuplicatePollId,
}

impl Error {
    /// The log/diagnostic line for each error.
    pub open spec fn spec_message(&self) -> Seq<char> {
        match self {
            Error::Validation => "invalid form structure"@,
            Error::InvalidStatus => "invalid poll status"@,
            Error::DuplicatePollId => "duplicate poll id"@,
        }
    }

    /// Renders the diagnostic message for this error.
    pub fn message(&self) -> (r: String)
        ensures
            r@ == self.spec_message(),
    {
        match self {
            Error::Validation => "invalid form structure".to_owned(),
            Error::InvalidStatus => "invalid poll status".to_owned(),
            Error::DuplicatePollId => "duplicate poll id".to_owned(),
        }
    }
}

} // verus!
