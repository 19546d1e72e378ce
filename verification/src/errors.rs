use vstd::prelude::*;

verus! {

/// An error returned when a stored resource cannot be handed out.
///
/// Both kinds are reported synchronously as the direct result of the failed
/// operation; nothing is retried or logged internally.
#[derive(Debug, Copy, Clone, Eq, PartialEq, Structural)]
pub enum AccessError {
    /// There is no resource of the requested type in the store.
    NoSuchResource,
    /// The requested resource is already borrowed in a conflicting way.
    AlreadyBorrowed,
}

impl AccessError {
    /// A human-readable description of the error.
    pub fn message(&self) -> (s: String)
        ensures
            *self is NoSuchResource ==> s@ == "There is no resource of the requested type."@,
            *self is AlreadyBorrowed ==> s@ == "The requested resource is already borrowed."@,
    {
        match self {
            AccessError::NoSuchResource => "There is no resource of the requested type.".to_owned(),
            AccessError::AlreadyBorrowed => "The requested resource is already borrowed.".to_owned(),
        }
    }
}

} // verus!
