use vstd::prelude::*;

verus! {

/// The failure kinds of the library. Loading the country database can fail
/// at construction; the counter store can fail on a write or on a read.
/// Each failure carries a human-readable description of the underlying
/// cause.
#[derive(Debug)]
pub enum LocatError {
    ResolverInit(String),
    StoreWrite(String),
    StoreRead(String),
}

impl LocatError {
    /// The description carried by the error.
    pub closed spec fn text(self) -> Seq<char> {
        match self {
            LocatError::ResolverInit(m) => m@,
            LocatError::StoreWrite(m) => m@,
            LocatError::StoreRead(m) => m@,
        }
    }

    /// Returns the description carried by the error.
    pub fn message(&self) -> (r: &str)
        ensures
            r@ == self.text(),
    {
        match self {
            LocatError::ResolverInit(m) => m.as_str(),
            LocatError::StoreWrite(m) => m.as_str(),
            LocatError::StoreRead(m) => m.as_str(),
        }
    }
}

} // verus!
