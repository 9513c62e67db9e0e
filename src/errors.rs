use vstd::prelude::*;

verus! {

/// Errors of the token-bucket program's lifecycle.
#[derive(Debug)]
pub enum TokenBucketError {
    /// `load` or `pin` was called before any direction was armed.
    NoTrafficDirection(String),
    /// The program was closed; no further transition is possible.
    Closed(String),
    /// `pin` was called with directions armed but none loaded and attached.
    NotAttached(String),
}

/// Errors of pin paths and pin transitions.
#[derive(Debug)]
pub enum PinError {
    /// A pin path that does not stay under the pin root.
    PathLocation(String),
    /// Pin records that name no traffic direction.
    InvalidPinObject(String),
    /// A set of pin records with nothing in it.
    EmptyPinObject(String),
    /// `unpin` on a program that is not pinned.
    NotPinned(String),
    /// `pin` on a program that is already pinned.
    AlreadyPinned(String),
}

/// Errors of the program factory.
#[derive(Debug, Clone, Copy, PartialEq, Eq, Structural)]
pub enum ProgramFactoryError {
    NotImplemented,
}

/// Errors of the filter programs and their lifecycle.
#[derive(Debug)]
pub enum Error {
    Pin(PinError),
    TokenBucket(TokenBucketError),
    General(String),
    FactoryError(ProgramFactoryError),
}

impl Error {
    pub open spec fn is_no_traffic(&self) -> bool {
        self matches Error::TokenBucket(TokenBucketError::NoTrafficDirection(_))
    }

    pub open spec fn is_closed(&self) -> bool {
        self matches Error::TokenBucket(TokenBucketError::Closed(_))
    }

    pub open spec fn is_empty_pin_object(&self) -> bool {
        self matches Error::Pin(PinError::EmptyPinObject(_))
    }

    pub open spec fn is_invalid_pin_object(&self) -> bool {
        self matches Error::Pin(PinError::InvalidPinObject(_))
    }
}

} // verus!
