use vstd::prelude::*;
use vstd::string::*;

verus! {

/// Why a request to shorten a URL failed.
#[derive(Debug, Clone, Copy, PartialEq, Eq, Structural)]
pub enum ShortenError {
    /// The URL does not start with `http://` or `https://`.
    InvalidUrl,
    /// A custom code is shorter than 3 or longer than 10 characters.
    CodeTooShortOrLong,
    /// A custom code holds a character outside `[A-Za-z0-9]`.
    CodeNotAlphanumeric,
    /// A custom code is already taken.
    CodeAlreadyExists,
    /// The store's unique constraint rejected the insert: another request took the code first.
    CodeConflict,
    /// No code could be allocated.
    GenerationExhausted,
    /// The store failed.
    Store,
}

/// HTTP status reported for `e`: 400 for bad input, 409 for a taken code, 500 otherwise.
pub open spec fn status_of(e: ShortenError) -> u16 {
    match e {
        ShortenError::InvalidUrl | ShortenError::CodeTooShortOrLong
        | ShortenError::CodeNotAlphanumeric => 400,
        ShortenError::CodeAlreadyExists | ShortenError::CodeConflict => 409,
        ShortenError::GenerationExhausted | ShortenError::Store => 500,
    }
}

/// Message reported for `e`; a store failure leaks no detail.
pub open spec fn message_of(e: ShortenError) -> Seq<char> {
    match e {
        ShortenError::InvalidUrl => "invalid URL scheme: the URL must start with http:// or https://"@,
        ShortenError::CodeTooShortOrLong => "invalid custom code length: it must hold 3 to 10 characters"@,
        ShortenError::CodeNotAlphanumeric => "invalid custom code: only letters and digits are allowed"@,
        ShortenError::CodeAlreadyExists => "custom code already exists"@,
        ShortenError::CodeConflict => "short code conflict: the code was taken meanwhile"@,
        ShortenError::GenerationExhausted => "could not allocate a short code"@,
        ShortenError::Store => "internal server error"@,
    }
}

impl ShortenError {
    /// HTTP status for this error.
    pub fn status(&self) -> (r: u16)
        ensures
            r == status_of(*self),
    {
        match self {
            ShortenError::InvalidUrl | ShortenError::CodeTooShortOrLong
            | ShortenError::CodeNotAlphanumeric => 400,
            ShortenError::CodeAlreadyExists | ShortenError::CodeConflict => 409,
            ShortenError::GenerationExhausted | ShortenError::Store => 500,
        }
    }

    /// Message for the body `{ "error": ... }`.
    pub fn message(&self) -> (r: String)
        ensures
            r@ == message_of(*self),
    {
        let text = match self {
            ShortenError::InvalidUrl => "invalid URL scheme: the URL must start with http:// or https://",
            ShortenError::CodeTooShortOrLong => "invalid custom code length: it must hold 3 to 10 characters",
            ShortenError::CodeNotAlphanumeric => "invalid custom code: only letters and digits are allowed",
            ShortenError::CodeAlreadyExists => "custom code already exists",
            ShortenError::CodeConflict => "short code conflict: the code was taken meanwhile",
            ShortenError::GenerationExhausted => "could not allocate a short code",
            ShortenError::Store => "internal server error",
        };
        String::from_str(text)
    }
}

/// The response for a failure whose detail stays internal: status 500 and a generic message.
/// The error itself is consumed and not shown to the caller.
pub fn internal_error<E>(error: E) -> (r: (u16, String))
    ensures
        r.0 == 500,
        r.1@ == message_of(ShortenError::Store),
{
    (500, String::from_str("internal server error"))
}

} // verus!
