use vstd::prelude::*;
use vstd::string::*;

use crate::error::ShortenError;
use crate::link::{Link, StoreError};

verus! {

/// Length of a generated code.
pub const CODE_LEN: usize = 6;

/// Length of the code generated once every regular candidate collided.
pub const FALLBACK_CODE_LEN: usize = 8;

/// Number of regular candidates tried before the fallback.
pub const MAX_ATTEMPTS: u32 = 10;

/// What to do after the store answered whether a candidate exists.
#[derive(Debug, Clone, Copy, PartialEq, Eq, Structural)]
pub enum AllocDecision {
    /// The candidate is free: use it.
    Accept,
    /// The candidate is taken: try another regular one.
    Retry,
    /// The last regular candidate is taken: generate a longer code and use it unchecked.
    Fallback,
}

/// The decision after regular attempt number `attempt` (counted from 0) found its candidate
/// present (`exists`) or absent.
pub open spec fn alloc_decision(attempt: u32, exists: bool) -> AllocDecision {
    if !exists {
        AllocDecision::Accept
    } else if attempt + 1 < MAX_ATTEMPTS {
        AllocDecision::Retry
    } else {
        AllocDecision::Fallback
    }
}

/// Decides how allocation goes on after a candidate check.
pub fn after_candidate_check(attempt: u32, exists: bool) -> (r: AllocDecision)
    requires
        attempt < MAX_ATTEMPTS,
    ensures
        r == alloc_decision(attempt, exists),
{
    if !exists {
        AllocDecision::Accept
    } else if attempt + 1 < MAX_ATTEMPTS {
        AllocDecision::Retry
    } else {
        AllocDecision::Fallback
    }
}

/// The error reported for a failed insert: a rejected duplicate is a conflict, anything else a
/// store failure.
pub open spec fn insert_error(e: StoreError) -> ShortenError {
    match e {
        StoreError::DuplicateCode => ShortenError::CodeConflict,
        StoreError::Unavailable => ShortenError::Store,
    }
}

/// Maps the result of an insert to the result of creation.
pub fn insert_outcome(r: Result<i64, StoreError>) -> (o: Result<i64, ShortenError>)
    ensures
        r matches Ok(id) ==> o == Ok::<i64, ShortenError>(id),
        r matches Err(e) ==> o == Err::<i64, ShortenError>(insert_error(e)),
{
    match r {
        Ok(id) => Ok(id),
        Err(StoreError::DuplicateCode) => Err(ShortenError::CodeConflict),
        Err(StoreError::Unavailable) => Err(ShortenError::Store),
    }
}

/// Whether a shape-checked custom code may be used, given whether the store holds it.
pub fn custom_availability(exists: bool) -> (r: Result<(), ShortenError>)
    ensures
        exists ==> r == Err::<(), ShortenError>(ShortenError::CodeAlreadyExists),
        !exists ==> r is Ok,
{
    if exists {
        Err(ShortenError::CodeAlreadyExists)
    } else {
        Ok(())
    }
}

/// The public short URL of `code` under the service's base address.
pub open spec fn short_url_of(base: Seq<char>, code: Seq<char>) -> Seq<char> {
    base + "/"@ + code
}

/// Composes the public short URL of `code` under `base`.
pub fn short_url(base: &str, code: &str) -> (r: String)
    ensures
        r@ == short_url_of(base@, code@),
{
    let mut r = String::from_str(base);
    r.append("/");
    r.append(code);
    r
}

/// A successful creation: the code, its public URL and the URL it leads to.
#[derive(Debug)]
pub struct ShortenResponse {
    pub short_code: String,
    pub short_url: String,
    pub original_url: String,
}

/// How a redirect request ends.
#[derive(Debug)]
pub enum RedirectOutcome {
    /// Redirect permanently to this URL; a click on the code is to be counted without waiting.
    Redirect(String),
    /// No link has the code.
    NotFound,
    /// The lookup failed.
    Internal,
}

impl RedirectOutcome {
    /// HTTP status: 301, 404 or 500.
    pub fn status(&self) -> (r: u16)
        ensures
            self is Redirect ==> r == 301,
            self is NotFound ==> r == 404,
            self is Internal ==> r == 500,
    {
        match self {
            RedirectOutcome::Redirect(_) => 301,
            RedirectOutcome::NotFound => 404,
            RedirectOutcome::Internal => 500,
        }
    }
}

/// Decides a redirect from the store's answer to the lookup of the code.
pub fn redirect_outcome(lookup: Result<Option<Link>, StoreError>) -> (r: RedirectOutcome)
    ensures
        lookup matches Ok(Some(l)) ==> (r matches RedirectOutcome::Redirect(u) && u@
            == l.original_url@),
        lookup matches Ok(None) ==> r is NotFound,
        lookup is Err ==> r is Internal,
{
    match lookup {
        Ok(Some(l)) => RedirectOutcome::Redirect(l.original_url),
        Ok(None) => RedirectOutcome::NotFound,
        Err(_) => RedirectOutcome::Internal,
    }
}

} // verus!
