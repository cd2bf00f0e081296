use vstd::prelude::*;

use crate::code::{generate_candidate, is_alphanumeric};
use crate::error::ShortenError;
use crate::flow::{
    after_candidate_check, alloc_decision, insert_error, short_url, short_url_of, AllocDecision,
    ShortenResponse, CODE_LEN, FALLBACK_CODE_LEN, MAX_ATTEMPTS,
};
use crate::link::{link_shape, StoreError};
use crate::validate::{check_custom_shape, custom_shape, valid_url, validate_url};

verus! {

/// Where a creation request stands between two store calls.
#[derive(Debug, Clone, Copy, PartialEq, Eq, Structural)]
pub enum Phase {
    /// Waiting for the store to say whether `code` exists.
    Checking,
    /// Waiting for the result of inserting `code`.
    Inserting,
    /// Answered.
    Done,
}

/// What the caller does next against the store.
#[derive(Debug)]
pub enum ShortenStep {
    /// Ask whether this code is stored, and hand the answer to `on_exists`.
    CheckExists(String),
    /// Insert this code with the request's URL, and hand the result to `on_insert`.
    Insert(String),
    /// The request is answered.
    Finish(Result<ShortenResponse, ShortenError>),
}

/// One creation request, driven by the store's answers: validate the URL, pick the code
/// (custom, or generated with bounded retries), insert it, answer.
pub struct ShortenSession {
    pub base_url: String,
    pub url: String,
    pub custom: bool,
    pub attempt: u32,
    pub code: String,
    pub phase: Phase,
}

/// Whether `step` asks whether `code` is stored.
pub open spec fn asks_exists(step: ShortenStep, code: Seq<char>) -> bool {
    match step {
        ShortenStep::CheckExists(k) => k@ == code,
        _ => false,
    }
}

/// Whether `step` asks to insert `code`.
pub open spec fn asks_insert(step: ShortenStep, code: Seq<char>) -> bool {
    match step {
        ShortenStep::Insert(k) => k@ == code,
        _ => false,
    }
}

/// Whether `step` answers with the creation of `code` for `url`, published under `base`.
pub open spec fn answers_created(step: ShortenStep, base: Seq<char>, url: Seq<char>, code: Seq<
    char,
>) -> bool {
    match step {
        ShortenStep::Finish(Ok(resp)) => resp.short_code@ == code && resp.original_url@ == url
            && resp.short_url@ == short_url_of(base, code),
        _ => false,
    }
}

/// How a session starts: an invalid URL is answered at once, then a custom code of the wrong
/// shape; a custom code of the right shape, or else a first generated candidate, is checked.
pub open spec fn started(url: Seq<char>, custom_code: Option<&str>, s: ShortenSession, step: ShortenStep) -> bool {
    if !valid_url(url) {
        s.phase == Phase::Done && step == ShortenStep::Finish(Err(ShortenError::InvalidUrl))
    } else {
        match custom_code {
            Some(c) => match custom_shape(c@) {
                Err(e) => s.phase == Phase::Done && step == ShortenStep::Finish(Err(e)),
                Ok(_) => s.phase == Phase::Checking && s.code@ == c@ && asks_exists(step, c@),
            },
            None => s.phase == Phase::Checking && s.attempt == 0 && asks_exists(step, s.code@),
        }
    }
}

/// How a session goes on once the store said whether the pending code exists: a taken custom
/// code is answered with a conflict, a free code is inserted; a generated code follows the
/// allocation policy.
pub open spec fn after_exists(o: ShortenSession, exists: bool, s: ShortenSession, step: ShortenStep) -> bool {
    if o.custom {
        if exists {
            s.phase == Phase::Done && step == ShortenStep::Finish(Err(ShortenError::CodeAlreadyExists))
        } else {
            s.phase == Phase::Inserting && s.code == o.code && asks_insert(step, o.code@)
        }
    } else {
        match alloc_decision(o.attempt, exists) {
            AllocDecision::Accept => s.phase == Phase::Inserting && s.code == o.code
                && asks_insert(step, o.code@),
            AllocDecision::Retry => s.phase == Phase::Checking && s.attempt == o.attempt + 1
                && asks_exists(step, s.code@),
            AllocDecision::Fallback => s.phase == Phase::Inserting && s.code@.len()
                == FALLBACK_CODE_LEN && asks_insert(step, s.code@),
        }
    }
}

/// How a session is answered from the result of its insert.
pub open spec fn after_insert(o: ShortenSession, inserted: Result<i64, StoreError>, step: ShortenStep) -> bool {
    match inserted {
        Ok(_) => answers_created(step, o.base_url@, o.url@, o.code@),
        Err(e) => step == ShortenStep::Finish(Err(insert_error(e))),
    }
}

impl ShortenSession {
    /// The session's invariant: while it runs its URL is valid and its code has the shape the
    /// current step needs.
    pub open spec fn wf(&self) -> bool {
        &&& self.phase != Phase::Done ==> valid_url(self.url@)
        &&& self.phase == Phase::Checking && self.custom ==> custom_shape(self.code@) is Ok
        &&& self.phase == Phase::Checking && !self.custom ==> self.attempt < MAX_ATTEMPTS
            && self.code@.len() == CODE_LEN && is_alphanumeric(self.code@)
        &&& self.phase == Phase::Inserting ==> link_shape(self.code@, self.url@)
    }

    /// Opens a session for `url`, under `custom_code` if given, answered under `base_url`.
    pub fn start(base_url: &str, url: &str, custom_code: Option<&str>) -> (r: (
        ShortenSession,
        ShortenStep,
    ))
        ensures
            r.0.wf(),
            r.0.base_url@ == base_url@,
            r.0.url@ == url@,
            r.0.custom == custom_code is Some,
            started(url@, custom_code, r.0, r.1),
    {
        let mut s = ShortenSession {
            base_url: String::from_str(base_url),
            url: String::from_str(url),
            custom: custom_code.is_some(),
            attempt: 0,
            code: String::new(),
            phase: Phase::Done,
        };
        if validate_url(url).is_err() {
            return (s, ShortenStep::Finish(Err(ShortenError::InvalidUrl)));
        }
        match custom_code {
            Some(c) => match check_custom_shape(c) {
                Err(e) => (s, ShortenStep::Finish(Err(e))),
                Ok(_) => {
                    s.code = String::from_str(c);
                    s.phase = Phase::Checking;
                    let k = s.code.clone();
                    (s, ShortenStep::CheckExists(k))
                },
            },
            None => {
                s.code = generate_candidate(CODE_LEN);
                s.phase = Phase::Checking;
                let k = s.code.clone();
                (s, ShortenStep::CheckExists(k))
            },
        }
    }

    /// Goes on after the store said whether the pending code `exists`.
    pub fn on_exists(&mut self, exists: bool) -> (r: ShortenStep)
        requires
            old(self).wf(),
            old(self).phase == Phase::Checking,
        ensures
            final(self).wf(),
            final(self).base_url == old(self).base_url,
            final(self).url == old(self).url,
            final(self).custom == old(self).custom,
            after_exists(*old(self), exists, *final(self), r),
    {
        if self.custom {
            if exists {
                self.phase = Phase::Done;
                return ShortenStep::Finish(Err(ShortenError::CodeAlreadyExists));
            }
            self.phase = Phase::Inserting;
            return ShortenStep::Insert(self.code.clone());
        }
        match after_candidate_check(self.attempt, exists) {
            AllocDecision::Accept => {
                self.phase = Phase::Inserting;
                ShortenStep::Insert(self.code.clone())
            },
            AllocDecision::Retry => {
                self.attempt = self.attempt + 1;
                self.code = generate_candidate(CODE_LEN);
                ShortenStep::CheckExists(self.code.clone())
            },
            AllocDecision::Fallback => {
                self.code = generate_candidate(FALLBACK_CODE_LEN);
                self.phase = Phase::Inserting;
                ShortenStep::Insert(self.code.clone())
            },
        }
    }

    /// Answers the request from the result of inserting the pending code.
    pub fn on_insert(&mut self, inserted: Result<i64, StoreError>) -> (r: ShortenStep)
        requires
            old(self).wf(),
            old(self).phase == Phase::Inserting,
        ensures
            final(self).wf(),
            final(self).phase == Phase::Done,
            after_insert(*old(self), inserted, r),
    {
        self.phase = Phase::Done;
        match inserted {
            Ok(_) => {
                let link_url = short_url(self.base_url.as_str(), self.code.as_str());
                ShortenStep::Finish(
                    Ok(
                        ShortenResponse {
                            short_code: self.code.clone(),
                            short_url: link_url,
                            original_url: self.url.clone(),
                        },
                    ),
                )
            },
            Err(StoreError::DuplicateCode) => ShortenStep::Finish(Err(ShortenError::CodeConflict)),
            Err(StoreError::Unavailable) => ShortenStep::Finish(Err(ShortenError::Store)),
        }
    }
}

} // verus!
