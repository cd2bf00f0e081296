use vstd::prelude::*;

use crate::code::{generate_candidate, is_alphanumeric};
use crate::error::ShortenError;
use crate::flow::{
    after_candidate_check, custom_availability, insert_outcome, short_url, short_url_of,
    AllocDecision, ShortenResponse, CODE_LEN, FALLBACK_CODE_LEN, MAX_ATTEMPTS,
};
use crate::link::{
    bump, create_spec, created_link_resolves, exactly_one, has_code, lemma_url_of_row, url_of,
    LinkRow, LinkTable, MAX_ID,
};
use crate::validate::{check_custom_shape, custom_shape, valid_url, validate_url};

verus! {

/// Outcome of checking a custom code against the store: its shape first, then whether it is
/// taken.
pub open spec fn custom_check(code: Seq<char>, rows: Seq<LinkRow>) -> Result<
    (),
    ShortenError,
> {
    match custom_shape(code) {
        Err(e) => Err(e),
        Ok(_) => if has_code(rows, code) {
            Err(ShortenError::CodeAlreadyExists)
        } else {
            Ok(())
        },
    }
}

/// Allocates a generated code: up to ten candidates of six symbols, each checked against the
/// store, the first free one winning; if all collide, one of eight symbols, not checked.
pub fn allocate_code(table: &LinkTable) -> (r: String)
    requires
        table.wf(),
    ensures
        is_alphanumeric(r@),
        (r@.len() == CODE_LEN && !has_code(table@.rows, r@)) || r@.len() == FALLBACK_CODE_LEN,
        r@.len() == FALLBACK_CODE_LEN ==> exists|i: int|
            0 <= i < table@.rows.len() && (#[trigger] table@.rows[i]).short_code.len() == CODE_LEN,
{
    let mut attempt: u32 = 0;
    loop
        invariant
            attempt < MAX_ATTEMPTS,
            table.wf(),
            attempt > 0 ==> exists|i: int|
                0 <= i < table@.rows.len() && (#[trigger] table@.rows[i]).short_code.len()
                    == CODE_LEN,
        decreases MAX_ATTEMPTS - attempt,
    {
        let candidate = generate_candidate(CODE_LEN);
        let exists = table.short_code_exists(candidate.as_str());
        match after_candidate_check(attempt, exists) {
            AllocDecision::Accept => {
                return candidate;
            },
            AllocDecision::Retry => {
                proof {
                    let i = choose|i: int|
                        0 <= i < table@.rows.len() && (#[trigger] table@.rows[i]).short_code
                            == candidate@;
                    assert(table@.rows[i].short_code.len() == CODE_LEN);
                }
                attempt = attempt + 1;
            },
            AllocDecision::Fallback => {
                proof {
                    let i = choose|i: int|
                        0 <= i < table@.rows.len() && (#[trigger] table@.rows[i]).short_code
                            == candidate@;
                    assert(table@.rows[i].short_code.len() == CODE_LEN);
                }
                return generate_candidate(FALLBACK_CODE_LEN);
            },
        }
    }
}

/// Checks a custom code: 3 to 10 characters, letters and digits only, and not yet stored, in
/// that order; the store is consulted only once the shape is right.
pub fn validate_and_check_custom(code: &str, table: &LinkTable) -> (r: Result<String, ShortenError>)
    requires
        table.wf(),
    ensures
        r is Ok <==> custom_check(code@, table@.rows) is Ok,
        r matches Ok(s) ==> s@ == code@,
        r matches Err(e) ==> custom_check(code@, table@.rows) == Err::<(), ShortenError>(e),
{
    match check_custom_shape(code) {
        Err(e) => Err(e),
        Ok(_) => match custom_availability(table.short_code_exists(code)) {
            Err(e) => Err(e),
            Ok(_) => Ok(code.to_owned()),
        },
    }
}

/// Creates a link for `url`, under `custom_code` where one is given, else under a generated
/// code; `base_url` is the service's own address, under which the short URL is composed.
/// Either a row is created and the response returned, or the store is left as it was.
pub fn shorten(table: &mut LinkTable, base_url: &str, url: &str, custom_code: Option<&str>) -> (r:
    Result<ShortenResponse, ShortenError>)
    requires
        old(table).wf(),
    ensures
        final(table).wf(),
        r is Err ==> final(table)@ == old(table)@,
        !valid_url(url@) ==> r == Err::<ShortenResponse, ShortenError>(ShortenError::InvalidUrl),
        valid_url(url@) ==> match custom_code {
            Some(c) => match custom_check(c@, old(table)@.rows) {
                Err(e) => r == Err::<ShortenResponse, ShortenError>(e),
                Ok(_) => if old(table)@.next_id < MAX_ID {
                    r matches Ok(resp) && resp.short_code@ == c@
                } else {
                    r == Err::<ShortenResponse, ShortenError>(ShortenError::Store)
                },
            },
            None => r is Ok || r == Err::<ShortenResponse, ShortenError>(ShortenError::CodeConflict)
                || (r == Err::<ShortenResponse, ShortenError>(ShortenError::Store)
                && old(table)@.next_id >= MAX_ID),
        },
        custom_code is None ==> (r matches Ok(resp) ==> is_alphanumeric(resp.short_code@) && (
        resp.short_code@.len() == CODE_LEN || resp.short_code@.len() == FALLBACK_CODE_LEN)),
        custom_code is None && valid_url(url@) && old(table)@.next_id < MAX_ID && (forall|i: int|
            0 <= i < old(table)@.rows.len() ==> (#[trigger] old(table)@.rows[i]).short_code.len()
                != FALLBACK_CODE_LEN) ==> r is Ok,
        custom_code is None ==> (r matches Ok(resp) ==> (resp.short_code@.len() == FALLBACK_CODE_LEN
            ==> exists|i: int|
            0 <= i < old(table)@.rows.len() && (#[trigger] old(table)@.rows[i]).short_code.len()
                == CODE_LEN)),
        r matches Ok(resp) ==> {
            &&& !has_code(old(table)@.rows, resp.short_code@)
            &&& final(table)@ == create_spec(old(table)@, resp.short_code@, url@).0
            &&& exactly_one(final(table)@.rows, resp.short_code@)
            &&& url_of(final(table)@.rows, resp.short_code@) == Some(url@)
            &&& resp.original_url@ == url@
            &&& resp.short_url@ == short_url_of(base_url@, resp.short_code@)
        },
{
    if validate_url(url).is_err() {
        return Err(ShortenError::InvalidUrl);
    }
    let code = match custom_code {
        Some(c) => match validate_and_check_custom(c, table) {
            Ok(s) => s,
            Err(e) => {
                return Err(e);
            },
        },
        None => allocate_code(table),
    };
    let ghost before = table@;
    match insert_outcome(table.create_link(code.as_str(), url)) {
        Ok(_) => {},
        Err(e) => {
            return Err(e);
        },
    }
    proof {
        created_link_resolves(before, code@, url@);
    }
    let link_url = short_url(base_url, code.as_str());
    Ok(ShortenResponse { short_code: code, short_url: link_url, original_url: url.to_owned() })
}

/// Resolves `code` to the URL it leads to, and counts one click on it; an unknown code changes
/// nothing.
pub fn resolve(table: &mut LinkTable, code: &str) -> (r: Option<String>)
    requires
        old(table).wf(),
    ensures
        final(table).wf(),
        r is None <==> !has_code(old(table)@.rows, code@),
        r is None ==> final(table)@ == old(table)@,
        r matches Some(u) ==> url_of(old(table)@.rows, code@) == Some(u@),
        r is Some ==> final(table)@.rows == bump(old(table)@.rows, code@) && final(table)@.next_id
            == old(table)@.next_id,
{
    match table.get_link_by_code(code) {
        None => None,
        Some(l) => {
            proof {
                let i = choose|i: int|
                    0 <= i < table@.rows.len() && table@.rows[i] == l@;
                lemma_url_of_row(table@, i);
            }
            table.increment_clicks(code);
            Some(l.original_url)
        },
    }
}

} // verus!
