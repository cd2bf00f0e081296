use vstd::prelude::*;

use crate::error::{status_of, ShortenError};
use crate::code::is_alphanumeric;
use crate::flow::{insert_error, CODE_LEN, FALLBACK_CODE_LEN};
use crate::link::{
    bump, bump_n, create_spec, created_link_resolves, exactly_one, has_code, link_shape, table_wf,
    LinkRow,
    StoreError, TableView, MAX_CLICKS, MAX_ID,
};
use crate::service::custom_check;
use crate::validate::{custom_shape, valid_url};

verus! {

/// Asking twice for the same custom code: once the first request has created its link, the
/// code no longer passes the custom-code check (the second request fails with a conflict), an
/// insert of it is rejected as a duplicate, and the store holds exactly one row for it.
pub proof fn same_custom_code_twice(v: TableView, code: Seq<char>, url1: Seq<char>, url2: Seq<char>)
    requires
        table_wf(v),
        custom_check(code, v.rows) is Ok,
        valid_url(url1),
        v.next_id < MAX_ID,
    ensures
        create_spec(v, code, url1).1 is Ok,
        custom_check(code, create_spec(v, code, url1).0.rows) == Err::<(), ShortenError>(
            ShortenError::CodeAlreadyExists,
        ),
        create_spec(create_spec(v, code, url1).0, code, url2) == (
            create_spec(v, code, url1).0,
            Err::<i64, StoreError>(StoreError::DuplicateCode),
        ),
        exactly_one(create_spec(v, code, url1).0.rows, code),
{
    created_link_resolves(v, code, url1);
}

/// Two requests that both found a code free race to insert it: whichever insert comes first
/// succeeds, the other is rejected by the unique constraint and reported as a conflict, and the
/// store ends with exactly one row for the code.
pub proof fn racing_creations(v: TableView, code: Seq<char>, url1: Seq<char>, url2: Seq<char>)
    requires
        table_wf(v),
        !has_code(v.rows, code),
        link_shape(code, url1),
        link_shape(code, url2),
        v.next_id < MAX_ID,
    ensures
        create_spec(v, code, url1).1 is Ok,
        create_spec(create_spec(v, code, url1).0, code, url2).1 == Err::<i64, StoreError>(
            StoreError::DuplicateCode,
        ),
        insert_error(StoreError::DuplicateCode) == ShortenError::CodeConflict,
        create_spec(create_spec(v, code, url1).0, code, url2).0 == create_spec(v, code, url1).0,
        exactly_one(create_spec(create_spec(v, code, url1).0, code, url2).0.rows, code),
{
    created_link_resolves(v, code, url1);
}

/// A custom code of the wrong length or with a character outside `[A-Za-z0-9]` is rejected by
/// its shape alone, whatever the store holds, with a validation error (status 400).
pub proof fn malformed_custom_code_rejected(code: Seq<char>, rows: Seq<LinkRow>)
    requires
        custom_shape(code) is Err,
    ensures
        custom_check(code, rows) == custom_shape(code),
        custom_check(code, rows) matches Err(e) && status_of(e) == 400 && (e
            == ShortenError::CodeTooShortOrLong || e == ShortenError::CodeNotAlphanumeric),
{
}

/// A custom code of the wrong shape is never stored: no well-formed store holds it, so no
/// sequence of requests can have created it.
pub proof fn malformed_code_never_stored(v: TableView, code: Seq<char>)
    requires
        table_wf(v),
        custom_shape(code) is Err,
    ensures
        !has_code(v.rows, code),
{
    if has_code(v.rows, code) {
        let i = choose|i: int| 0 <= i < v.rows.len() && (#[trigger] v.rows[i]).short_code == code;
        assert(link_shape(v.rows[i].short_code, v.rows[i].original_url));
    }
}

/// Whether every stored code has the shape of a generated one: 6 or 8 letters and digits.
pub open spec fn all_generated(rows: Seq<LinkRow>) -> bool {
    forall|i: int|
        0 <= i < rows.len() ==> is_alphanumeric((#[trigger] rows[i]).short_code) && (
        rows[i].short_code.len() == CODE_LEN || rows[i].short_code.len() == FALLBACK_CODE_LEN)
}

/// Creating a link under a generated code (6 or 8 letters and digits) keeps every stored code
/// in that shape: a store filled only by requests without a custom code holds only such codes.
pub proof fn generated_codes_stay_generated(v: TableView, code: Seq<char>, url: Seq<char>)
    requires
        table_wf(v),
        all_generated(v.rows),
        is_alphanumeric(code),
        code.len() == CODE_LEN || code.len() == FALLBACK_CODE_LEN,
    ensures
        all_generated(create_spec(v, code, url).0.rows),
{
    let w = create_spec(v, code, url).0;
    if create_spec(v, code, url).1 is Ok {
        assert forall|i: int| 0 <= i < w.rows.len() implies is_alphanumeric(
            (#[trigger] w.rows[i]).short_code,
        ) && (w.rows[i].short_code.len() == CODE_LEN || w.rows[i].short_code.len()
            == FALLBACK_CODE_LEN) by {
            if i < v.rows.len() {
                assert(w.rows[i] == v.rows[i]);
            }
        }
    }
}

/// Redirecting `n` times through `code` changes only the click counter of its row: the counter
/// never goes down, and it goes up by exactly `n` as long as it does not reach its maximum.
pub proof fn repeated_redirects(rows: Seq<LinkRow>, code: Seq<char>, n: nat)
    requires
        forall|j: int| 0 <= j < rows.len() ==> 0 <= (#[trigger] rows[j]).click_count <= MAX_CLICKS,
    ensures
        bump_n(rows, code, n).len() == rows.len(),
        forall|j: int|
            0 <= j < rows.len() ==> {
                let b = #[trigger] bump_n(rows, code, n)[j];
                &&& b.id == rows[j].id
                &&& b.short_code == rows[j].short_code
                &&& b.original_url == rows[j].original_url
                &&& rows[j].click_count <= b.click_count <= MAX_CLICKS
                &&& rows[j].short_code == code && rows[j].click_count + n <= MAX_CLICKS
                    ==> b.click_count == rows[j].click_count + n
                &&& rows[j].short_code != code ==> b == rows[j]
            },
    decreases n,
{
    if n > 0 {
        repeated_redirects(rows, code, (n - 1) as nat);
        let p = bump_n(rows, code, (n - 1) as nat);
        assert(bump_n(rows, code, n) == bump(p, code));
    }
}

} // verus!
