use vstd::prelude::*;
use vstd::string::*;

use crate::code::{is_alphanumeric, is_code_char};
use crate::error::ShortenError;

verus! {

/// Shortest accepted custom code.
pub const MIN_CUSTOM_LEN: usize = 3;

/// Longest accepted custom code.
pub const MAX_CUSTOM_LEN: usize = 10;

/// Whether `s` begins with `p`.
pub open spec fn is_prefix(p: Seq<char>, s: Seq<char>) -> bool {
    p.len() <= s.len() && s.take(p.len() as int) == p
}

/// Whether `url` starts with `http://` or `https://` (and so is not blank).
pub open spec fn valid_url(url: Seq<char>) -> bool {
    is_prefix("http://"@, url) || is_prefix("https://"@, url)
}

/// Outcome of the shape checks on a custom code, in order: length, then characters.
pub open spec fn custom_shape(code: Seq<char>) -> Result<(), ShortenError> {
    if code.len() < MIN_CUSTOM_LEN || code.len() > MAX_CUSTOM_LEN {
        Err(ShortenError::CodeTooShortOrLong)
    } else if !is_alphanumeric(code) {
        Err(ShortenError::CodeNotAlphanumeric)
    } else {
        Ok(())
    }
}

/// Whether `s` begins with `p`.
pub fn starts_with(s: &str, p: &str) -> (r: bool)
    ensures
        r == is_prefix(p@, s@),
{
    let n = p.unicode_len();
    if n > s.unicode_len() {
        return false;
    }
    let mut i: usize = 0;
    while i < n
        invariant
            n == p@.len(),
            n <= s@.len(),
            i <= n,
            forall|j: int| 0 <= j < i ==> s@[j] == p@[j],
        decreases n - i,
    {
        if s.get_char(i) != p.get_char(i) {
            assert(s@.take(n as int)[i as int] != p@[i as int]);
            return false;
        }
        i = i + 1;
    }
    assert(s@.take(n as int) =~= p@);
    true
}

/// Whether `c` is an ASCII letter or digit.
pub fn is_code_char_exec(c: char) -> (r: bool)
    ensures
        r == is_code_char(c),
{
    ('A' <= c && c <= 'Z') || ('a' <= c && c <= 'z') || ('0' <= c && c <= '9')
}

/// Accepts a URL that starts with `http://` or `https://`.
pub fn validate_url(url: &str) -> (r: Result<(), ShortenError>)
    ensures
        r is Ok <==> valid_url(url@),
        r is Err ==> r == Err::<(), ShortenError>(ShortenError::InvalidUrl),
{
    if starts_with(url, "http://") || starts_with(url, "https://") {
        Ok(())
    } else {
        Err(ShortenError::InvalidUrl)
    }
}

/// Checks the shape of a custom code: 3 to 10 characters, then letters and digits only.
pub fn check_custom_shape(code: &str) -> (r: Result<(), ShortenError>)
    ensures
        r == custom_shape(code@),
{
    let n = code.unicode_len();
    if n < MIN_CUSTOM_LEN || n > MAX_CUSTOM_LEN {
        return Err(ShortenError::CodeTooShortOrLong);
    }
    let mut i: usize = 0;
    while i < n
        invariant
            n == code@.len(),
            MIN_CUSTOM_LEN <= n <= MAX_CUSTOM_LEN,
            i <= n,
            forall|j: int| 0 <= j < i ==> is_code_char(#[trigger] code@[j]),
        decreases n - i,
    {
        if !is_code_char_exec(code.get_char(i)) {
            assert(!is_code_char(code@[i as int]));
            return Err(ShortenError::CodeNotAlphanumeric);
        }
        i = i + 1;
    }
    Ok(())
}

} // verus!
