use vstd::prelude::*;

verus! {

/// Number of symbols in the short-code alphabet `[A-Za-z0-9]`.
pub const ALPHABET_LEN: u8 = 62;

/// Whether `c` is an ASCII letter or digit.
pub open spec fn is_code_char(c: char) -> bool {
    (65 <= c as u32 && c as u32 <= 90) || (97 <= c as u32 && c as u32 <= 122) || (48 <= c as u32
        && c as u32 <= 57)
}

/// Whether every character of `s` is an ASCII letter or digit.
pub open spec fn is_alphanumeric(s: Seq<char>) -> bool {
    forall|i: int| 0 <= i < s.len() ==> is_code_char(#[trigger] s[i])
}

/// Code point of the symbol at position `i` of the alphabet: upper case, then lower case, then digits.
pub open spec fn alphabet_code_point(i: int) -> u32 {
    if i < 26 {
        (65 + i) as u32
    } else if i < 52 {
        (97 + (i - 26)) as u32
    } else {
        (48 + (i - 52)) as u32
    }
}

/// The symbol at position `i` of the alphabet.
pub fn alphabet_char(i: u8) -> (c: char)
    requires
        i < ALPHABET_LEN,
    ensures
        c as u32 == alphabet_code_point(i as int),
        is_code_char(c),
{
    if i < 26 {
        (65u8 + i) as char
    } else if i < 52 {
        (97u8 + (i - 26)) as char
    } else {
        (48u8 + (i - 52)) as char
    }
}

/// Relies on rand::thread_rng and rand::Rng::gen_range: a value drawn uniformly from `0..n`,
/// which lies below `n`. gen_range panics on an empty range, which `n > 0` rules out;
/// thread_rng panics only where the system's entropy source fails, which no input decides.
#[verifier::external_body]
fn random_below(n: u8) -> (r: u8)
    requires
        n > 0,
    ensures
        r < n,
{
    rand::Rng::gen_range(&mut rand::thread_rng(), 0..n)
}

/// Relies on String::push: `c` is appended at the end of `s`.
#[verifier::external_body]
pub(crate) fn push_char(s: &mut String, c: char)
    ensures
        final(s)@ == old(s)@.push(c),
{
    s.push(c)
}

/// Spells out the code whose symbols sit at the alphabet positions `indices`.
pub fn code_from_indices(indices: &Vec<u8>) -> (r: String)
    requires
        forall|k: int| 0 <= k < indices@.len() ==> indices@[k] < ALPHABET_LEN,
    ensures
        r@.len() == indices@.len(),
        is_alphanumeric(r@),
        forall|k: int| 0 <= k < indices@.len() ==> r@[k] as u32 == alphabet_code_point(indices@[k] as int),
{
    let mut r = String::new();
    let mut k: usize = 0;
    while k < indices.len()
        invariant
            k <= indices@.len(),
            r@.len() == k,
            forall|j: int| 0 <= j < indices@.len() ==> indices@[j] < ALPHABET_LEN,
            forall|j: int| 0 <= j < k ==> is_code_char(#[trigger] r@[j]),
            forall|j: int| 0 <= j < k ==> r@[j] as u32 == alphabet_code_point(indices@[j] as int),
        decreases indices@.len() - k,
    {
        let c = alphabet_char(indices[k]);
        push_char(&mut r, c);
        k = k + 1;
    }
    r
}

/// A fresh candidate code of `length` symbols, each drawn uniformly from `[A-Za-z0-9]`.
pub fn generate_candidate(length: usize) -> (r: String)
    ensures
        r@.len() == length,
        is_alphanumeric(r@),
{
    let mut indices: Vec<u8> = Vec::new();
    let mut k: usize = 0;
    while k < length
        invariant
            k <= length,
            indices@.len() == k,
            forall|j: int| 0 <= j < k ==> indices@[j] < ALPHABET_LEN,
        decreases length - k,
    {
        indices.push(random_below(ALPHABET_LEN));
        k = k + 1;
    }
    code_from_indices(&indices)
}

} // verus!
