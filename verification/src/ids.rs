//! Fresh identifiers for new rows, drawn at random by `nanoid`.
use vstd::prelude::*;

verus! {

/// The characters of nanoid's URL-safe alphabet.
pub open spec fn is_url_safe(c: char) -> bool {
    ('a' <= c <= 'z') || ('A' <= c <= 'Z') || ('0' <= c <= '9') || c == '_' || c == '-'
}

/// An id of `size` characters drawn from nanoid's URL-safe alphabet.
pub open spec fn is_nanoid(s: Seq<char>, size: nat) -> bool {
    s.len() == size && forall|i: int| 0 <= i < s.len() ==> is_url_safe(#[trigger] s[i])
}

/// Calls `nanoid::format` with the default random source and the URL-safe
/// alphabet `nanoid::alphabet::SAFE`, which is what the `nanoid!` macro
/// does. The crate's source pushes symbols of that alphabet until the
/// string holds `size` of them, so the result is `size` characters long
/// and all of them are URL-safe; which ones is left to chance. With
/// `size` 0 that loop would never end, hence the `requires`.
#[verifier::external_body]
fn nanoid_format(size: usize) -> (r: String)
    requires
        size > 0,
    ensures
        is_nanoid(r@, size as nat),
{
    nanoid::format(nanoid::rngs::default, &nanoid::alphabet::SAFE, size)
}

/// A fresh id for a row: 21 URL-safe characters.
pub fn new_id() -> (r: String)
    ensures
        is_nanoid(r@, 21),
{
    nanoid_format(21)
}

/// A fresh id for a session token: 128 URL-safe characters.
pub fn new_token_id() -> (r: String)
    ensures
        is_nanoid(r@, 128),
{
    nanoid_format(128)
}

} // verus!
