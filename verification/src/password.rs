//! Password hashing with bcrypt, by `pwhash`.
use vstd::prelude::*;

verus! {

/// Whether `password` matches the bcrypt hash `hash`, as
/// `pwhash::bcrypt::verify` decides it.
pub uninterp spec fn bcrypt_verifies(password: Seq<char>, hash: Seq<char>) -> bool;

/// The prefix of the hashes that `pwhash::bcrypt::hash` makes: variant
/// 2b, cost 10.
pub open spec fn bcrypt_prefix() -> Seq<char> {
    seq!['$', '2', 'b', '$', '1', '0', '$']
}

/// Calls `pwhash::bcrypt::hash`, which hashes the password with a random
/// salt, cost 10 and variant 2b. In the crate's source it never fails;
/// the hash is `$2b$10$` followed by 22 characters of salt and 31 of
/// checksum, and `verify` recomputes the checksum with the salt and cost
/// read from the hash, so the same password always verifies against it.
/// Salt and checksum are written in bcrypt's base-64 alphabet (`.`, `/`,
/// letters and digits), so every character of the hash is ASCII and
/// printable.
/// Which salt is drawn is left to chance.
#[verifier::external_body]
pub(crate) fn bcrypt_hash(password: &String) -> (r: String)
    ensures
        bcrypt_verifies(password@, r@),
        is_checkable_hash(r@),
        r@.len() == 60,
        r@.take(7) == bcrypt_prefix(),
{
    pwhash::bcrypt::hash(password.as_bytes()).unwrap()
}

/// The characters that `pwhash` can take in a stored hash without
/// failing hard. When it reads the salt of a hash, it subtracts 0x20 from
/// each character's code, which overflows below U+0020, and it indexes a
/// table of 96 entries that U+0080 runs past; every other character is
/// either decoded or refused with an error.
pub open spec fn is_hash_char(c: char) -> bool {
    ' ' <= c && c != '\u{80}'
}

/// Every character of `hash` is one that `pwhash` can take.
pub open spec fn is_checkable_hash(hash: Seq<char>) -> bool {
    forall|i: int| 0 <= i < hash.len() ==> is_hash_char(#[trigger] hash[i])
}

/// Whether a password can be checked against the stored hash `hash`
/// (see [`is_checkable_hash`]).
pub fn checkable_hash(hash: &str) -> (r: bool)
    ensures
        r == is_checkable_hash(hash@),
{
    let n: usize = hash.unicode_len();
    let mut i: usize = 0;
    while i < n
        invariant
            n == hash@.len(),
            i <= n,
            forall|k: int| 0 <= k < i ==> is_hash_char(#[trigger] hash@[k]),
        decreases n - i,
    {
        let c = hash.get_char(i);
        if !(' ' <= c && c != '\u{80}') {
            return false;
        }
        i = i + 1;
    }
    true
}

/// Calls `pwhash::bcrypt::verify`; the result is named `bcrypt_verifies`.
/// The hash must be made of characters that `pwhash` can take (see
/// [`is_hash_char`]); on others it may panic.
#[verifier::external_body]
pub(crate) fn bcrypt_verify(password: &String, hash: &String) -> (r: bool)
    requires
        is_checkable_hash(hash@),
    ensures
        r == bcrypt_verifies(password@, hash@),
{
    pwhash::bcrypt::verify(password.as_bytes(), hash.as_str())
}

} // verus!
