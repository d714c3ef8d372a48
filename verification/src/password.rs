//! Argon2 password hashes in PHC string form, and the random values a new
//! account needs.

use vstd::prelude::*;
use argon2::password_hash::rand_core::OsRng;
use argon2::password_hash::{PasswordHash, PasswordHasher, PasswordVerifier, SaltString};
use argon2::Argon2;

verus! {

/// What `Argon2::default().hash_password(password, salt)` gives, as a PHC
/// string, or the text of its error (the salt given as B64 text).
pub uninterp spec fn argon2_hash(password: Seq<u8>, salt: Seq<char>) -> Result<Seq<char>, Seq<char>>;

/// The text of the error `PasswordHash::new(stored)` reports, or `None` when
/// `stored` parses as a PHC string.
pub uninterp spec fn phc_parse_error(stored: Seq<char>) -> Option<Seq<char>>;

/// Whether `Argon2::default().verify_password(password, &PasswordHash::new(stored))` succeeds.
pub uninterp spec fn argon2_accepts(password: Seq<u8>, stored: Seq<char>) -> bool;

/// A digit of the standard Base64 alphabet (`A`-`Z`, `a`-`z`, `0`-`9`, `+`, `/`).
pub open spec fn is_b64_digit(c: char) -> bool {
    let n = c as int;
    ||| 'A' as int <= n <= 'Z' as int
    ||| 'a' as int <= n <= 'z' as int
    ||| '0' as int <= n <= '9' as int
    ||| c == '+'
    ||| c == '/'
}

/// The unpadded standard Base64 text of 16 bytes: 22 digits, the last of
/// which carries only two bits (its low four bits are zero).
pub open spec fn is_salt_text(s: Seq<char>) -> bool {
    &&& s.len() == 22
    &&& forall|i: int| 0 <= i < 22 ==> #[trigger] is_b64_digit(s[i])
    &&& (s[21] == 'A' || s[21] == 'Q' || s[21] == 'g' || s[21] == 'w')
}

/// `password_hash`: `SaltString::generate(&mut OsRng)`, as text. The salt is
/// random; the contract claims only what every outcome has: the B64 text of
/// 16 random bytes (`Salt::RECOMMENDED_LENGTH`, encoded by `encode_b64`).
#[verifier::external_body]
pub(crate) fn random_salt() -> (salt: String)
    ensures
        is_salt_text(salt@),
{
    SaltString::generate(&mut OsRng).as_str().to_string()
}

/// `argon2`: `Argon2::default().hash_password(password, &SaltString::from_b64(salt)?)`,
/// rendered as a PHC string, or the error's text. The contract claims that
/// the outcome is the named `argon2_hash` of the password and the salt, and
/// that a hash it produces parses again and verifies for the same password
/// (the round trip the crate documents: the PHC string carries the
/// algorithm, version, parameters and salt that verification uses). With the
/// B64 text of 16 bytes as salt and a password of at most `0xFFFFFFFF` bytes
/// (`MAX_PWD_LEN`), hashing succeeds: the salt passes `Salt::from_b64`,
/// decodes to 16 bytes (at least `MIN_SALT_LEN`), and the default
/// parameters are valid. A longer password is refused (`Error::PwdTooLong`).
#[verifier::external_body]
pub(crate) fn hash_password(password: &[u8], salt: &str) -> (r: Result<String, String>)
    ensures
        match r {
            Ok(h) => {
                &&& argon2_hash(password@, salt@) == Ok::<Seq<char>, Seq<char>>(h@)
                &&& phc_parse_error(h@) is None
                &&& argon2_accepts(password@, h@)
            },
            Err(e) => argon2_hash(password@, salt@) == Err::<Seq<char>, Seq<char>>(e@),
        },
        is_salt_text(salt@) && password@.len() <= 0xFFFF_FFFF ==> r is Ok,
        password@.len() > 0xFFFF_FFFF ==> r is Err,
{
    match SaltString::from_b64(salt) {
        Ok(salt) => match Argon2::default().hash_password(password, &salt) {
            Ok(hash) => Ok(hash.to_string()),
            Err(e) => Err(e.to_string()),
        },
        Err(e) => Err(e.to_string()),
    }
}

/// `password_hash`: `PasswordHash::new(stored)`, reduced to its error's text.
/// The contract claims that the outcome is the named `phc_parse_error`.
#[verifier::external_body]
pub(crate) fn stored_hash_error(stored: &str) -> (r: Option<String>)
    ensures
        match r {
            None => phc_parse_error(stored@) is None,
            Some(e) => phc_parse_error(stored@) == Some(e@),
        },
{
    match PasswordHash::new(stored) {
        Ok(_) => None,
        Err(e) => Some(e.to_string()),
    }
}

/// `argon2`: `Argon2::default().verify_password(password, &PasswordHash::new(stored))`.
/// The contract claims that the answer is the named `argon2_accepts`. The
/// hash's own parameters drive the computation, so a stored hash that demands
/// more memory than the machine has cannot be verified; the hashes this
/// service stores use the crate's default parameters.
#[verifier::external_body]
pub(crate) fn verify_password(password: &[u8], stored: &str) -> (ok: bool)
    requires
        phc_parse_error(stored@) is None,
    ensures
        ok == argon2_accepts(password@, stored@),
{
    match PasswordHash::new(stored) {
        Ok(hash) => Argon2::default().verify_password(password, &hash).is_ok(),
        Err(_) => false,
    }
}

} // verus!
