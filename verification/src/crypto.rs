//! The randomness and password hashing the verification codes rely on, from
//! the `rand` and `argon2` crates.
use vstd::prelude::*;

verus! {

/// Whether `text` is a password hash in the PHC string format that
/// `argon2::PasswordHash::new` accepts.
pub uninterp spec fn phc_hash_parses(text: Seq<char>) -> bool;

/// What Argon2 (default parameters) answers when `password` is checked
/// against the PHC hash `hash`: `Some(true)` when it matches, `Some(false)`
/// when it does not, `None` when the check itself fails.
pub uninterp spec fn argon2_verdict(hash: Seq<char>, password: Seq<char>) -> Option<bool>;

/// A uniformly drawn number from `0..=999_999`: a `StdRng` seeded from the
/// operating system's random source (`SeedableRng::try_from_rng` on
/// `SysRng`), then `RngExt::random_range` on that non-empty range. `None`
/// when the operating system's random source fails. Only the range is
/// claimed: the value is random, and whether the source fails rests on the
/// machine.
#[verifier::external_body]
pub(crate) fn random_six_digit_number() -> (r: Option<u32>)
    ensures
        r matches Some(n) ==> n <= 999_999,
{
    match <rand::rngs::StdRng as rand::SeedableRng>::try_from_rng(&mut rand::rngs::SysRng) {
        Ok(mut rng) => Some(rand::RngExt::random_range(&mut rng, 0..=999_999u32)),
        Err(_) => None,
    }
}

/// `Argon2::default().hash_password(password)` with a fresh random salt,
/// serialized in the PHC string format; on failure the error's text.
/// Claimed: the hash parses again and Argon2 accepts `password` against it
/// (the hash was computed from this password with the salt and parameters it
/// records), and, as every PHC string written by `PasswordHash`'s `Display`,
/// it begins with `$`. The salt, and so the rest of the hash text, is random.
#[verifier::external_body]
pub(crate) fn argon2_hash(password: &str) -> (r: Result<String, String>)
    ensures
        r matches Ok(hash) ==> phc_hash_parses(hash@) && argon2_verdict(hash@, password@) == Some(
            true,
        ) && hash@.len() > 0 && hash@[0] == '$',
{
    match argon2::PasswordHasher::hash_password(&argon2::Argon2::default(), password.as_bytes()) {
        Ok(hash) => Ok(hash.to_string()),
        Err(error) => Err(error.to_string()),
    }
}

/// `argon2::PasswordHash::new(text)`: whether the text is a PHC hash; on
/// failure the parse error's text.
#[verifier::external_body]
pub(crate) fn parse_phc_hash(text: &str) -> (r: Result<(), String>)
    ensures
        r is Ok <==> phc_hash_parses(text@),
{
    match argon2::PasswordHash::new(text) {
        Ok(_) => Ok(()),
        Err(error) => Err(error.to_string()),
    }
}

/// `Argon2::default().verify_password(password, hash)`: `Ok(true)` when it
/// succeeds, `Ok(false)` on `password_hash::Error::PasswordInvalid`, and the
/// error's text on any other error.
#[verifier::external_body]
pub(crate) fn argon2_verify(hash: &str, password: &str) -> (r: Result<bool, String>)
    ensures
        r matches Ok(b) ==> argon2_verdict(hash@, password@) == Some(b),
        r is Err ==> argon2_verdict(hash@, password@) is None,
{
    match argon2::PasswordVerifier::verify_password(
        &argon2::Argon2::default(),
        password.as_bytes(),
        hash,
    ) {
        Ok(()) => Ok(true),
        Err(argon2::password_hash::Error::PasswordInvalid) => Ok(false),
        Err(error) => Err(error.to_string()),
    }
}

} // verus!
