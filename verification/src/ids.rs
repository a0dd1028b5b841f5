//! Fresh identifiers and random draws, from the `uuid` and `rand` crates,
//! and salted password hashes from the `bcrypt` crate.
use vstd::prelude::*;
use rand::Rng;
use crate::text::decimal_text;

verus! {

/// Calls `uuid::Uuid::new_v4` and returns the identifier's 128-bit value.
/// The value is random; what the crate's source shows of every outcome is
/// that the version nibble is 4 and the variant bits are `10`, which this
/// contract states (so the value is never the nil identifier).
#[verifier::external_body]
pub(crate) fn new_uuid() -> (r: u128)
    ensures
        r & 0x0000_0000_0000_f000_c000_0000_0000_0000u128
            == 0x0000_0000_0000_4000_8000_0000_0000_0000u128,
{
    uuid::Uuid::new_v4().as_u128()
}

/// Calls `rand::Rng::gen_range` with the range `low..high` on the thread's
/// generator (`rand::thread_rng`). The value is random; the crate's
/// documentation promises it lies in the range, which is all that is stated.
/// The call panics on an empty range, which `requires` excludes.
#[verifier::external_body]
pub(crate) fn random_in_range(low: i64, high: i64) -> (r: i64)
    requires
        low < high,
    ensures
        low <= r < high,
{
    rand::thread_rng().gen_range(low..high)
}

/// The cost of a hash as bcrypt writes it: two digits.
pub open spec fn cost_text(cost: u32) -> Seq<char> {
    if cost < 10 { "0"@ + decimal_text(cost as nat) } else { decimal_text(cost as nat) }
}

/// Names whether `bcrypt::verify(password, hash)` gives `Ok(true)`: the hash
/// is well formed and re-hashing the password with its cost and salt gives
/// it back. It depends on the password and the hash alone.
pub uninterp spec fn bcrypt_verifies(password: Seq<char>, hash: Seq<char>) -> bool;

/// Calls `bcrypt::hash(password, cost)`, which salts the password with 16
/// bytes from the system's random source. What the crate's source shows, and
/// this contract states: a cost outside 4 to 31 is refused, and a hash is 60
/// characters long, starts with `$2b$`, the cost in two digits and `$`, and
/// verifies the password (`verify` re-hashes it with the cost and salt the
/// hash holds). The salt and so the rest of the text are random and not
/// stated; an error comes back as the text of bcrypt's error (the cost
/// refused, or the random source failing), which is not stated either.
#[verifier::external_body]
pub(crate) fn hash_password(password: &str, cost: u32) -> (r: Result<String, String>)
    ensures
        !(4 <= cost <= 31) ==> r is Err,
        r matches Ok(h) ==> h@.len() == 60 && h@.subrange(0, 7) == "$2b$"@ + cost_text(cost) + "$"@,
        r matches Ok(h) ==> bcrypt_verifies(password@, h@),
{
    match bcrypt::hash(password, cost) {
        Ok(h) => Ok(h),
        Err(e) => Err(e.to_string()),
    }
}

/// Calls `bcrypt::verify(password, hash)` and reads an error (a malformed
/// hash) as a refusal: true exactly when the name says the hash verifies the
/// password.
#[verifier::external_body]
pub(crate) fn verify_password(password: &str, hash: &str) -> (r: bool)
    ensures
        r == bcrypt_verifies(password@, hash@),
{
    bcrypt::verify(password, hash).unwrap_or(false)
}

} // verus!
