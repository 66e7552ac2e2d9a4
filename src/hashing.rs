//! One-way hashing of passwords.

use vstd::prelude::*;

verus! {

/// What bcrypt's verification says of a password against a stored hash: `Some(true)` on a
/// match, `Some(false)` on a mismatch, `None` when the hash is malformed.
pub uninterp spec fn bcrypt_verdict(password: Seq<char>, hash: Seq<char>) -> Option<bool>;

/// Relies on bcrypt::verify: it decides from the password and the hash alone, and fails on a
/// malformed hash.
#[verifier::external_body]
fn bcrypt_verify(password: &str, hash: &str) -> (r: Option<bool>)
    ensures
        r == bcrypt_verdict(password@, hash@),
{
    bcrypt::verify(password, hash).ok()
}

/// Relies on bcrypt::hash: a hash under a freshly drawn salt, or `None` where bcrypt fails. A
/// hash it returns is one that bcrypt::verify accepts for the same password.
#[verifier::external_body]
fn bcrypt_hash(password: &str, cost: u32) -> (r: Option<String>)
    ensures
        r is Some ==> bcrypt_verdict(password@, r->Some_0@) == Some(true),
{
    bcrypt::hash(password, cost).ok()
}

/// The work factor of new hashes.
pub const HASH_COST: u32 = 12;

/// A hasher turns plain passwords into one-way hashes and checks passwords against them.
pub trait Hasher {
    /// Hash a plain password, `None` when hashing failed.
    fn hash(&self, password: &str) -> Option<String>;

    /// Check a plain password against a hash, `None` when the hash is malformed.
    fn verify(&self, password: &str, hash: &str) -> Option<bool>;
}

/// The bcrypt hasher.
pub struct BcryptHasher {
    pub cost: u32,
}

impl BcryptHasher {
    /// Hash a plain password under a random salt.
    pub fn hash_password(&self, password: &str) -> (r: Option<String>)
        ensures
            r is Some ==> bcrypt_verdict(password@, r->Some_0@) == Some(true),
    {
        bcrypt_hash(password, self.cost)
    }

    /// Check a plain password against a stored hash.
    pub fn verify_password(&self, password: &str, hash: &str) -> (r: Option<bool>)
        ensures
            r == bcrypt_verdict(password@, hash@),
    {
        bcrypt_verify(password, hash)
    }
}

impl Hasher for BcryptHasher {
    fn hash(&self, password: &str) -> Option<String> {
        self.hash_password(password)
    }

    fn verify(&self, password: &str, hash: &str) -> Option<bool> {
        self.verify_password(password, hash)
    }
}

/// Create the bcrypt hasher with the default work factor.
pub fn new_hasher() -> (r: BcryptHasher)
    ensures
        r.cost == HASH_COST,
{
    BcryptHasher { cost: HASH_COST }
}

} // verus!
