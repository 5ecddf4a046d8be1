//! Password hashing with Argon2 (`argon2` crate, PHC string format) and the
//! RSA key pair that a login session is given (`rsa` crate).

use argon2::{Argon2, PasswordHash, PasswordHasher, PasswordVerifier};
use password_hash::{rand_core::OsRng, Encoding, SaltString};
use rsa::pkcs8::{DecodePrivateKey, EncodePrivateKey, EncodePublicKey, LineEnding};
use vstd::prelude::*;
use vstd::string::StringSliceAdditionalSpecFns;

verus! {

/// What checking `password` against the PHC string `stored` with
/// `argon2::Argon2::default()` gives: `None` where `PasswordHash::parse`
/// rejects the string, otherwise whether the password matches.
pub uninterp spec fn argon2_verifies(stored: Seq<char>, password: Seq<char>) -> Option<bool>;

/// Hashes `password` with `argon2::Argon2::default()` and a fresh random salt
/// (`SaltString::generate(&mut OsRng)`), as a PHC string. Trusted: the hash is
/// random, but checking the same password against it succeeds, since the
/// check recomputes the hash with the salt and parameters the string records.
/// Argon2 refuses passwords longer than `u32::MAX` bytes; `requires` keeps them out.
#[verifier::external_body]
pub fn hash_password(password: &str) -> (res: String)
    requires
        password.spec_bytes().len() <= 0xFFFF_FFFF,
    ensures
        argon2_verifies(res@, password@) == Some(true),
{
    let salt = SaltString::generate(&mut OsRng);
    Argon2::default().hash_password(password.as_bytes(), salt.as_salt()).unwrap().to_string()
}

/// Checks `password` against the PHC string `stored` with
/// `PasswordHash::parse(stored, Encoding::B64)` and
/// `Argon2::default().verify_password`. Trusted: the result is the named check.
#[verifier::external_body]
pub(crate) fn verify_password(stored: &str, password: &str) -> (res: Option<bool>)
    ensures
        res == argon2_verifies(stored@, password@),
{
    match PasswordHash::parse(stored, Encoding::B64) {
        Ok(hash) => Some(Argon2::default().verify_password(password.as_bytes(), &hash).is_ok()),
        Err(_) => None,
    }
}

/// What reading `private_key_pem` with `rsa::RsaPrivateKey::from_pkcs8_pem`,
/// taking its public half with `rsa::RsaPublicKey::from`, and writing that
/// with `to_public_key_pem(LineEnding::LF)` gives, for a text that is such a
/// private key.
pub uninterp spec fn rsa_public_key_pem(private_key_pem: Seq<char>) -> Seq<char>;

/// Generates a 2048-bit RSA key pair with `rsa::RsaPrivateKey::new` and
/// `rand::thread_rng()`, and gives the private key as PKCS#8 PEM and the
/// public key as SubjectPublicKeyInfo PEM, both with LF line endings.
/// Trusted: the keys are random, but the second text is the public key of
/// the first (PKCS#8 holds the modulus and exponents, so reading the first
/// text back gives the same public half).
#[verifier::external_body]
pub(crate) fn new_session_keys() -> (res: (String, String))
    ensures
        res.1@ == rsa_public_key_pem(res.0@),
{
    let mut rng = rand::thread_rng();
    let private_key = rsa::RsaPrivateKey::new(&mut rng, 2048).unwrap();
    let public_key = rsa::RsaPublicKey::from(&private_key);
    let private_pem = private_key.to_pkcs8_pem(LineEnding::LF).unwrap().to_string();
    let public_pem = public_key.to_public_key_pem(LineEnding::LF).unwrap();
    (private_pem, public_pem)
}


/// What reading `private_key_pem` with `rsa::RsaPrivateKey::from_pkcs8_pem`
/// and decrypting `ciphertext` with it under `rsa::Pkcs1v15Encrypt` gives:
/// `None` where the text is not such a key or the decryption fails.
pub uninterp spec fn rsa_pkcs1v15_decryption(private_key_pem: Seq<char>, ciphertext: Seq<u8>) -> Option<Seq<u8>>;

/// Reads a PKCS#8 PEM private key with `rsa::RsaPrivateKey::from_pkcs8_pem`
/// and decrypts `ciphertext` with `RsaPrivateKey::decrypt(Pkcs1v15Encrypt, ..)`,
/// which uses no random blinding. Trusted: the result is the named decryption.
#[verifier::external_body]
pub(crate) fn rsa_decrypt(private_key_pem: &str, ciphertext: &[u8]) -> (res: Option<Vec<u8>>)
    ensures
        res matches Some(p) ==> rsa_pkcs1v15_decryption(private_key_pem@, ciphertext@) == Some(p@),
        res is None ==> rsa_pkcs1v15_decryption(private_key_pem@, ciphertext@) is None,
{
    match rsa::RsaPrivateKey::from_pkcs8_pem(private_key_pem) {
        Ok(key) => key.decrypt(rsa::Pkcs1v15Encrypt, ciphertext).ok(),
        Err(_) => None,
    }
}

} // verus!
