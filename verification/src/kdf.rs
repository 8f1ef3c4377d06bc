//! Key derivation: password and salt to one fixed-length symmetric key.

use vstd::prelude::*;

verus! {

/// Number of raw salt bytes; the sentinel file holds exactly this many.
pub const SALT_LEN: usize = 32;

/// Number of bytes of the derived symmetric key (the AES-256-GCM key size).
pub const KEY_LEN: usize = 32;

/// Longest password, in bytes, that the password-hashing primitive accepts.
pub const MAX_PASSWORD_LEN: usize = 0xFFFF_FFFF;

/// Why a key or a salt could not be produced.
#[derive(Clone, Copy, PartialEq, Eq, Structural, Debug)]
pub enum KdfError {
    /// The system random number generator failed.
    RandomFailure,
    /// The password hash could not be computed (working memory could not be
    /// allocated, or the password exceeds [`MAX_PASSWORD_LEN`]).
    DerivationFailure,
}

/// The random value mixed into key derivation, persisted verbatim as the
/// sentinel file's content; always exactly [`SALT_LEN`] bytes.
pub struct Salt {
    bytes: Vec<u8>,
}

impl View for Salt {
    type V = Seq<u8>;

    closed spec fn view(&self) -> Seq<u8> {
        self.bytes@
    }
}

impl Salt {
    pub open spec fn wf(&self) -> bool {
        self@.len() == SALT_LEN
    }

    /// Builds a salt from raw bytes; succeeds exactly on [`SALT_LEN`]-byte input.
    pub fn from_bytes(bytes: Vec<u8>) -> (r: Option<Salt>)
        ensures
            bytes@.len() == SALT_LEN ==> (r matches Some(s) && s@ == bytes@ && s.wf()),
            bytes@.len() != SALT_LEN ==> r is None,
    {
        if bytes.len() == SALT_LEN {
            Some(Salt { bytes })
        } else {
            None
        }
    }

    /// The raw salt bytes, as they are persisted in the sentinel file.
    pub fn as_bytes(&self) -> (r: &[u8])
        ensures
            r@ == self@,
    {
        self.bytes.as_slice()
    }
}

/// The ephemeral symmetric key of one run; always exactly [`KEY_LEN`] bytes.
pub struct DerivedKey {
    pub(crate) bytes: Vec<u8>,
}

impl View for DerivedKey {
    type V = Seq<u8>;

    closed spec fn view(&self) -> Seq<u8> {
        self.bytes@
    }
}

impl DerivedKey {
    pub open spec fn wf(&self) -> bool {
        self@.len() == KEY_LEN
    }
}

/// The [`KEY_LEN`]-byte Argon2id output (default parameters of the argon2
/// crate, version 0x13) for a given password and salt. Deterministic in both
/// inputs and in nothing else.
pub uninterp spec fn argon2_key_of(password: Seq<u8>, salt: Seq<u8>) -> Seq<u8>;

/// Relies on argon2's `Argon2::hash_password_into` with the crate's default
/// parameters: the output bytes are a deterministic function of the password
/// and the salt alone. With a [`SALT_LEN`]-byte salt and a [`KEY_LEN`]-byte
/// output buffer it fails only when the password exceeds [`MAX_PASSWORD_LEN`]
/// or the algorithm's working memory cannot be allocated.
#[verifier::external_body]
fn argon2_hash(password: &[u8], salt: &[u8]) -> (r: Result<Vec<u8>, ()>)
    requires
        salt@.len() == SALT_LEN,
    ensures
        r matches Ok(k) ==> k@ == argon2_key_of(password@, salt@) && k@.len() == KEY_LEN,
        password@.len() > MAX_PASSWORD_LEN ==> r is Err,
{
    let mut key = vec![0u8; KEY_LEN];
    argon2::Argon2::default()
        .hash_password_into(password, salt, &mut key)
        .map_err(|_| ())?;
    Ok(key)
}

/// Turns `(password, salt)` into the symmetric key of one run. Deterministic
/// and side-effect-free: equal inputs always yield the equal key
/// [`argon2_key_of`]`(password, salt)`. Fails only as a fatal configuration
/// error, never per file: when the password is longer than
/// [`MAX_PASSWORD_LEN`] bytes or the hash's working memory cannot be
/// allocated.
pub fn derive_key(password: &[u8], salt: &Salt) -> (r: Result<DerivedKey, KdfError>)
    requires
        salt.wf(),
    ensures
        r matches Ok(k) ==> k.wf() && k@ == argon2_key_of(password@, salt@),
        password@.len() > MAX_PASSWORD_LEN ==> r is Err,
        r matches Err(e) ==> e is DerivationFailure,
{
    match argon2_hash(password, salt.as_bytes()) {
        Ok(bytes) => Ok(DerivedKey { bytes }),
        Err(_) => Err(KdfError::DerivationFailure),
    }
}

/// Produces a fresh salt from the system CSPRNG; called once per tree, at
/// first encryption. Nothing is promised of the bytes' values.
pub fn generate_salt() -> (r: Result<Salt, KdfError>)
    ensures
        r matches Ok(s) ==> s.wf(),
        r matches Err(e) ==> e is RandomFailure,
{
    match crate::rng::random_bytes(SALT_LEN) {
        Ok(bytes) => Ok(Salt { bytes }),
        Err(_) => Err(KdfError::RandomFailure),
    }
}

/// Determinism of derivation: the same password and the same salt always
/// derive the same key. (That distinct passwords or salts yield distinct keys
/// holds only with overwhelming probability and is not stated here.)
pub proof fn lemma_derivation_deterministic(p1: Seq<u8>, s1: Seq<u8>, p2: Seq<u8>, s2: Seq<u8>)
    requires
        p1 == p2,
        s1 == s2,
    ensures
        argon2_key_of(p1, s1) == argon2_key_of(p2, s2),
{
}

} // verus!
