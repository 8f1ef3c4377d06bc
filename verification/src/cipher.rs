//! Per-file authenticated encryption: the on-disk framing
//! `nonce(12) ++ ciphertext ++ tag(16)` under one derived key.

use crate::kdf::DerivedKey;
use vstd::prelude::*;
use vstd::slice::{slice_subrange, slice_to_vec};

verus! {

/// Number of nonce bytes prepended to every encrypted file.
pub const NONCE_LEN: usize = 12;

/// Number of authentication-tag bytes appended to every encrypted file.
pub const TAG_LEN: usize = 16;

/// Longest plaintext AES-256-GCM seals under one nonce:
/// `((1 << 39) - 256) / 8` bytes.
pub const MAX_PLAINTEXT_LEN: u64 = 68719476704;

/// Why one file's transform failed.
#[derive(Clone, Copy, PartialEq, Eq, Structural, Debug)]
pub enum CipherError {
    /// The plaintext exceeds [`MAX_PLAINTEXT_LEN`] bytes.
    PlaintextTooLong,
    /// The system random number generator failed to yield a nonce.
    RandomFailure,
    /// The blob is truncated, was tampered with, or the key is wrong
    /// (wrong password or wrong salt); the engine cannot tell these apart.
    AuthenticationFailure,
}

/// The ciphertext-and-tag that AES-256-GCM (empty associated data) produces
/// for a given key, nonce and plaintext. Deterministic in exactly those three
/// inputs.
pub uninterp spec fn gcm_seal_of(key: Seq<u8>, nonce: Seq<u8>, pt: Seq<u8>) -> Seq<u8>;

/// The on-disk shape of one encrypted file: `blob` carries a [`NONCE_LEN`]-byte
/// nonce followed by the ciphertext-and-tag that sealing plaintext `pt` under
/// `key` and that nonce produces.
pub open spec fn blob_wf(key: Seq<u8>, blob: Seq<u8>, pt: Seq<u8>) -> bool {
    &&& pt.len() <= MAX_PLAINTEXT_LEN
    &&& blob.len() == pt.len() + NONCE_LEN + TAG_LEN
    &&& blob.skip(NONCE_LEN as int) == gcm_seal_of(key, blob.take(NONCE_LEN as int), pt)
}

/// Whether some plaintext authenticates against `blob` under `key`; decryption
/// succeeds on exactly these blobs.
pub open spec fn openable(key: Seq<u8>, blob: Seq<u8>) -> bool {
    exists|pt: Seq<u8>| blob_wf(key, blob, pt)
}

/// Relies on ring's AES-256-GCM `LessSafeKey::seal_in_place_append_tag` with
/// empty associated data: the result is the ciphertext (as long as the
/// plaintext) followed by the 16-byte tag, a deterministic function of key,
/// nonce and plaintext alone; it succeeds on every plaintext no longer than
/// [`MAX_PLAINTEXT_LEN`].
#[verifier::external_body]
fn gcm_seal(key: &DerivedKey, nonce: &[u8], data: &[u8]) -> (r: Vec<u8>)
    requires
        key.wf(),
        nonce@.len() == NONCE_LEN,
        data@.len() <= MAX_PLAINTEXT_LEN,
    ensures
        r@ == gcm_seal_of(key@, nonce@, data@),
        r@.len() == data@.len() + TAG_LEN,
{
    let unbound = ring::aead::UnboundKey::new(&ring::aead::AES_256_GCM, key.bytes.as_slice())
        .expect("AES-256-GCM takes a 32-byte key");
    let sealing_key = ring::aead::LessSafeKey::new(unbound);
    let n = ring::aead::Nonce::try_assume_unique_for_key(nonce).expect("nonce is 12 bytes");
    let mut buf = data.to_vec();
    sealing_key
        .seal_in_place_append_tag(n, ring::aead::Aad::empty(), &mut buf)
        .expect("plaintext is within the AES-GCM length bound");
    buf
}

/// Relies on ring's AES-256-GCM `LessSafeKey::open_in_place` with empty
/// associated data: it succeeds exactly on a ciphertext-and-tag that sealing
/// some plaintext under the same key and nonce produces, and then returns that
/// plaintext; on every other input it fails without returning data.
#[verifier::external_body]
fn gcm_open(key: &DerivedKey, nonce: &[u8], data: &[u8]) -> (r: Result<Vec<u8>, ()>)
    requires
        key.wf(),
        nonce@.len() == NONCE_LEN,
    ensures
        r matches Ok(pt) ==> pt@.len() <= MAX_PLAINTEXT_LEN
            && pt@.len() + TAG_LEN == data@.len()
            && data@ == gcm_seal_of(key@, nonce@, pt@),
        r matches Ok(p) ==> forall|pt: Seq<u8>|
            pt.len() <= MAX_PLAINTEXT_LEN && data@ == #[trigger] gcm_seal_of(key@, nonce@, pt)
                ==> p@ == pt,
        r is Err ==> forall|pt: Seq<u8>|
            pt.len() <= MAX_PLAINTEXT_LEN
                ==> data@ != #[trigger] gcm_seal_of(key@, nonce@, pt),
{
    let unbound = ring::aead::UnboundKey::new(&ring::aead::AES_256_GCM, key.bytes.as_slice())
        .expect("AES-256-GCM takes a 32-byte key");
    let opening_key = ring::aead::LessSafeKey::new(unbound);
    let n = ring::aead::Nonce::try_assume_unique_for_key(nonce).expect("nonce is 12 bytes");
    let mut buf = data.to_vec();
    let pt_len = match opening_key.open_in_place(n, ring::aead::Aad::empty(), &mut buf) {
        Ok(pt) => pt.len(),
        Err(_) => return Err(()),
    };
    buf.truncate(pt_len);
    Ok(buf)
}

/// Seals `pt` under `key` and the given nonce: the result is
/// `nonce ++ ciphertext ++ tag`. Takes the nonce as an argument so that its
/// contract is exact for every nonce value the generator hands back.
pub fn seal_with_nonce(key: &DerivedKey, nonce: &[u8], pt: &[u8]) -> (blob: Vec<u8>)
    requires
        key.wf(),
        nonce@.len() == NONCE_LEN,
        pt@.len() <= MAX_PLAINTEXT_LEN,
    ensures
        blob@ == nonce@ + gcm_seal_of(key@, nonce@, pt@),
        blob_wf(key@, blob@, pt@),
{
    let mut blob = slice_to_vec(nonce);
    let mut sealed = gcm_seal(key, nonce, pt);
    proof {
        lemma_seal_then_open(key@, nonce@, sealed@, pt@);
    }
    blob.append(&mut sealed);
    blob
}

/// Round trip, at the framing level: a blob assembled as `nonce ++ sealed`,
/// where `sealed` is what sealing plaintext `pt` under `key` and that nonce
/// produces, authenticates — and, by [`open_file`]'s contract, opens — for
/// exactly `pt`. Together with [`seal_file`]'s contract this states that
/// opening what sealing produced returns the original content, for every
/// content including the empty one and under every key.
pub proof fn lemma_seal_then_open(key: Seq<u8>, nonce: Seq<u8>, sealed: Seq<u8>, pt: Seq<u8>)
    requires
        nonce.len() == NONCE_LEN,
        sealed == gcm_seal_of(key, nonce, pt),
        sealed.len() == pt.len() + TAG_LEN,
        pt.len() <= MAX_PLAINTEXT_LEN,
    ensures
        blob_wf(key, nonce + sealed, pt),
        openable(key, nonce + sealed),
{
    assert((nonce + sealed).take(NONCE_LEN as int) =~= nonce);
    assert((nonce + sealed).skip(NONCE_LEN as int) =~= sealed);
}

/// Encrypt direction: draws a fresh random nonce and returns
/// `nonce ++ ciphertext ++ tag`, 28 bytes longer than the plaintext. The nonce
/// is random by design, so two calls on the same plaintext are not related by
/// this contract. Fails exactly on a plaintext longer than
/// [`MAX_PLAINTEXT_LEN`], or when the random generator fails.
pub fn seal_file(key: &DerivedKey, pt: &[u8]) -> (r: Result<Vec<u8>, CipherError>)
    requires
        key.wf(),
    ensures
        r matches Ok(blob) ==> blob_wf(key@, blob@, pt@)
            && blob@.len() == pt@.len() + NONCE_LEN + TAG_LEN,
        r matches Err(e) ==> (e is PlaintextTooLong <==> pt@.len() > MAX_PLAINTEXT_LEN),
        r matches Err(e) ==> e is PlaintextTooLong || e is RandomFailure,
        pt@.len() > MAX_PLAINTEXT_LEN ==> r is Err,
{
    if pt.len() as u64 > MAX_PLAINTEXT_LEN {
        return Err(CipherError::PlaintextTooLong);
    }
    match crate::rng::random_bytes(NONCE_LEN) {
        Ok(nonce) => Ok(seal_with_nonce(key, nonce.as_slice(), pt)),
        Err(_) => Err(CipherError::RandomFailure),
    }
}

/// Decrypt direction: splits `blob` into the first [`NONCE_LEN`] bytes and the
/// ciphertext-and-tag, then authenticates and decrypts. Succeeds exactly on
/// the blobs that sealing some plaintext under `key` produces, and then
/// returns exactly that plaintext (round trip); every other blob — truncated,
/// tampered with anywhere, or sealed under another key — fails closed with
/// an authentication failure and no partially decrypted bytes.
pub fn open_file(key: &DerivedKey, blob: &[u8]) -> (r: Result<Vec<u8>, CipherError>)
    requires
        key.wf(),
    ensures
        r is Ok <==> openable(key@, blob@),
        r matches Ok(pt) ==> blob_wf(key@, blob@, pt@),
        forall|pt: Seq<u8>|
            #[trigger] blob_wf(key@, blob@, pt) ==> (r matches Ok(p) && p@ == pt),
        blob@.len() < NONCE_LEN + TAG_LEN ==> r is Err,
        r matches Err(e) ==> e is AuthenticationFailure,
{
    if blob.len() < NONCE_LEN + TAG_LEN {
        proof {
            assert(forall|pt: Seq<u8>| !(#[trigger] blob_wf(key@, blob@, pt)));
        }
        return Err(CipherError::AuthenticationFailure);
    }
    let nonce = slice_subrange(blob, 0, NONCE_LEN);
    let ct = slice_subrange(blob, NONCE_LEN, blob.len());
    proof {
        assert(nonce@ =~= blob@.take(NONCE_LEN as int));
        assert(ct@ =~= blob@.skip(NONCE_LEN as int));
    }
    match gcm_open(key, nonce, ct) {
        Ok(pt) => {
            proof {
                assert(blob_wf(key@, blob@, pt@));
                assert forall|q: Seq<u8>| #[trigger] blob_wf(key@, blob@, q) implies pt@ == q by {
                    assert(ct@ == gcm_seal_of(key@, nonce@, q));
                }
            }
            Ok(pt)
        },
        Err(_) => {
            proof {
                assert forall|pt: Seq<u8>| !(#[trigger] blob_wf(key@, blob@, pt)) by {
                    if blob_wf(key@, blob@, pt) {
                        assert(ct@ == gcm_seal_of(key@, nonce@, pt));
                        assert(false);
                    }
                }
            }
            Err(CipherError::AuthenticationFailure)
        },
    }
}

} // verus!
