//! The orchestrating logic: mode detection from the sentinel, the per-file
//! transform for the chosen mode, and the batch transform over a whole tree.

use crate::cipher::{self, blob_wf, openable, MAX_PLAINTEXT_LEN};
use crate::kdf::{DerivedKey, Salt, SALT_LEN};
use crate::report::{FileErrorKind, Outcome};
use vstd::prelude::*;

verus! {

/// The run's direction, decided by the sentinel's presence alone.
#[derive(Clone, Copy, PartialEq, Eq, Structural, Debug)]
pub enum Mode {
    Encrypt,
    Decrypt,
}

/// What a run must do, decided before any file is touched.
pub enum Plan {
    /// No sentinel: the tree is plaintext, encrypt it under a fresh salt.
    EncryptTree,
    /// A sentinel was found: the tree is ciphertext, decrypt it with the salt
    /// the sentinel carries.
    DecryptTree(Salt),
    /// The root is not a directory; nothing is touched.
    NotADirectory,
    /// A sentinel was found but holds fewer than [`SALT_LEN`] bytes; nothing
    /// is touched.
    MalformedSentinel,
}

/// Decides the run from what the caller saw at the tree root: whether the root
/// is a directory, and the sentinel file's content where one exists. A tree
/// with no sentinel is treated as plaintext (encrypt), one with a sentinel as
/// ciphertext (decrypt), regardless of any file's content; the salt is the
/// sentinel's first [`SALT_LEN`] bytes, kept verbatim.
pub fn plan_run(root_is_dir: bool, sentinel: Option<Vec<u8>>) -> (p: Plan)
    ensures
        !root_is_dir ==> p is NotADirectory,
        root_is_dir && sentinel is None ==> p is EncryptTree,
        sentinel matches Some(b) ==> (root_is_dir && b@.len() >= SALT_LEN ==> (
        p matches Plan::DecryptTree(s) && s@ == b@.take(SALT_LEN as int) && s.wf())),
        sentinel matches Some(b) ==> (root_is_dir && b@.len() < SALT_LEN
            ==> p is MalformedSentinel),
{
    if !root_is_dir {
        return Plan::NotADirectory;
    }
    match sentinel {
        None => Plan::EncryptTree,
        Some(bytes) => {
            if bytes.len() < SALT_LEN {
                Plan::MalformedSentinel
            } else {
                let mut prefix = bytes;
                prefix.truncate(SALT_LEN);
                match Salt::from_bytes(prefix) {
                    Some(salt) => Plan::DecryptTree(salt),
                    None => unreached(),
                }
            }
        },
    }
}

/// What a successful transform of one file's bytes means: sealing wraps the
/// input in the encrypted framing, opening recovers the plaintext the input
/// frames.
pub open spec fn transformed_ok(key: Seq<u8>, mode: Mode, input: Seq<u8>, output: Seq<u8>) -> bool {
    match mode {
        Mode::Encrypt => blob_wf(key, output, input),
        Mode::Decrypt => blob_wf(key, input, output),
    }
}

/// Transforms one file's bytes for the chosen mode: seals them when
/// encrypting, authenticates and opens them when decrypting. Fail-soft: an
/// error names the kind recorded in the report and leaves the caller free to
/// keep the original bytes.
pub fn transform_bytes(key: &DerivedKey, mode: Mode, data: &[u8]) -> (r: Result<
    Vec<u8>,
    FileErrorKind,
>)
    requires
        key.wf(),
    ensures
        r matches Ok(out) ==> transformed_ok(key@, mode, data@, out@),
        mode is Encrypt && data@.len() > MAX_PLAINTEXT_LEN ==> r is Err,
        mode is Encrypt ==> (r matches Err(k) ==> k is EncryptionFailure),
        mode is Decrypt ==> (r is Ok <==> openable(key@, data@)),
        mode is Decrypt && data@.len() < cipher::NONCE_LEN + cipher::TAG_LEN ==> r is Err,
        mode is Decrypt ==> forall|pt: Seq<u8>|
            #[trigger] blob_wf(key@, data@, pt) ==> (r matches Ok(p) && p@ == pt),
        mode is Decrypt ==> (r matches Err(k) ==> k is AuthenticationFailure),
{
    match mode {
        Mode::Encrypt => match cipher::seal_file(key, data) {
            Ok(blob) => Ok(blob),
            Err(_) => Err(FileErrorKind::EncryptionFailure),
        },
        Mode::Decrypt => match cipher::open_file(key, data) {
            Ok(pt) => Ok(pt),
            Err(_) => Err(FileErrorKind::AuthenticationFailure),
        },
    }
}

/// One regular file of the tree, as plain values: its path and its content.
pub struct FileEntry {
    pub path: String,
    pub data: Vec<u8>,
}

/// How one entry of the batch relates to its transformed self and its
/// outcome: the path is kept; on success the content is transformed for the
/// mode, on failure it is left untouched and the outcome names the kind; when
/// decrypting, success comes exactly on the blobs that authenticate.
pub open spec fn entry_transformed(
    key: Seq<u8>,
    mode: Mode,
    before: FileEntry,
    after: FileEntry,
    oc: Outcome,
) -> bool {
    &&& after.path@ == before.path@
    &&& oc.path@ == before.path@
    &&& (oc.error is None ==> transformed_ok(key, mode, before.data@, after.data@))
    &&& (oc.error is Some ==> after.data@ == before.data@)
    &&& (mode is Encrypt ==> {
        &&& (oc.error matches Some(k) ==> k is EncryptionFailure)
        &&& (before.data@.len() > MAX_PLAINTEXT_LEN ==> oc.error is Some)
    })
    &&& (mode is Decrypt ==> {
        &&& (oc.error is None <==> openable(key, before.data@))
        &&& (oc.error matches Some(k) ==> k is AuthenticationFailure)
    })
}

/// Transforms a whole tree's files, handed in as plain entries, for the chosen
/// mode: every entry is transformed independently under the one shared key,
/// a failed entry keeps its content and is recorded, and no entry's failure
/// stops the rest. Returns the new entries and one outcome per entry, both in
/// the order given.
pub fn transform_entries(key: &DerivedKey, mode: Mode, entries: Vec<FileEntry>) -> (r: (
    Vec<FileEntry>,
    Vec<Outcome>,
))
    requires
        key.wf(),
    ensures
        r.0@.len() == entries@.len(),
        r.1@.len() == entries@.len(),
        forall|i: int|
            0 <= i < entries@.len() ==> #[trigger] entry_transformed(
                key@,
                mode,
                entries@[i],
                r.0@[i],
                r.1@[i],
            ),
{
    let mut rest = entries;
    let mut out: Vec<FileEntry> = Vec::new();
    let mut ocs: Vec<Outcome> = Vec::new();
    let ghost all = rest@;
    while rest.len() > 0
        invariant
            key.wf(),
            out@.len() == ocs@.len(),
            out@.len() + rest@.len() == all.len(),
            rest@ == all.skip(out@.len() as int),
            forall|i: int|
                0 <= i < out@.len() ==> #[trigger] entry_transformed(
                    key@,
                    mode,
                    all[i],
                    out@[i],
                    ocs@[i],
                ),
        decreases rest@.len(),
    {
        let entry = rest.remove(0);
        let ghost done = out@.len() as int;
        proof {
            assert(all.skip(done)[0] == all[done]);
            assert(all.skip(done).skip(1) =~= all.skip(done + 1));
        }
        let FileEntry { path, data } = entry;
        match transform_bytes(key, mode, data.as_slice()) {
            Ok(new_data) => {
                out.push(FileEntry { path: path.clone(), data: new_data });
                ocs.push(Outcome { path, error: None });
            },
            Err(kind) => {
                out.push(FileEntry { path: path.clone(), data });
                ocs.push(Outcome { path, error: Some(kind) });
            },
        }
    }
    (out, ocs)
}

} // verus!
