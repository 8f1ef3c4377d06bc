//! Per-file outcomes and their aggregation into one run's report.

use vstd::prelude::*;

verus! {

/// The kind of one file's failure; a single file's failure never stops the
/// walk over the other files.
#[derive(Clone, Copy, PartialEq, Eq, Structural, Debug)]
pub enum FileErrorKind {
    /// The file's content could not be read.
    ReadError,
    /// The transformed content could not be written back.
    WriteError,
    /// Decryption rejected the blob: truncated, tampered with, or a wrong key.
    AuthenticationFailure,
    /// Encryption failed (plaintext too long, or no random nonce).
    EncryptionFailure,
}

/// What happened to one file: its path, and `None` for success or the kind of
/// failure.
pub struct Outcome {
    pub path: String,
    pub error: Option<FileErrorKind>,
}

/// One failed file in the report: its path and the kind of failure.
pub struct FileFailure {
    pub path: String,
    pub kind: FileErrorKind,
}

/// The aggregate result of one run: how many files succeeded, and each failed
/// file with the kind of its failure.
pub struct Report {
    pub succeeded: usize,
    pub failures: Vec<FileFailure>,
}

/// How many of the outcomes are successes.
pub open spec fn count_ok(s: Seq<Outcome>) -> nat
    decreases s.len(),
{
    if s.len() == 0 {
        0
    } else {
        count_ok(s.drop_last()) + if s.last().error is None {
            1nat
        } else {
            0nat
        }
    }
}

/// The failed outcomes, in order, each reduced to its path and error kind.
pub open spec fn failures_of(s: Seq<Outcome>) -> Seq<FileFailure>
    decreases s.len(),
{
    if s.len() == 0 {
        Seq::empty()
    } else {
        failures_of(s.drop_last()) + match s.last().error {
            Some(k) => seq![FileFailure { path: s.last().path, kind: k }],
            None => Seq::empty(),
        }
    }
}

/// Every outcome is either a success or a failure: the two tallies always add
/// up to the number of outcomes.
pub proof fn lemma_outcome_totals(s: Seq<Outcome>)
    ensures
        count_ok(s) + failures_of(s).len() == s.len(),
    decreases s.len(),
{
    if s.len() > 0 {
        lemma_outcome_totals(s.drop_last());
    }
}

/// Reduces the per-file outcomes of one walk into the run's report: the count
/// of successes and the list of failures, nothing dropped and nothing added.
pub fn summarize(outcomes: &Vec<Outcome>) -> (r: Report)
    ensures
        r.succeeded == count_ok(outcomes@),
        r.failures@ == failures_of(outcomes@),
        r.succeeded + r.failures@.len() == outcomes@.len(),
{
    let mut succeeded: usize = 0;
    let mut failures: Vec<FileFailure> = Vec::new();
    let mut i: usize = 0;
    let n = outcomes.len();
    while i < n
        invariant
            n == outcomes@.len(),
            i <= n,
            succeeded == count_ok(outcomes@.take(i as int)),
            failures@ == failures_of(outcomes@.take(i as int)),
        decreases n - i,
    {
        proof {
            lemma_outcome_totals(outcomes@.take(i as int));
            assert(outcomes@.take(i + 1).drop_last() =~= outcomes@.take(i as int));
            assert(outcomes@.take(i + 1).last() == outcomes@[i as int]);
        }
        let oc = &outcomes[i];
        match &oc.error {
            None => {
                succeeded = succeeded + 1;
            },
            Some(k) => {
                failures.push(FileFailure { path: oc.path.clone(), kind: *k });
                proof {
                    assert(failures@ =~= failures_of(outcomes@.take(i + 1)));
                }
            },
        }
        i = i + 1;
    }
    proof {
        assert(outcomes@.take(n as int) =~= outcomes@);
        lemma_outcome_totals(outcomes@);
    }
    Report { succeeded, failures }
}

impl Report {
    /// A run counts as fully successful exactly when no file failed.
    pub fn is_clean(&self) -> (r: bool)
        ensures
            r <==> self.failures@.len() == 0,
    {
        self.failures.len() == 0
    }
}

} // verus!
