//! Password-based folder cipher engine.
//!
//! A directory tree is locked and unlocked with a single password: a 32-byte
//! salt persisted in a sentinel file drives a slow password hash (Argon2id)
//! that yields one AES-256-GCM key, and every regular file's content is
//! replaced by `nonce(12) ++ ciphertext ++ tag(16)` (or restored from it).
//! This crate holds the verified logic: key derivation, the per-file
//! authenticated framing, the mode-detection protocol, the per-tree batch
//! transform and the outcome report. Directory walking and file I/O live with
//! the caller, which hands plain bytes in and out.

pub mod cipher;
pub mod engine;
pub mod kdf;
pub mod report;
mod rng;
