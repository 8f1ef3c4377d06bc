use ringcrypt::engine::{plan_run, transform_bytes, transform_entries, FileEntry, Mode, Plan};
use ringcrypt::kdf::{derive_key, generate_salt, DerivedKey, Salt};
use ringcrypt::report::{summarize, FileErrorKind, Outcome};

fn test_key(password: &[u8]) -> DerivedKey {
    let salt = Salt::from_bytes(vec![42u8; 32]).unwrap();
    derive_key(password, &salt).unwrap()
}

fn entry(path: &str, data: &[u8]) -> FileEntry {
    FileEntry { path: path.to_string(), data: data.to_vec() }
}

#[test]
fn no_sentinel_means_encrypt() {
    assert!(matches!(plan_run(true, None), Plan::EncryptTree));
}

#[test]
fn sentinel_means_decrypt_with_its_salt() {
    let bytes: Vec<u8> = (0..32u8).collect();
    match plan_run(true, Some(bytes.clone())) {
        Plan::DecryptTree(salt) => assert_eq!(salt.as_bytes(), &bytes[..]),
        _ => panic!("a 32-byte sentinel must select the decrypt path"),
    }
}

#[test]
fn long_sentinel_keeps_first_32_bytes() {
    let bytes: Vec<u8> = (0..40u8).collect();
    match plan_run(true, Some(bytes.clone())) {
        Plan::DecryptTree(salt) => assert_eq!(salt.as_bytes(), &bytes[..32]),
        _ => panic!("a long sentinel must still select the decrypt path"),
    }
}

#[test]
fn short_sentinel_is_malformed() {
    assert!(matches!(
        plan_run(true, Some(vec![1u8; 10])),
        Plan::MalformedSentinel
    ));
}

#[test]
fn non_directory_is_rejected() {
    assert!(matches!(plan_run(false, None), Plan::NotADirectory));
    assert!(matches!(
        plan_run(false, Some(vec![0u8; 32])),
        Plan::NotADirectory
    ));
}

#[test]
fn sentinel_bytes_round_trip_to_the_same_salt() {
    let salt = generate_salt().unwrap();
    let persisted = salt.as_bytes().to_vec();
    match plan_run(true, Some(persisted)) {
        Plan::DecryptTree(recovered) => assert_eq!(recovered.as_bytes(), salt.as_bytes()),
        _ => panic!("a tree with a sentinel must select the decrypt path"),
    }
}

#[test]
fn full_lifecycle_over_plain_values() {
    // Encrypt run: no sentinel yet, fresh salt, fresh key.
    assert!(matches!(plan_run(true, None), Plan::EncryptTree));
    let salt = generate_salt().unwrap();
    let key = derive_key(b"hunter2", &salt).unwrap();
    let entries = vec![entry("a.txt", b"hello"), entry("sub/b.bin", &[0, 1, 2])];
    let (encrypted, outcomes) = transform_entries(&key, Mode::Encrypt, entries);
    assert!(summarize(&outcomes).is_clean());
    let sentinel = salt.as_bytes().to_vec();

    // Decrypt run: the sentinel's bytes reproduce the salt, and so the key.
    let recovered = match plan_run(true, Some(sentinel)) {
        Plan::DecryptTree(recovered) => recovered,
        _ => panic!("a tree with a sentinel must select the decrypt path"),
    };
    let key_again = derive_key(b"hunter2", &recovered).unwrap();
    let (decrypted, outcomes) = transform_entries(&key_again, Mode::Decrypt, encrypted);
    assert!(summarize(&outcomes).is_clean());
    assert_eq!(decrypted[0].data, b"hello".to_vec());
    assert_eq!(decrypted[1].data, vec![0, 1, 2]);
}

#[test]
fn two_file_tree_encrypts_and_decrypts() {
    let key = test_key(b"hunter2");
    let entries = vec![entry("a.txt", b"hello"), entry("b.bin", b"")];
    let (encrypted, outcomes) = transform_entries(&key, Mode::Encrypt, entries);

    let report = summarize(&outcomes);
    assert_eq!(report.succeeded, 2);
    assert!(report.is_clean());
    assert_eq!(encrypted[0].path, "a.txt");
    assert_eq!(encrypted[0].data.len(), 12 + 5 + 16);
    assert_eq!(encrypted[1].path, "b.bin");
    assert_eq!(encrypted[1].data.len(), 12 + 0 + 16);
    assert_ne!(
        &encrypted[0].data[..12],
        &encrypted[1].data[..12],
        "two files were sealed under the same nonce"
    );

    let (decrypted, outcomes) = transform_entries(&key, Mode::Decrypt, encrypted);
    let report = summarize(&outcomes);
    assert_eq!(report.succeeded, 2);
    assert!(report.is_clean());
    assert_eq!(decrypted[0].data, b"hello".to_vec());
    assert_eq!(decrypted[1].data, Vec::<u8>::new());
}

#[test]
fn wrong_password_fails_every_file() {
    let key = test_key(b"hunter2");
    let entries = vec![entry("a.txt", b"hello"), entry("b.bin", b"")];
    let (encrypted, _) = transform_entries(&key, Mode::Encrypt, entries);
    let sealed_a = encrypted[0].data.clone();
    let sealed_b = encrypted[1].data.clone();

    let wrong = test_key(b"wrong");
    let (after, outcomes) = transform_entries(&wrong, Mode::Decrypt, encrypted);
    let report = summarize(&outcomes);
    assert_eq!(report.succeeded, 0);
    assert_eq!(report.failures.len(), 2);
    for failure in &report.failures {
        assert_eq!(failure.kind, FileErrorKind::AuthenticationFailure);
    }
    // The files stay in their encrypted form, untouched.
    assert_eq!(after[0].data, sealed_a);
    assert_eq!(after[1].data, sealed_b);
}

#[test]
fn nested_path_is_transformed_like_any_other() {
    let key = test_key(b"hunter2");
    let entries = vec![entry("root/sub/c.txt", b"deep"), entry("top.txt", b"flat")];
    let (encrypted, outcomes) = transform_entries(&key, Mode::Encrypt, entries);
    assert!(summarize(&outcomes).is_clean());
    assert_eq!(encrypted[0].path, "root/sub/c.txt");
    assert_eq!(encrypted[0].data.len(), 4 + 28);
    let (decrypted, _) = transform_entries(&key, Mode::Decrypt, encrypted);
    assert_eq!(decrypted[0].data, b"deep".to_vec());
    assert_eq!(decrypted[1].data, b"flat".to_vec());
}

#[test]
fn corrupting_one_file_leaves_siblings_intact() {
    let key = test_key(b"hunter2");
    let entries = vec![entry("ok.txt", b"fine"), entry("bad.txt", b"doomed")];
    let (mut encrypted, _) = transform_entries(&key, Mode::Encrypt, entries);
    // Flip one byte in the middle of the second file's ciphertext.
    let mid = 12 + 3;
    encrypted[1].data[mid] ^= 0x40;
    let corrupted = encrypted[1].data.clone();

    let (after, outcomes) = transform_entries(&key, Mode::Decrypt, encrypted);
    let report = summarize(&outcomes);
    assert_eq!(report.succeeded, 1);
    assert_eq!(report.failures.len(), 1);
    assert_eq!(report.failures[0].path, "bad.txt");
    assert_eq!(report.failures[0].kind, FileErrorKind::AuthenticationFailure);
    assert_eq!(after[0].data, b"fine".to_vec());
    assert_eq!(after[1].data, corrupted, "a failed file must keep its bytes");
}

#[test]
fn transform_bytes_matches_modes() {
    let key = test_key(b"hunter2");
    let blob = transform_bytes(&key, Mode::Encrypt, b"data").unwrap();
    assert_eq!(blob.len(), 4 + 28);
    assert_eq!(
        transform_bytes(&key, Mode::Decrypt, &blob).unwrap(),
        b"data".to_vec()
    );
    assert_eq!(
        transform_bytes(&key, Mode::Decrypt, b"short"),
        Err(FileErrorKind::AuthenticationFailure)
    );
}

#[test]
fn summarize_counts_every_outcome() {
    let outcomes = vec![
        Outcome { path: "a".to_string(), error: None },
        Outcome { path: "b".to_string(), error: Some(FileErrorKind::ReadError) },
        Outcome { path: "c".to_string(), error: None },
        Outcome { path: "d".to_string(), error: Some(FileErrorKind::WriteError) },
        Outcome { path: "e".to_string(), error: Some(FileErrorKind::AuthenticationFailure) },
    ];
    let report = summarize(&outcomes);
    assert_eq!(report.succeeded, 2);
    assert_eq!(report.failures.len(), 3);
    assert_eq!(report.failures[0].path, "b");
    assert_eq!(report.failures[0].kind, FileErrorKind::ReadError);
    assert_eq!(report.failures[1].path, "d");
    assert_eq!(report.failures[1].kind, FileErrorKind::WriteError);
    assert_eq!(report.failures[2].path, "e");
    assert_eq!(report.failures[2].kind, FileErrorKind::AuthenticationFailure);
    assert!(!report.is_clean());
}

#[test]
fn summarize_empty_run_is_clean() {
    let report = summarize(&Vec::new());
    assert_eq!(report.succeeded, 0);
    assert!(report.is_clean());
}
