use gpg_bridge::context::{
    begin_context, configure_context, ConfigOutcome, EngineConfig, SessionOutcome,
};
use gpg_bridge::engine::{
    check_openpgp_supported, check_version, context_engine_info, engine_info, EngineField,
    EngineQuery,
};
use gpg_bridge::errors::BridgeError;
use gpg_bridge::executor::{decimal_string, decrypt, encrypt, encrypt_text, import_key, CallOutcome, ImportOutcome};
use gpg_bridge::keys::{
    find_keys, key_info, locate_key, public_key, BlobOutcome, KeyCandidate, KeyRecord,
    SearchOutcome, UserIdRecord,
};

fn sample_key(fingerprint: Option<&str>, can_encrypt: bool) -> KeyRecord {
    KeyRecord {
        id: Some("0B26AB4E".to_string()),
        fingerprint: fingerprint.map(|f| f.to_string()),
        can_encrypt,
        is_invalid: false,
        user_ids: vec![UserIdRecord {
            id: Some("A. Person <a@example.com>".to_string()),
            email: Some("a@example.com".to_string()),
        }],
    }
}

#[test]
fn version_is_reported_verbatim() {
    assert_eq!(check_version(Some("1.23.2".to_string())), "1.23.2");
    assert_eq!(check_version(None), "unknown");
}

#[test]
fn openpgp_support_follows_the_version_check() {
    assert!(check_openpgp_supported(Ok("2.4.0".to_string())));
    assert!(!check_openpgp_supported(Err("engine too old".to_string())));
}

#[test]
fn engine_info_reports_a_failed_query() {
    let r = engine_info(EngineQuery::Failed("no engines".to_string()));
    assert_eq!(r.directory, "");
    assert_eq!(r.bin, "");
    assert_eq!(r.err, "no engines");
}

#[test]
fn engine_info_reports_an_absent_backend() {
    let r = engine_info(EngineQuery::NoOpenPgp);
    assert_eq!(r.directory, "not found");
    assert_eq!(r.bin, "not found");
    assert_eq!(r.err, "");
}

#[test]
fn engine_info_reports_unreadable_fields_as_invalid() {
    let r = engine_info(EngineQuery::OpenPgp {
        home_dir: EngineField::Readable("/home/u/.gnupg".to_string()),
        path: EngineField::Unreadable,
    });
    assert_eq!(r.directory, "/home/u/.gnupg");
    assert_eq!(r.bin, "invalid");
    assert_eq!(r.err, "");
}

#[test]
fn configured_engine_info_round_trips_the_configuration() {
    let config = EngineConfig {
        binary_path: "/usr/bin/gpg".to_string(),
        home_dir: "/tmp/empty_keyring".to_string(),
    };
    let pending = begin_context(SessionOutcome::Acquired).unwrap();
    let ctx = configure_context(pending, config, ConfigOutcome::Applied).unwrap();
    assert!(ctx.armor);
    let r = context_engine_info(
        EngineField::Readable(ctx.config.home_dir),
        EngineField::Readable(ctx.config.binary_path),
    );
    assert_eq!(r.directory, "/tmp/empty_keyring");
    assert_eq!(r.bin, "/usr/bin/gpg");
}

#[test]
fn configured_engine_info_uses_the_not_found_sentinel() {
    let r = context_engine_info(EngineField::Unreadable, EngineField::Unreadable);
    assert_eq!(r.directory, "not found");
    assert_eq!(r.bin, "not found");
}

#[test]
fn a_refused_session_is_engine_unavailable() {
    let r = begin_context(SessionOutcome::Refused);
    assert!(matches!(r, Err(BridgeError::EngineUnavailable)));
}

#[test]
fn a_rejected_configuration_keeps_the_diagnostic() {
    let pending = begin_context(SessionOutcome::Acquired).unwrap();
    let config = EngineConfig {
        binary_path: "/nonexistent/gpg".to_string(),
        home_dir: "/tmp/empty_keyring".to_string(),
    };
    let r = configure_context(
        pending,
        config,
        ConfigOutcome::Rejected("gpgme returned: invalid engine".to_string()),
    );
    match r {
        Err(BridgeError::ConfigurationRejected(d)) => {
            assert_eq!(d, "gpgme returned: invalid engine")
        }
        other => panic!("expected a configuration rejection, got {other:?}"),
    }
}

#[test]
fn find_keys_keeps_only_the_capable_subset() {
    let listing = vec![
        KeyCandidate::Key(sample_key(Some("AAAA"), true)),
        KeyCandidate::Key(sample_key(Some("BBBB"), false)),
        KeyCandidate::Unreadable,
        KeyCandidate::Key(sample_key(Some("CCCC"), true)),
    ];
    let ks = find_keys(SearchOutcome::Listed(listing)).unwrap();
    assert_eq!(ks.len(), 2);
    assert_eq!(ks[0].fingerprint.as_deref(), Some("AAAA"));
    assert_eq!(ks[1].fingerprint.as_deref(), Some("CCCC"));
}

#[test]
fn find_keys_with_no_capable_key_is_an_empty_list_not_an_error() {
    let listing = vec![
        KeyCandidate::Key(sample_key(Some("BBBB"), false)),
        KeyCandidate::Unreadable,
    ];
    let ks = find_keys(SearchOutcome::Listed(listing)).unwrap();
    assert!(ks.is_empty());
}

#[test]
fn find_keys_fails_only_when_the_search_could_not_run() {
    let r = find_keys(SearchOutcome::Refused("search failed".to_string()));
    match r {
        Err(BridgeError::KeyResolutionFailed(d)) => assert_eq!(d, "search failed"),
        other => panic!("expected a resolution failure, got {other:?}"),
    }
}

#[test]
fn locate_key_hands_the_match_through() {
    let k = locate_key(Ok(sample_key(Some("AAAA"), true))).unwrap();
    assert_eq!(k.fingerprint.as_deref(), Some("AAAA"));
    let r = locate_key(Err("not in keyring".to_string()));
    assert!(matches!(r, Err(BridgeError::KeyResolutionFailed(d)) if d == "not in keyring"));
}

#[test]
fn public_key_returns_the_fingerprint() {
    let r = public_key(Ok(sample_key(Some("AAAA"), true))).unwrap();
    assert_eq!(r, "AAAA");
}

#[test]
fn public_key_without_a_fingerprint_is_the_empty_string() {
    let r = public_key(Ok(sample_key(None, true))).unwrap();
    assert_eq!(r, "");
}

#[test]
fn encrypt_hands_the_armored_bytes_through() {
    let r = encrypt(CallOutcome::Produced(b"-----BEGIN PGP MESSAGE-----".to_vec())).unwrap();
    assert_eq!(r, b"-----BEGIN PGP MESSAGE-----".to_vec());
    let e = encrypt(CallOutcome::Rejected("no recipients".to_string()));
    assert!(matches!(e, Err(BridgeError::OperationFailed(d)) if d == "no recipients"));
}

#[test]
fn encrypt_text_decodes_the_output() {
    let r = encrypt_text(CallOutcome::Produced("armored cipher h\u{e9}llo".as_bytes().to_vec()));
    assert_eq!(r.unwrap(), "armored cipher h\u{e9}llo");
}

#[test]
fn decrypt_returns_the_plaintext_unchanged() {
    let plain = "attack at dawn \u{1F512}";
    let r = decrypt(CallOutcome::Produced(plain.as_bytes().to_vec()));
    assert_eq!(r.unwrap(), plain);
}

#[test]
fn decrypt_of_non_text_output_is_a_decode_failure() {
    let r = decrypt(CallOutcome::Produced(vec![0xff, 0xfe, 0x00]));
    assert!(matches!(r, Err(BridgeError::DecodeFailed(_))));
}

#[test]
fn an_undecryptable_message_is_an_operation_failure() {
    let r = decrypt(CallOutcome::Rejected("decryption failed: no secret key".to_string()));
    match r {
        Err(BridgeError::OperationFailed(d)) => assert_eq!(d, "decryption failed: no secret key"),
        other => panic!("expected an operation failure, got {other:?}"),
    }
}

#[test]
fn import_reports_the_count_as_text() {
    let r = import_key(ImportOutcome::Imported(2)).unwrap();
    assert_eq!(r, "2");
}

#[test]
fn import_failures_keep_the_diagnostic() {
    let r = import_key(ImportOutcome::NotLoaded("bad blob".to_string()));
    assert!(matches!(r, Err(BridgeError::OperationFailed(d)) if d == "bad blob"));
    let r = import_key(ImportOutcome::Rejected("import failed".to_string()));
    assert!(matches!(r, Err(BridgeError::OperationFailed(d)) if d == "import failed"));
}

#[test]
fn decimal_rendering_matches_the_standard_one() {
    assert_eq!(decimal_string(0), "0");
    assert_eq!(decimal_string(7), "7");
    assert_eq!(decimal_string(10), "10");
    assert_eq!(decimal_string(409), "409");
    assert_eq!(decimal_string(u64::MAX), u64::MAX.to_string());
}

#[test]
fn key_info_of_an_empty_listing_is_not_found() {
    let r = key_info(BlobOutcome::Keys(vec![]));
    assert!(matches!(r, Err(BridgeError::NotFound)));
    let r = key_info(BlobOutcome::Keys(vec![KeyCandidate::Unreadable]));
    assert!(matches!(r, Err(BridgeError::NotFound)));
}

#[test]
fn key_info_of_a_rejected_blob_keeps_the_diagnostic() {
    let r = key_info(BlobOutcome::Rejected("not key material".to_string()));
    assert!(matches!(r, Err(BridgeError::OperationFailed(d)) if d == "not key material"));
}

#[test]
fn key_info_reads_the_first_readable_key_only() {
    let first = sample_key(Some("AAAA"), true);
    let second = sample_key(Some("BBBB"), false);
    let info = key_info(BlobOutcome::Keys(vec![
        KeyCandidate::Unreadable,
        KeyCandidate::Key(first),
        KeyCandidate::Key(second),
    ]))
    .unwrap();
    assert_eq!(info.fingerprint, "AAAA");
    assert_eq!(info.id, "0B26AB4E");
    assert!(info.can_encrypt);
    assert!(info.is_valid);
    assert_eq!(info.user_ids, vec!["A. Person <a@example.com>".to_string()]);
    assert_eq!(info.emails, vec!["a@example.com".to_string()]);
}

#[test]
fn key_info_applies_the_documented_fallbacks() {
    let bare = KeyRecord {
        id: None,
        fingerprint: None,
        can_encrypt: false,
        is_invalid: true,
        user_ids: vec![
            UserIdRecord { id: None, email: None },
            UserIdRecord {
                id: Some("B. Person".to_string()),
                email: None,
            },
        ],
    };
    let info = key_info(BlobOutcome::Keys(vec![KeyCandidate::Key(bare)])).unwrap();
    assert_eq!(info.id, "");
    assert_eq!(info.fingerprint, "invalid");
    assert!(!info.can_encrypt);
    assert!(!info.is_valid);
    // unreadable entries are kept, not dropped: both lists keep the count
    assert_eq!(info.user_ids, vec!["invalid".to_string(), "B. Person".to_string()]);
    assert_eq!(info.emails, vec!["invalid".to_string(), "invalid".to_string()]);
}

#[test]
fn error_messages_carry_the_most_specific_diagnostic() {
    assert_eq!(BridgeError::EngineUnavailable.message(), "error");
    assert_eq!(BridgeError::NotFound.message(), "no valid key found");
    assert_eq!(
        BridgeError::ConfigurationRejected("bad path".to_string()).message(),
        "bad path"
    );
    assert_eq!(BridgeError::KeyResolutionFailed("x".to_string()).message(), "x");
    assert_eq!(BridgeError::OperationFailed("y".to_string()).message(), "y");
    assert_eq!(BridgeError::DecodeFailed("z".to_string()).message(), "z");
}
