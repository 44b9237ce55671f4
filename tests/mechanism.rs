use podman_sequoia::{
    check_signature_input, collect_certs, deliver, find_softkeys_backend, first_keystore_key,
    import_shortcut, key_handle_from_parsed, parse_key_handle, select_signing_key, set_error_from, signing_key_for,
    verification_outcome, Helper, MessageLayer, SequoiaError, SequoiaErrorKind,
    SequoiaImportResult, SequoiaSignature, SignAction, SignEvent, SignPhase, SignSession,
};

const FPR: &str = "0123456789ABCDEF0123456789ABCDEF01234567";

fn strings(v: &[&str]) -> Vec<String> {
    v.iter().map(|s| s.to_string()).collect()
}

#[test]
fn error_kind_follows_failure_class() {
    let io = SequoiaError::from_failure(true, "disk gone");
    assert_eq!(io.kind(), SequoiaErrorKind::IoError);
    assert_eq!(io.message(), "disk gone");
    let other = SequoiaError::from_failure(false, "backend down");
    assert_eq!(other.kind(), SequoiaErrorKind::Unknown);
    assert_eq!(other.message(), "backend down");
}

#[test]
fn error_slot_filled_only_when_supplied() {
    let mut slot: Option<SequoiaError> = None;
    set_error_from(&mut slot, false, SequoiaError::new(SequoiaErrorKind::Unknown, "x"));
    assert!(slot.is_none());
    set_error_from(&mut slot, true, SequoiaError::new(SequoiaErrorKind::InvalidArgument, "bad"));
    let e = slot.unwrap();
    assert_eq!(e.kind, SequoiaErrorKind::InvalidArgument);
    assert_eq!(e.message, "bad");
}

#[test]
fn deliver_gives_value_or_error_never_both() {
    let mut slot: Option<SequoiaError> = None;
    let v = deliver(Ok::<u32, SequoiaError>(7), &mut slot, true);
    assert_eq!(v, Some(7));
    assert!(slot.is_none());
    let v = deliver(Err::<u32, SequoiaError>(SequoiaError::new(SequoiaErrorKind::IoError, "io")), &mut slot, true);
    assert_eq!(v, None);
    assert_eq!(slot.as_ref().unwrap().kind, SequoiaErrorKind::IoError);
    let mut none_slot: Option<SequoiaError> = None;
    let v = deliver(Err::<u32, SequoiaError>(SequoiaError::new(SequoiaErrorKind::IoError, "io")), &mut none_slot, false);
    assert_eq!(v, None);
    assert!(none_slot.is_none());
}

#[test]
fn empty_import_is_empty_success() {
    let r = import_shortcut(b"").unwrap();
    assert_eq!(r.count(), 0);
    assert!(import_shortcut(b"\x99\x01").is_none());
}

#[test]
fn empty_verify_input_fails() {
    let e = check_signature_input(b"").err().unwrap();
    assert_eq!(e.kind, SequoiaErrorKind::Unknown);
    assert_eq!(e.message, "empty signature");
    assert!(check_signature_input(b"\x01").is_ok());
}

#[test]
fn malformed_tail_is_skipped() {
    let r = SequoiaImportResult::from_records(vec![Some(FPR.to_string()), None, None]);
    assert_eq!(r.count(), 1);
    assert_eq!(r.get(0).ok().unwrap(), FPR);
}

#[test]
fn import_records_keep_parse_order() {
    let r = SequoiaImportResult::from_records(vec![None, Some("AA".to_string()), None, Some("BB".to_string())]);
    assert_eq!(r.count(), 2);
    assert_eq!(r.get(0).ok().unwrap(), "AA");
    assert_eq!(r.get(1).ok().unwrap(), "BB");
}

#[test]
fn import_result_index_bounds() {
    let r = SequoiaImportResult::from_records(vec![Some("AA".to_string()), Some("BB".to_string())]);
    for i in 0..r.count() {
        assert!(r.get(i).is_ok());
    }
    let e = r.get(r.count()).err().unwrap();
    assert_eq!(e.kind, SequoiaErrorKind::InvalidArgument);
    assert_eq!(e.message, "No matching key handle");
    let empty = SequoiaImportResult::empty();
    assert!(empty.get(0).is_err());
}

#[test]
fn softkeys_backend_is_first_exact_match() {
    assert_eq!(find_softkeys_backend(&strings(&["gpg-agent", "softkeys", "softkeys"])).ok(), Some(1));
    let e = find_softkeys_backend(&strings(&["gpg-agent", "softkeys2", "Softkeys"])).err().unwrap();
    assert_eq!(e.kind, SequoiaErrorKind::Unknown);
    assert_eq!(e.message, "softkeys backend is not configured.");
    assert!(find_softkeys_backend(&Vec::new()).is_err());
}

#[test]
fn signing_key_is_first_match() {
    let c = vec![vec![], strings(&["A", "B"]), strings(&["C"])];
    assert_eq!(select_signing_key(&c), Some("A".to_string()));
    assert_eq!(select_signing_key(&vec![vec![], vec![]]), None);
    assert_eq!(select_signing_key(&Vec::new()), None);
}

#[test]
fn no_signing_key_names_the_handle() {
    let e = signing_key_for("ABCD", &vec![vec![]]).err().unwrap();
    assert_eq!(e.kind, SequoiaErrorKind::Unknown);
    assert_eq!(e.message, "No matching signing key for ABCD");
    assert_eq!(signing_key_for("ABCD", &vec![strings(&["K"])]).ok(), Some("K".to_string()));
}

#[test]
fn keystore_key_must_exist() {
    let e = first_keystore_key(Vec::<u8>::new()).err().unwrap();
    assert_eq!(e.message, "No matching key in keystore");
    assert_eq!(first_keystore_key(vec![5u8, 6]).ok(), Some(5));
}

#[test]
fn verification_outcome_needs_signer() {
    let r = verification_outcome(b"hello".to_vec(), Some(FPR.to_string())).ok().unwrap();
    assert_eq!(r.content(), b"hello");
    assert_eq!(r.signer(), FPR);
    let e = verification_outcome(b"hello".to_vec(), None).err().unwrap();
    assert_eq!(e.message, "No valid signature");
}

#[test]
fn helper_takes_first_verified_signature() {
    let mut h = Helper::new();
    let layers = vec![
        MessageLayer::Compression,
        MessageLayer::SignatureGroup { results: vec![None, Some("F1".to_string()), Some("F2".to_string())] },
        MessageLayer::SignatureGroup { results: vec![Some("F3".to_string())] },
    ];
    assert!(h.check(&layers).is_ok());
    assert_eq!(h.into_signer(), Some("F1".to_string()));
}

#[test]
fn helper_skips_groups_without_valid_signature() {
    let mut h = Helper::new();
    let layers = vec![
        MessageLayer::Encryption,
        MessageLayer::SignatureGroup { results: vec![None, None] },
        MessageLayer::SignatureGroup { results: vec![None, Some("F3".to_string())] },
    ];
    assert!(h.check(&layers).is_ok());
    assert_eq!(h.into_signer(), Some("F3".to_string()));
}

#[test]
fn helper_rejects_message_without_signature_group() {
    let mut h = Helper::new();
    let layers = vec![MessageLayer::Compression, MessageLayer::Encryption];
    let e = h.check(&layers).err().unwrap();
    assert_eq!(e.kind, SequoiaErrorKind::Unknown);
    assert_eq!(e.message, "No valid signature");
    assert_eq!(h.into_signer(), None);
    let mut h = Helper::new();
    assert!(h.check(&Vec::new()).is_err());
}

#[test]
fn certificates_are_joined_in_order() {
    assert_eq!(collect_certs(vec![vec![1, 2], vec![], vec![3]]), vec![1, 2, 3]);
    assert_eq!(collect_certs(Vec::<Vec<u8>>::new()), Vec::<u8>::new());
}

#[test]
fn key_handle_syntax_is_checked() {
    assert!(parse_key_handle(FPR).is_ok());
    assert!(parse_key_handle("0123456789ABCDEF").is_ok());
    let e = parse_key_handle("not a key handle").err().unwrap();
    assert_eq!(e.kind, SequoiaErrorKind::InvalidArgument);
    assert_eq!(e.message, "Invalid key handle: not a key handle");
}

#[test]
fn signature_holds_bytes() {
    let s = SequoiaSignature::new(vec![1, 2, 3]);
    assert_eq!(s.data(), &[1, 2, 3]);
}

fn session_at_unlock(password: &str) -> SignSession {
    let (mut s, _h) = SignSession::start(FPR, Some(password.to_string())).ok().unwrap();
    assert_eq!(s.phase(), SignPhase::Lookup);
    match s.step(SignEvent::CertsLoaded(Ok(vec![vec![], strings(&["KEY1", "KEY2"])]))) {
        SignAction::FindKey(k) => assert_eq!(k, "KEY1"),
        _ => panic!("expected a keystore lookup"),
    }
    match s.step(SignEvent::KeysFound(1)) {
        SignAction::Unlock(p) => assert_eq!(p, password),
        _ => panic!("expected an unlock"),
    }
    s
}

#[test]
fn failed_unlock_yields_no_signature() {
    let mut s = session_at_unlock("wrong");
    let unlock_error = SequoiaError::new(SequoiaErrorKind::Unknown, "bad passphrase");
    match s.step(SignEvent::Unlocked(Err(unlock_error))) {
        SignAction::Finish(Err(e)) => assert_eq!(e.message, "bad passphrase"),
        _ => panic!("expected failure"),
    }
    assert_eq!(s.phase(), SignPhase::Finished);

    let mut again = session_at_unlock("right");
    assert!(matches!(again.step(SignEvent::Unlocked(Ok(()))), SignAction::SignData));
    match again.step(SignEvent::Signed(Ok(vec![0xc4, 0x01]))) {
        SignAction::Finish(Ok(sig)) => assert_eq!(sig.data(), &[0xc4, 0x01]),
        _ => panic!("expected a signature"),
    }
}

#[test]
fn sign_without_password_skips_unlock() {
    let (mut s, _h) = SignSession::start(FPR, None).ok().unwrap();
    assert!(matches!(s.step(SignEvent::CertsLoaded(Ok(vec![strings(&["K"])]))), SignAction::FindKey(_)));
    assert!(matches!(s.step(SignEvent::KeysFound(2)), SignAction::SignData));
    assert_eq!(s.phase(), SignPhase::Sign);
}

#[test]
fn sign_failures_end_the_session() {
    let (mut s, _h) = SignSession::start(FPR, None).ok().unwrap();
    match s.step(SignEvent::CertsLoaded(Ok(vec![vec![]]))) {
        SignAction::Finish(Err(e)) => assert_eq!(e.message, format!("No matching signing key for {}", FPR)),
        _ => panic!("expected failure"),
    }
    let (mut s, _h) = SignSession::start(FPR, None).ok().unwrap();
    let io = SequoiaError::from_failure(true, "permission denied");
    match s.step(SignEvent::CertsLoaded(Err(io))) {
        SignAction::Finish(Err(e)) => {
            assert_eq!(e.kind, SequoiaErrorKind::IoError);
            assert_eq!(e.message, format!("Failed to load {} from certificate store: permission denied", FPR));
        }
        _ => panic!("expected failure"),
    }
    let (mut s, _h) = SignSession::start(FPR, None).ok().unwrap();
    assert!(matches!(s.step(SignEvent::CertsLoaded(Ok(vec![strings(&["K"])]))), SignAction::FindKey(_)));
    match s.step(SignEvent::KeysFound(0)) {
        SignAction::Finish(Err(e)) => assert_eq!(e.message, "No matching key in keystore"),
        _ => panic!("expected failure"),
    }
    let bad = SignSession::start("xyz!", None).err().unwrap();
    assert_eq!(bad.kind, SequoiaErrorKind::InvalidArgument);
}

#[test]
fn parsed_handle_is_passed_through() {
    let e = key_handle_from_parsed("zz", None).err().unwrap();
    assert_eq!(e.kind, SequoiaErrorKind::InvalidArgument);
    assert_eq!(e.message, "Invalid key handle: zz");
    let h = parse_key_handle(FPR).ok().unwrap();
    let again = key_handle_from_parsed(FPR, Some(h.clone())).ok().unwrap();
    assert_eq!(again.to_hex(), h.to_hex());
    assert_eq!(h.to_hex(), FPR);
}
