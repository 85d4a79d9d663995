use base64::Engine;
use sha2::Digest;

use org_node::bytes::hex_encode;
use org_node::error::{Error, Reason};
use org_node::fingerprint::to_ssh_fingerprint;
use org_node::peer::PeerId;
use org_node::pre_receive::{
    parse_cert_status, parse_nonce_status, parse_ref, parse_update_line, nonce_guidance,
    CertNonceStatus, CertStatus, PreReceive, ReceivePackEnv,
};

fn env_with(
    cert_status: &str,
    nonce_status: &str,
    cert_key: Option<&[u8]>,
    authorized_keys: Option<&[u8]>,
    allow_unauthorized_keys: Option<bool>,
) -> ReceivePackEnv {
    ReceivePackEnv {
        git_dir: b"/srv/git".to_vec(),
        git_namespace: b"project".to_vec(),
        cert_status: Some(cert_status.as_bytes().to_vec()),
        cert_nonce_status: Some(nonce_status.as_bytes().to_vec()),
        cert_key: cert_key.map(|k| k.to_vec()),
        authorized_keys: authorized_keys.map(|k| k.to_vec()),
        allow_unauthorized_keys,
    }
}

fn cert_key_for(peer_key: &[u8]) -> Vec<u8> {
    let fp = to_ssh_fingerprint(&PeerId { key: peer_key.to_vec() });
    let mut key = b"SHA256:".to_vec();
    key.extend_from_slice(
        base64::engine::general_purpose::STANDARD
            .encode(&fp)
            .as_bytes(),
    );
    key
}

fn update_line_for(peer_key: &[u8], tail: &str) -> Vec<u8> {
    let peer_hex = String::from_utf8(hex_encode(&peer_key.to_vec())).unwrap();
    format!(
        "{} {} refs/remotes/{}/{}",
        "0".repeat(40),
        "1".repeat(40),
        peer_hex,
        tail
    )
    .into_bytes()
}

#[test]
fn ssh_fingerprint_matches_wire_digest() {
    let key: Vec<u8> = (0u8..32).collect();
    let mut buf: Vec<u8> = vec![0, 0, 0, 11];
    buf.extend_from_slice(b"ssh-ed25519");
    buf.extend_from_slice(&[0, 0, 0, 32]);
    buf.extend_from_slice(&key);
    let expected = sha2::Sha256::digest(&buf).as_slice().to_vec();
    assert_eq!(to_ssh_fingerprint(&PeerId { key }), expected);
}

#[test]
fn authorized_push_is_admitted() {
    let peer_key: Vec<u8> = (0u8..32).collect();
    let cert_key = cert_key_for(&peer_key);
    let env = env_with("G", "OK", Some(&cert_key), Some(&cert_key), Some(false));
    let lines = vec![update_line_for(&peer_key, "heads/main")];
    let p = PreReceive::from_lines(env, &lines).unwrap();
    assert!(p.authorize().is_ok());
}

#[test]
fn mismatched_signer_is_rejected() {
    let peer_key: Vec<u8> = (0u8..32).collect();
    let other_key: Vec<u8> = vec![0xAA; 32];
    let cert_key = cert_key_for(&peer_key);
    let env = env_with("G", "OK", Some(&cert_key), Some(&cert_key), Some(false));
    let lines = vec![update_line_for(&other_key, "heads/main")];
    let p = PreReceive::from_lines(env, &lines).unwrap();
    match p.authorize() {
        Err(Error::Unauthorized(reason)) => {
            assert_eq!(reason.message(), "signer does not match remote ref");
        }
        other => panic!("expected signer mismatch, got {:?}", other),
    }
}

#[test]
fn bad_nonce_is_rejected_with_resubmit_guidance() {
    let peer_key: Vec<u8> = (0u8..32).collect();
    let cert_key = cert_key_for(&peer_key);
    let env = env_with("G", "SLOP", Some(&cert_key), Some(&cert_key), Some(false));
    let p = PreReceive::from_lines(env, &vec![]).unwrap();
    assert!(matches!(
        p.verify_certificate(),
        Err(Error::FailedCertificateVerification)
    ));
    assert!(matches!(p.authorize(), Err(Error::FailedCertificateVerification)));
    let status = parse_nonce_status(&b"SLOP".to_vec());
    assert_eq!(status, CertNonceStatus::Slop);
    assert!(nonce_guidance(&status).contains("re-submit"));
}

#[test]
fn unauthorized_key_is_rejected() {
    let env = env_with(
        "G",
        "OK",
        Some(b"SHA256:YYY"),
        Some(b"SHA256:XXX"),
        Some(false),
    );
    let p = PreReceive::from_lines(env, &vec![]).unwrap();
    match p.authorize() {
        Err(Error::Unauthorized(reason)) => {
            assert_eq!(reason, Reason::KeyNotAuthorized);
            assert_eq!(reason.message(), "key is not authorized to push");
        }
        other => panic!("expected unauthorized key, got {:?}", other),
    }
}

#[test]
fn empty_stdin_with_valid_env_is_admitted() {
    let peer_key: Vec<u8> = (0u8..32).collect();
    let cert_key = cert_key_for(&peer_key);
    let env = env_with("G", "OK", Some(&cert_key), Some(&cert_key), Some(false));
    let p = PreReceive::from_lines(env, &vec![]).unwrap();
    assert!(p.authorize().is_ok());
}

#[test]
fn empty_stdin_still_runs_certificate_gates() {
    let peer_key: Vec<u8> = (0u8..32).collect();
    let cert_key = cert_key_for(&peer_key);
    let env = env_with("B", "OK", Some(&cert_key), Some(&cert_key), Some(false));
    let p = PreReceive::from_lines(env, &vec![]).unwrap();
    assert!(matches!(p.authorize(), Err(Error::FailedCertificateVerification)));
}

#[test]
fn allow_unauthorized_skips_key_gate_but_not_identity_gate() {
    let peer_key: Vec<u8> = (0u8..32).collect();
    let other_key: Vec<u8> = vec![0x55; 32];
    let cert_key = cert_key_for(&peer_key);
    // Empty authorized set, but unauthorized keys allowed.
    let env = env_with("G", "OK", Some(&cert_key), None, Some(true));
    let lines = vec![update_line_for(&other_key, "heads/main")];
    let p = PreReceive::from_lines(env, &lines).unwrap();
    assert!(p.check_authorized_key().is_ok());
    assert!(matches!(
        p.authorize(),
        Err(Error::Unauthorized(Reason::SignerMismatch))
    ));
}

#[test]
fn refname_outside_namespace_form_is_rejected() {
    let peer_key: Vec<u8> = (0u8..32).collect();
    let cert_key = cert_key_for(&peer_key);
    let env = env_with("G", "OK", Some(&cert_key), Some(&cert_key), Some(false));
    let line = format!("{} {} refs/heads/master", "0".repeat(40), "1".repeat(40)).into_bytes();
    let p = PreReceive::from_lines(env, &vec![line]).unwrap();
    match p.authorize() {
        Err(Error::InvalidRefPushed(refname)) => {
            assert_eq!(refname, b"refs/heads/master".to_vec());
        }
        other => panic!("expected invalid ref, got {:?}", other),
    }
}

#[test]
fn missing_certificate_key_is_rejected_at_construction() {
    let env = env_with("G", "OK", None, None, Some(false));
    match PreReceive::from_lines(env, &vec![]) {
        Err(Error::Unauthorized(reason)) => {
            assert_eq!(reason, Reason::CertificateMissing);
            assert_eq!(reason.message(), "push certificate is not available");
        }
        other => panic!("expected missing certificate, got {:?}", other),
    }
}

#[test]
fn fingerprint_without_sha256_marker_is_rejected() {
    let env = env_with("G", "OK", Some(b"MD5:abcd"), None, Some(true));
    let p = PreReceive::from_lines(env, &vec![]).unwrap();
    assert!(matches!(
        p.authorize(),
        Err(Error::Unauthorized(Reason::FingerprintNotSha256))
    ));
}

#[test]
fn fingerprint_with_bad_base64_is_rejected() {
    let env = env_with("G", "OK", Some(b"SHA256:!!!not-base64!!!"), None, Some(true));
    let p = PreReceive::from_lines(env, &vec![]).unwrap();
    assert!(matches!(
        p.authorize(),
        Err(Error::Unauthorized(Reason::FingerprintInvalid))
    ));
}

#[test]
fn malformed_input_line_is_rejected() {
    let peer_key: Vec<u8> = (0u8..32).collect();
    let cert_key = cert_key_for(&peer_key);
    let env = env_with("G", "OK", Some(&cert_key), Some(&cert_key), Some(false));
    let line = b"not a ref update".to_vec();
    match PreReceive::from_lines(env, &vec![line.clone()]) {
        Err(Error::MalformedInput(l)) => assert_eq!(l, line),
        other => panic!("expected malformed input, got {:?}", other),
    }
}

#[test]
fn update_line_parses_oids_and_refname() {
    let peer_key: Vec<u8> = (7u8..39).collect();
    let line = update_line_for(&peer_key, "heads/main");
    let update = parse_update_line(&line).unwrap();
    assert_eq!(update.old_oid.bytes, vec![0u8; 20]);
    assert_eq!(update.new_oid.bytes, vec![0x11u8; 20]);
    assert!(update.refname.starts_with(b"refs/remotes/"));
}

#[test]
fn update_line_with_short_oid_is_rejected() {
    let line = format!("{} {} refs/remotes/x/y", "0".repeat(39), "1".repeat(40)).into_bytes();
    assert!(parse_update_line(&line).is_none());
}

#[test]
fn parse_ref_extracts_peer_and_tail() {
    let peer_key: Vec<u8> = (100u8..132).collect();
    let peer_hex = String::from_utf8(hex_encode(&peer_key)).unwrap();
    let refname = format!("refs/remotes/{}/heads/main", peer_hex).into_bytes();
    let (peer_id, tail) = parse_ref(&refname).unwrap();
    assert_eq!(peer_id.key, peer_key);
    assert_eq!(tail, b"heads/main".to_vec());
}

#[test]
fn parse_ref_rejects_short_peer_segment() {
    let refname = b"refs/remotes/abc/heads/main".to_vec();
    assert!(matches!(
        parse_ref(&refname),
        Err(Error::InvalidRefPushed(_))
    ));
}

#[test]
fn certificate_status_texts_parse() {
    assert_eq!(parse_cert_status(&b"G".to_vec()), CertStatus::Good);
    assert_eq!(parse_cert_status(&b"B".to_vec()), CertStatus::Bad);
    assert_eq!(parse_cert_status(&b"U".to_vec()), CertStatus::UnknownValidity);
    assert_eq!(parse_cert_status(&b"X".to_vec()), CertStatus::Expired);
    assert_eq!(parse_cert_status(&b"Y".to_vec()), CertStatus::ExpiredKey);
    assert_eq!(parse_cert_status(&b"R".to_vec()), CertStatus::Revoked);
    assert_eq!(parse_cert_status(&b"E".to_vec()), CertStatus::CheckError);
    assert_eq!(parse_cert_status(&b"N".to_vec()), CertStatus::NoSignature);
    assert_eq!(parse_cert_status(&b"".to_vec()), CertStatus::Unrecognized);
    assert_eq!(parse_cert_status(&b"GG".to_vec()), CertStatus::Unrecognized);
}

#[test]
fn nonce_status_texts_parse() {
    assert_eq!(parse_nonce_status(&b"OK".to_vec()), CertNonceStatus::Okay);
    assert_eq!(parse_nonce_status(&b"UNKNOWN".to_vec()), CertNonceStatus::Unknown);
    assert_eq!(parse_nonce_status(&b"SLOP".to_vec()), CertNonceStatus::Slop);
    assert_eq!(parse_nonce_status(&b"MISSING".to_vec()), CertNonceStatus::Missing);
    assert_eq!(parse_nonce_status(&b"BAD".to_vec()), CertNonceStatus::Bad);
    assert_eq!(parse_nonce_status(&b"".to_vec()), CertNonceStatus::Unrecognized);
}

#[test]
fn unknown_nonce_guidance_asks_for_signed_push() {
    assert!(nonce_guidance(&CertNonceStatus::Unknown).contains("sign push"));
}

#[test]
fn authorized_keys_list_is_split_at_commas() {
    let peer_key: Vec<u8> = (0u8..32).collect();
    let cert_key = cert_key_for(&peer_key);
    let mut list = b"SHA256:first,".to_vec();
    list.extend_from_slice(&cert_key);
    list.extend_from_slice(b",SHA256:last");
    let env = env_with("G", "OK", Some(&cert_key), Some(&list), Some(false));
    let p = PreReceive::from_lines(env, &vec![]).unwrap();
    assert!(p.check_authorized_key().is_ok());
}

#[test]
fn key_absent_from_split_list_is_rejected() {
    let peer_key: Vec<u8> = (0u8..32).collect();
    let cert_key = cert_key_for(&peer_key);
    // The certificate key appears only as a substring of a longer entry,
    // never as a whole comma-delimited segment.
    let mut list = b"prefix-".to_vec();
    list.extend_from_slice(&cert_key);
    let env = env_with("G", "OK", Some(&cert_key), Some(&list), Some(false));
    let p = PreReceive::from_lines(env, &vec![]).unwrap();
    assert!(matches!(
        p.check_authorized_key(),
        Err(Error::Unauthorized(Reason::KeyNotAuthorized))
    ));
}
