//! End-to-end authentication: real SHA-256, Ed25519 and ECDSA/P-256
//! primitives driven through the session handler.

use blue_gate::audit::AuthLog;
use blue_gate::crypto::verify_secp256r1_sha256;
use blue_gate::keys::{AddOutcome, KeyStore};
use blue_gate::session::Session;
use blue_gate::types::FsmCommand;
use ed25519_dalek::Signer;
use p256::ecdsa::signature::hazmat::PrehashSigner;
use p256::elliptic_curve::sec1::ToSec1Point;
use sha2::{Digest, Sha256};

const SERVER_NONCE: [u8; 32] = [0x11; 32];
const CLIENT_NONCE: [u8; 32] = [0x22; 32];
const PEER: [u8; 6] = [1, 2, 3, 4, 5, 6];

fn challenge_digest(server_nonce: &[u8; 32], client_nonce: &[u8; 32]) -> [u8; 32] {
    let mut hasher = Sha256::new();
    hasher.update(server_nonce);
    hasher.update(client_nonce);
    let mut out = [0u8; 32];
    out.copy_from_slice(hasher.finalize().as_slice());
    out
}

fn ed25519_setup(perm_bits: u8) -> (KeyStore, ed25519_dalek::SigningKey, [u8; 33]) {
    let signing = ed25519_dalek::SigningKey::from_bytes(&[0x42; 32]);
    let pubkey = signing.verifying_key().to_bytes();
    let mut record = [0u8; 33];
    record[0] = perm_bits | 0x01;
    record[1..].copy_from_slice(&pubkey);
    let mut ks = KeyStore::new();
    assert_eq!(ks.add(record), AddOutcome::Added);
    (ks, signing, record)
}

fn authenticated_session(
    ks: &KeyStore,
    signing: &ed25519_dalek::SigningKey,
    auth_action: u16,
) -> (Session, AuthLog, Vec<FsmCommand>) {
    let mut s = Session::new(&SERVER_NONCE, &[0u8; 64]);
    let mut log = AuthLog::new();
    s.handle_client_pubkey_write(&signing.verifying_key().to_bytes().to_vec(), ks, false);
    s.handle_client_nonce_write(&CLIENT_NONCE.to_vec());
    s.auth_action = auth_action;
    let digest = challenge_digest(&SERVER_NONCE, &CLIENT_NONCE);
    let signature = signing.sign(&digest);
    let cmds = s.handle_authenticate_write(&signature.to_bytes().to_vec(), &mut log, 1000, &PEER);
    (s, log, cmds)
}

#[test]
fn ed25519_happy_path_opens_the_gate() {
    let (ks, signing, record) = ed25519_setup(0x04);
    let (s, log, cmds) = authenticated_session(&ks, &signing, 1);
    assert!(s.client_key_ack);
    assert_eq!(s.perm, 0x04);
    assert!(s.authenticate_ack);
    assert_eq!(cmds, vec![FsmCommand::Open]);
    // The attempt is in the log, successful, with the record as the client
    // presented it: the bare key promoted with the type byte, without the
    // stored permission bits.
    assert_eq!(log.count(), 1);
    let entry = log.get(0).unwrap();
    assert!(entry.success);
    assert_eq!(entry.pubkey[0], 0x01);
    assert_eq!(&entry.pubkey[1..], &record[1..]);
    assert_eq!(entry.addr, PEER);
    assert_eq!(entry.uptime_ms, 1000);
    assert_eq!(entry.auth_action, 1);
}

#[test]
fn replayed_signature_fails_under_new_nonce() {
    let (ks, signing, _) = ed25519_setup(0x04);
    // Sign against the old server nonce...
    let old_digest = challenge_digest(&SERVER_NONCE, &CLIENT_NONCE);
    let replayed = signing.sign(&old_digest).to_bytes().to_vec();
    // ...but the new connection samples a different one.
    let new_nonce = [0x77u8; 32];
    let mut s = Session::new(&new_nonce, &[0u8; 64]);
    let mut log = AuthLog::new();
    s.handle_client_pubkey_write(&signing.verifying_key().to_bytes().to_vec(), &ks, false);
    s.handle_client_nonce_write(&CLIENT_NONCE.to_vec());
    let cmds = s.handle_authenticate_write(&replayed, &mut log, 2000, &PEER);
    assert!(!s.authenticate_ack);
    assert!(cmds.is_empty());
    assert_eq!(log.count(), 1);
    assert!(!log.get(0).unwrap().success);
}

#[test]
fn corrupted_signature_fails() {
    let (ks, signing, _) = ed25519_setup(0x04);
    let digest = challenge_digest(&SERVER_NONCE, &CLIENT_NONCE);
    let mut sig = signing.sign(&digest).to_bytes();
    sig[10] ^= 0x01;
    let mut s = Session::new(&SERVER_NONCE, &[0u8; 64]);
    let mut log = AuthLog::new();
    s.handle_client_pubkey_write(&signing.verifying_key().to_bytes().to_vec(), &ks, false);
    s.handle_client_nonce_write(&CLIENT_NONCE.to_vec());
    let cmds = s.handle_authenticate_write(&sig.to_vec(), &mut log, 0, &PEER);
    assert!(!s.authenticate_ack);
    assert!(cmds.is_empty());
}

#[test]
fn short_payload_fails_but_is_still_logged() {
    let (ks, signing, _) = ed25519_setup(0x04);
    let mut s = Session::new(&SERVER_NONCE, &[0u8; 64]);
    let mut log = AuthLog::new();
    s.handle_client_pubkey_write(&signing.verifying_key().to_bytes().to_vec(), &ks, false);
    s.handle_client_nonce_write(&CLIENT_NONCE.to_vec());
    let cmds = s.handle_authenticate_write(&vec![0u8; 63], &mut log, 3000, &PEER);
    assert!(!s.authenticate_ack);
    assert!(cmds.is_empty());
    assert_eq!(log.count(), 1);
    let entry = log.get(0).unwrap();
    assert!(!entry.success);
    assert_eq!(entry.uptime_ms, 3000);
}

#[test]
fn action_two_with_flags_also_stops_autoclose() {
    let (ks, signing, _) = ed25519_setup(0x04);
    let (_, _, cmds) = authenticated_session(&ks, &signing, 2);
    assert_eq!(cmds, vec![FsmCommand::Open, FsmCommand::StopAutoClose]);
}

#[test]
fn action_two_without_flags_only_opens() {
    let (ks, signing, _) = ed25519_setup(0x00);
    let (_, _, cmds) = authenticated_session(&ks, &signing, 2);
    assert_eq!(cmds, vec![FsmCommand::Open]);
}

#[test]
fn action_three_closes() {
    let (ks, signing, _) = ed25519_setup(0x04);
    let (_, _, cmds) = authenticated_session(&ks, &signing, 3);
    assert_eq!(cmds, vec![FsmCommand::Close]);
}

#[test]
fn unknown_action_emits_nothing() {
    let (ks, signing, _) = ed25519_setup(0x04);
    let (s, _, cmds) = authenticated_session(&ks, &signing, 9);
    assert!(s.authenticate_ack);
    assert!(cmds.is_empty());
}

fn p256_setup() -> (KeyStore, p256::ecdsa::SigningKey, [u8; 33]) {
    let signing = p256::ecdsa::SigningKey::from_slice(&[0x51; 32]).unwrap();
    let point = signing.verifying_key().as_affine().to_sec1_point(true);
    let mut record = [0u8; 33];
    record.copy_from_slice(point.as_bytes());
    // The compressed encoding starts with 0x02 or 0x03: the key type tag.
    assert!(record[0] == 0x02 || record[0] == 0x03);
    let mut ks = KeyStore::new();
    assert_eq!(ks.add(record), AddOutcome::Added);
    (ks, signing, record)
}

#[test]
fn p256_prehashed_signature_verifies() {
    let (_, signing, record) = p256_setup();
    let digest = challenge_digest(&SERVER_NONCE, &CLIENT_NONCE);
    let signature: p256::ecdsa::Signature = signing.sign_prehash(&digest).unwrap();
    let sig_bytes = signature.to_bytes();
    assert!(verify_secp256r1_sha256(&digest, &sig_bytes, &record));
    let mut bad = [0u8; 32];
    bad.copy_from_slice(&digest);
    bad[0] ^= 1;
    assert!(!verify_secp256r1_sha256(&bad, &sig_bytes, &record));
}

#[test]
fn p256_happy_path_through_the_session() {
    let (ks, signing, record) = p256_setup();
    let mut s = Session::new(&SERVER_NONCE, &[0u8; 64]);
    let mut log = AuthLog::new();
    s.handle_client_pubkey_write(&record.to_vec(), &ks, false);
    assert!(s.client_key_ack);
    s.handle_client_nonce_write(&CLIENT_NONCE.to_vec());
    let digest = challenge_digest(&SERVER_NONCE, &CLIENT_NONCE);
    let signature: p256::ecdsa::Signature = signing.sign_prehash(&digest).unwrap();
    let cmds = s.handle_authenticate_write(
        &signature.to_bytes().to_vec(),
        &mut log,
        4000,
        &PEER,
    );
    assert!(s.authenticate_ack);
    assert_eq!(cmds, vec![FsmCommand::Open]);
    assert!(log.get(0).unwrap().success);
}

#[test]
fn p256_signature_fails_for_the_wrong_key() {
    let (ks, _, _) = p256_setup();
    let other = p256::ecdsa::SigningKey::from_slice(&[0x52; 32]).unwrap();
    let other_record = {
        let point = other.verifying_key().as_affine().to_sec1_point(true);
        let mut r = [0u8; 33];
        r.copy_from_slice(point.as_bytes());
        r
    };
    let mut s = Session::new(&SERVER_NONCE, &[0u8; 64]);
    let mut log = AuthLog::new();
    // The record presented is not in the store.
    s.handle_client_pubkey_write(&other_record.to_vec(), &ks, false);
    assert!(!s.client_key_ack);
    s.handle_client_nonce_write(&CLIENT_NONCE.to_vec());
    let digest = challenge_digest(&SERVER_NONCE, &CLIENT_NONCE);
    let signature: p256::ecdsa::Signature = other.sign_prehash(&digest).unwrap();
    let cmds = s.handle_authenticate_write(
        &signature.to_bytes().to_vec(),
        &mut log,
        0,
        &PEER,
    );
    // The signature itself verifies against the presented key...
    assert!(s.authenticate_ack);
    // ...but the unknown key granted no permission, so nothing privileged follows.
    assert_eq!(s.perm, 0);
    assert_eq!(cmds, vec![FsmCommand::Open]);
}

#[test]
fn invalid_key_type_fails() {
    let ks = KeyStore::new();
    let mut s = Session::new(&SERVER_NONCE, &[0u8; 64]);
    let mut log = AuthLog::new();
    // Record with reserved type tag 0.
    let record = [0x00u8; 33];
    s.handle_client_pubkey_write(&record.to_vec(), &ks, false);
    s.handle_client_nonce_write(&CLIENT_NONCE.to_vec());
    let cmds = s.handle_authenticate_write(&vec![0u8; 64], &mut log, 0, &PEER);
    assert!(!s.authenticate_ack);
    assert!(cmds.is_empty());
    assert_eq!(log.count(), 1);
}
