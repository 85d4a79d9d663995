use org_node::bytes::{bytes_eq, hex_decode, hex_encode, parse_u64_dec, starts_with};
use org_node::peer::PeerId;
use org_node::signer::{KeyError, Signer};
use org_node::tracker::{Tracker, TrackOutcome, WorkQueue, WORK_QUEUE_CAPACITY};
use org_node::urn::{extract_urns, Anchor, Org, ParseUrnError, Project, Urn};

fn project_with_object_id(object_id: &[u8], timestamp: u64) -> Project {
    Project {
        timestamp,
        anchor: Anchor {
            object_id: object_id.to_vec(),
            multihash: b"Qm".to_vec(),
        },
        org: Org {
            id: b"0x1111111111111111111111111111111111111111".to_vec(),
        },
    }
}

fn well_formed_object_id(bytes32: &[u8]) -> Vec<u8> {
    let mut s = b"0x".to_vec();
    s.extend_from_slice(&hex_encode(&bytes32.to_vec()));
    s
}

#[test]
fn hex_codec_round_trips() {
    let bytes: Vec<u8> = (0u8..=255).collect();
    let text = hex_encode(&bytes);
    assert_eq!(hex_decode(&text), Some(bytes));
}

#[test]
fn hex_decode_exact_value() {
    assert_eq!(hex_decode(&b"0f10Ff".to_vec()), Some(vec![0x0f, 0x10, 0xff]));
}

#[test]
fn hex_decode_rejects_odd_length_and_bad_digits() {
    assert_eq!(hex_decode(&b"abc".to_vec()), None);
    assert_eq!(hex_decode(&b"zz".to_vec()), None);
    assert_eq!(hex_decode(&b"".to_vec()), Some(vec![]));
}

#[test]
fn decimal_parse_exact_values() {
    assert_eq!(parse_u64_dec(&b"0".to_vec()), Some(0));
    assert_eq!(parse_u64_dec(&b"1634000000".to_vec()), Some(1_634_000_000));
    assert_eq!(
        parse_u64_dec(&b"18446744073709551615".to_vec()),
        Some(u64::MAX)
    );
}

#[test]
fn decimal_parse_rejects_overflow_and_junk() {
    assert_eq!(parse_u64_dec(&b"18446744073709551616".to_vec()), None);
    assert_eq!(parse_u64_dec(&b"".to_vec()), None);
    assert_eq!(parse_u64_dec(&b"12a".to_vec()), None);
    assert_eq!(parse_u64_dec(&b"-1".to_vec()), None);
}

#[test]
fn byte_helpers_compare_and_prefix() {
    assert!(bytes_eq(&b"abc".to_vec(), &b"abc".to_vec()));
    assert!(!bytes_eq(&b"abc".to_vec(), &b"abd".to_vec()));
    assert!(starts_with(&b"refs/remotes/x".to_vec(), &b"refs/".to_vec()));
    assert!(!starts_with(&b"ref".to_vec(), &b"refs/".to_vec()));
}

#[test]
fn urn_is_trailing_twenty_bytes_of_anchor() {
    let bytes32: Vec<u8> = (0u8..32).collect();
    let project = project_with_object_id(&well_formed_object_id(&bytes32), 1);
    let urn = project.urn().unwrap();
    assert_eq!(urn.id, bytes32[12..].to_vec());
}

#[test]
fn anchor_without_prefix_is_invalid() {
    let project = project_with_object_id(b"deadbeef", 1);
    assert!(matches!(project.urn(), Err(ParseUrnError::Invalid(_))));
}

#[test]
fn anchor_with_wrong_length_is_invalid() {
    // Too short, "0x" included: rejected.
    let project = project_with_object_id(b"0xdead", 1);
    assert!(matches!(project.urn(), Err(ParseUrnError::Invalid(_))));
}

#[test]
fn anchor_with_bad_digit_is_int_error() {
    let mut object_id = b"0x".to_vec();
    object_id.extend_from_slice(&[b'g'; 64]);
    let project = project_with_object_id(&object_id, 1);
    assert!(matches!(project.urn(), Err(ParseUrnError::Int)));
}

#[test]
fn extraction_keeps_only_well_formed_anchors() {
    let bytes32: Vec<u8> = (100u8..132).collect();
    let good = project_with_object_id(&well_formed_object_id(&bytes32), 7);
    let bad = project_with_object_id(b"0xdead", 8);
    let urns = extract_urns(&vec![good, bad]);
    assert_eq!(urns.len(), 1);
    assert_eq!(urns[0].id, bytes32[12..].to_vec());
}

#[test]
fn urn_text_form_round_trips() {
    let id: Vec<u8> = (0u8..20).collect();
    let text = hex_encode(&id);
    let urn = Urn::try_from_id(&text).unwrap();
    assert_eq!(urn.id, id);
    assert!(Urn::try_from_id(&b"too-short".to_vec()).is_none());
}

#[test]
fn peer_text_form_round_trips() {
    let key: Vec<u8> = (200u8..232).collect();
    let peer = PeerId { key: key.clone() };
    let text = peer.to_text();
    assert_eq!(text, hex_encode(&key));
    let parsed = PeerId::from_text(&text).unwrap();
    assert_eq!(parsed.key, key);
    assert!(PeerId::from_text(&b"abc".to_vec()).is_none());
}

#[test]
fn tracker_retries_timed_out_project_once_more() {
    let urn = Urn { id: vec![9u8; 20] };
    let mut tracker = Tracker::new();
    tracker.enqueue(urn.clone());

    let mut attempts = 0;
    // First attempt times out: the identifier goes back to the tail.
    let first = tracker.take_next().unwrap();
    attempts += 1;
    assert_eq!(first.id, urn.id);
    assert!(tracker.settle(first, &TrackOutcome::TimedOut));

    // Second attempt succeeds: the queue ends empty.
    let second = tracker.take_next().unwrap();
    attempts += 1;
    assert_eq!(second.id, urn.id);
    let peer = PeerId { key: vec![1u8; 32] };
    assert!(tracker.settle(second, &TrackOutcome::Fetched(peer)));

    assert_eq!(attempts, 2);
    assert!(tracker.take_next().is_none());
}

#[test]
fn tracker_drains_fresh_work_before_retries() {
    let stuck = Urn { id: vec![1u8; 20] };
    let fresh = Urn { id: vec![2u8; 20] };
    let mut tracker = Tracker::new();
    tracker.enqueue(stuck.clone());

    let first = tracker.take_next().unwrap();
    assert!(tracker.settle(first, &TrackOutcome::NotFound));
    // A fresh identifier arrives and is drained behind the retry.
    tracker.enqueue(fresh.clone());

    assert_eq!(tracker.take_next().unwrap().id, stuck.id);
    let again = tracker.take_next().unwrap();
    assert_eq!(again.id, fresh.id);
}

#[test]
fn tracker_stops_on_fatal_outcome() {
    let urn = Urn { id: vec![3u8; 20] };
    let mut tracker = Tracker::new();
    tracker.enqueue(urn.clone());
    let taken = tracker.take_next().unwrap();
    assert!(!tracker.settle(taken, &TrackOutcome::Failed));
}

#[test]
fn work_queue_is_bounded_at_capacity() {
    let mut queue = WorkQueue::new();
    for i in 0..WORK_QUEUE_CAPACITY {
        let urn = Urn { id: vec![(i % 256) as u8; 20] };
        assert!(queue.try_send(urn).is_ok());
    }
    assert_eq!(queue.len(), WORK_QUEUE_CAPACITY);
    let extra = Urn { id: vec![7u8; 20] };
    match queue.try_send(extra) {
        Err(back) => assert_eq!(back.id, vec![7u8; 20]),
        Ok(()) => panic!("queue accepted more than its capacity"),
    }
    assert_eq!(queue.len(), WORK_QUEUE_CAPACITY);
}

#[test]
fn work_queue_is_first_in_first_out() {
    let mut queue = WorkQueue::new();
    assert!(queue.recv().is_none());
    queue.try_send(Urn { id: vec![1u8; 20] }).unwrap();
    queue.try_send(Urn { id: vec![2u8; 20] }).unwrap();
    assert_eq!(queue.recv().unwrap().id, vec![1u8; 20]);
    assert_eq!(queue.recv().unwrap().id, vec![2u8; 20]);
    assert!(queue.recv().is_none());
}

#[test]
fn signer_accepts_exactly_full_keypairs() {
    let material: Vec<u8> = (0u8..64).collect();
    let signer = Signer::new(material.clone()).unwrap();
    assert_eq!(signer.public_key(), material[32..].to_vec());
    assert_eq!(signer.peer_id().key, material[32..].to_vec());
    let rewrapped = Signer::from_key(signer.key.clone());
    assert_eq!(rewrapped.public_key(), material[32..].to_vec());
    assert!(matches!(Signer::new(vec![0u8; 63]), Err(KeyError::InvalidData)));
}
