use chacha20poly1305::aead::{Aead, KeyInit, Payload};
use chacha20poly1305::{Key, XChaCha20Poly1305, XNonce};
use hkdf::Hkdf;
use sendme::crypto::{
    aad_bytes, decrypt_ticket_envelope, derive_ack_tag, derive_session_key, derive_share_id,
    derive_topic_id, encrypt_ticket_envelope, encrypt_ticket_envelope_with_nonce,
    new_receiver_commitment, new_sender_offer, receiver_finish_pake, receiver_hello_for,
    receiver_start_pake, sender_finish_pake, sender_offer_for,
};
use sendme::error::{PhraseError, WireError};
use sendme::hex::short_hex;
use sendme::proto::{matches_receiver_hello, TicketEnvelope};
use sendme::topic::TopicId;
use sha2::Sha256;

fn envelope() -> TicketEnvelope {
    TicketEnvelope {
        ticket: "blobabc".to_string(),
        ticket_hash: "00ff".to_string(),
        issued_at_ms: 77,
    }
}

fn blake(parts: &[&[u8]]) -> [u8; 32] {
    let mut hasher = blake3::Hasher::new();
    for part in parts {
        hasher.update(part);
    }
    *hasher.finalize().as_bytes()
}

fn expand(salt: &[u8], ikm: &[u8], info: &[u8]) -> [u8; 32] {
    let mut out = [0u8; 32];
    Hkdf::<Sha256>::new(Some(salt), ikm).expand(info, &mut out).unwrap();
    out
}

#[test]
fn share_id_is_the_hash_of_the_ticket() {
    assert_eq!(
        derive_share_id("blobabc"),
        blake(&[b"sendme/phrase/share-id/v1", b"blobabc"])
    );
    assert_ne!(derive_share_id("blobabc"), derive_share_id("blobabd"));
}

#[test]
fn topic_is_named_by_the_hash_of_the_phrase() {
    let name = blake3::Hash::from(blake(&[b"sendme/phrase/topic/v1", b"one two three"]))
        .to_hex()
        .to_string();
    let expected = distributed_topic_tracker::TopicId::new(name.clone()).hash();
    assert_eq!(derive_topic_id("one two three").hash(), expected);
    assert_eq!(TopicId::new(name), derive_topic_id("one two three"));
    assert_ne!(derive_topic_id("one two four").hash(), expected);
}

#[test]
fn offers_and_answers_are_bound_to_their_messages() {
    let offer = sender_offer_for([5; 32], vec![1, 2, 3], 10, 20);
    assert_eq!(offer.version, 1);
    assert_eq!(offer.share_id, [5; 32]);
    assert_eq!(
        offer.sender_commitment,
        blake(&[b"sendme/phrase/sender-commit/v1", &[5; 32], &[1, 2, 3]])
    );
    assert_eq!(offer.pake_msg_1, vec![1, 2, 3]);
    assert_eq!((offer.created_at_ms, offer.expires_at_ms), (10, 20));

    let hello = receiver_hello_for(&offer, vec![9, 8]);
    let commitment = blake(&[
        b"sendme/phrase/receiver-commit/v1",
        &[5; 32],
        &offer.sender_commitment,
        &[9, 8],
    ]);
    assert_eq!(hello.version, 1);
    assert_eq!(hello.share_id, offer.share_id);
    assert_eq!(hello.sender_commitment, offer.sender_commitment);
    assert_eq!(hello.receiver_commitment, commitment);
    assert_eq!(hello.pake_msg_2, vec![9, 8]);
    assert_eq!(
        new_receiver_commitment([5; 32], offer.sender_commitment, &[9, 8]),
        commitment
    );
    assert!(matches_receiver_hello(&offer, &hello));
}

#[test]
fn a_hello_for_another_offer_does_not_match() {
    let offer = sender_offer_for([5; 32], vec![1, 2, 3], 10, 20);
    let other = sender_offer_for([5; 32], vec![1, 2, 4], 10, 20);
    let hello = receiver_hello_for(&offer, vec![9, 8]);
    assert!(!matches_receiver_hello(&other, &hello));
    let mut wrong_version = hello.clone();
    wrong_version.version = 2;
    assert!(!matches_receiver_hello(&offer, &wrong_version));
    let mut wrong_share = hello.clone();
    wrong_share.share_id = [6; 32];
    assert!(!matches_receiver_hello(&offer, &wrong_share));
}

#[test]
fn session_key_is_expanded_from_secret_and_transcript() {
    let salt = blake(&[
        b"sendme/phrase/session-key/v1",
        &[1; 32],
        &[2; 32],
        &[3; 32],
        b"second",
        b"first",
    ]);
    assert_eq!(
        derive_session_key(b"secret", [1; 32], [2; 32], [3; 32], b"first", b"second"),
        Ok(expand(&salt, b"secret", b"sendme/phrase/session-key/v1"))
    );
}

#[test]
fn ack_tag_is_keyed_by_the_session_key() {
    let key = expand(&[7; 32], b"sendme/phrase/ack/v1", b"sendme/phrase/ack/v1");
    let mut ids = Vec::new();
    ids.extend_from_slice(&[1; 32]);
    ids.extend_from_slice(&[2; 32]);
    ids.extend_from_slice(&[3; 32]);
    assert_eq!(
        derive_ack_tag([7; 32], [1; 32], [2; 32], [3; 32]),
        Ok(*blake3::keyed_hash(&key, &ids).as_bytes())
    );
    assert_ne!(
        derive_ack_tag([7; 32], [1; 32], [2; 32], [3; 32]),
        derive_ack_tag([8; 32], [1; 32], [2; 32], [3; 32])
    );
}

#[test]
fn associated_data_is_the_three_identifiers() {
    let mut ids = Vec::new();
    ids.extend_from_slice(&[1; 32]);
    ids.extend_from_slice(&[2; 32]);
    ids.extend_from_slice(&[3; 32]);
    assert_eq!(aad_bytes([1; 32], [2; 32], [3; 32]), ids);
    assert_ne!(aad_bytes([1; 32], [2; 32], [3; 32]), aad_bytes([2; 32], [1; 32], [3; 32]));
}

#[test]
fn the_same_phrase_gives_the_same_key() {
    let sender = new_sender_offer("correct horse", [9; 32], 1, 2);
    let offer = sender.offer.clone();
    assert_eq!(offer.pake_msg_1.len(), 33);
    assert_eq!(offer.pake_msg_1[0], b'A');
    let receiver = receiver_start_pake("correct horse", &offer);
    let hello = receiver.hello.clone();
    assert_eq!(hello.pake_msg_2.len(), 33);
    assert_eq!(hello.pake_msg_2[0], b'B');
    let sender_key = sender_finish_pake(sender, &hello).unwrap();
    let receiver_key = receiver_finish_pake(receiver, &offer).unwrap();
    assert_eq!(sender_key, receiver_key);
    assert_ne!(sender_key, [0; 32]);
}

#[test]
fn another_phrase_gives_another_key() {
    let sender = new_sender_offer("correct horse", [9; 32], 1, 2);
    let offer = sender.offer.clone();
    let receiver = receiver_start_pake("battery staple", &offer);
    let hello = receiver.hello.clone();
    assert_ne!(
        sender_finish_pake(sender, &hello).unwrap(),
        receiver_finish_pake(receiver, &offer).unwrap()
    );
}

#[test]
fn offers_are_drawn_anew() {
    let a = new_sender_offer("p", [9; 32], 1, 2).offer;
    let b = new_sender_offer("p", [9; 32], 1, 2).offer;
    assert_ne!(a.pake_msg_1, b.pake_msg_1);
    assert_ne!(a.sender_commitment, b.sender_commitment);
}

#[test]
fn a_message_that_is_not_the_receivers_is_refused() {
    let own = new_sender_offer("p", [9; 32], 1, 2).offer;
    let other = new_sender_offer("p", [9; 32], 1, 2).offer;
    let bad = [Vec::new(), vec![b'B'; 32], other.pake_msg_1.clone(), no_point(b'B')];
    for message in bad {
        let sender = new_sender_offer("p", [9; 32], 1, 2);
        let hello = receiver_hello_for(&own, message);
        assert_eq!(sender_finish_pake(sender, &hello), Err(PhraseError::SenderFinish));
    }
}

#[test]
fn a_message_that_is_not_the_senders_is_refused() {
    let own = new_sender_offer("p", [9; 32], 1, 2).offer;
    let answer = receiver_start_pake("p", &own).hello;
    let bad = [Vec::new(), vec![b'A'; 34], answer.pake_msg_2.clone(), no_point(b'A')];
    for message in bad {
        let offer = sender_offer_for([9; 32], message, 1, 2);
        let receiver = receiver_start_pake("p", &offer);
        assert_eq!(receiver_finish_pake(receiver, &offer), Err(PhraseError::ReceiverFinish));
    }
}

/// A message whose 32 bytes are the compressed form of no point: the curve has no
/// point with the ordinate 2.
fn no_point(side: u8) -> Vec<u8> {
    let mut message = vec![0u8; 33];
    message[0] = side;
    message[1] = 2;
    message
}

#[test]
fn an_envelope_opens_under_the_key_that_sealed_it() {
    let (nonce, ciphertext) =
        encrypt_ticket_envelope([7; 32], [1; 32], [2; 32], [3; 32], &envelope()).unwrap();
    let opened =
        decrypt_ticket_envelope([7; 32], [1; 32], [2; 32], [3; 32], nonce, &ciphertext).unwrap();
    assert_eq!(opened.ticket, "blobabc");
    assert_eq!(opened.ticket_hash, "00ff");
    assert_eq!(opened.issued_at_ms, 77);
}

#[test]
fn a_sealed_envelope_is_what_the_cipher_makes_of_its_bytes() {
    let sealed = encrypt_ticket_envelope_with_nonce(
        [7; 32],
        [1; 32],
        [2; 32],
        [3; 32],
        &envelope(),
        [4; 24],
    )
    .unwrap();
    let plain: Vec<u8> = vec![
        7, b'b', b'l', b'o', b'b', b'a', b'b', b'c', 4, b'0', b'0', b'f', b'f', 77,
    ];
    let expected = XChaCha20Poly1305::new(Key::from_slice(&[7; 32]))
        .encrypt(
            XNonce::from_slice(&[4; 24]),
            Payload { msg: &plain, aad: &aad_bytes([1; 32], [2; 32], [3; 32]) },
        )
        .unwrap();
    assert_eq!(sealed, expected);
    assert_eq!(sealed.len(), plain.len() + 16);
}

#[test]
fn a_sealed_envelope_is_a_tag_longer_than_its_bytes() {
    let small = TicketEnvelope {
        ticket: "t".to_string(),
        ticket_hash: "h".to_string(),
        issued_at_ms: 0,
    };
    let (_, ciphertext) =
        encrypt_ticket_envelope([1; 32], [2; 32], [3; 32], [4; 32], &small).unwrap();
    assert_eq!(ciphertext.len(), 21);
    assert_eq!(
        decrypt_ticket_envelope([1; 32], [2; 32], [3; 32], [4; 32], [0; 24], &[0; 15])
            .unwrap_err(),
        PhraseError::Decrypt
    );
}

#[test]
fn a_hello_with_other_identifiers_gives_the_same_key() {
    for field in 0..4 {
        let sender = new_sender_offer("correct horse", [9; 32], 1, 2);
        let offer = sender.offer.clone();
        let receiver = receiver_start_pake("correct horse", &offer);
        let mut hello = receiver.hello.clone();
        let receiver_key = receiver_finish_pake(receiver, &offer).unwrap();
        match field {
            0 => hello.version = 7,
            1 => hello.share_id = [0; 32],
            2 => hello.sender_commitment = [0; 32],
            _ => hello.receiver_commitment = [0; 32],
        }
        let sender_key = sender_finish_pake(sender, &hello).unwrap();
        assert_eq!(sender_key == receiver_key, field < 3);
    }
}

#[test]
fn nonces_are_drawn_anew() {
    let a = encrypt_ticket_envelope([7; 32], [1; 32], [2; 32], [3; 32], &envelope()).unwrap();
    let b = encrypt_ticket_envelope([7; 32], [1; 32], [2; 32], [3; 32], &envelope()).unwrap();
    assert_ne!(a.0, b.0);
    assert_ne!(a.1, b.1);
}

#[test]
fn a_changed_envelope_does_not_open() {
    let (nonce, ciphertext) =
        encrypt_ticket_envelope([7; 32], [1; 32], [2; 32], [3; 32], &envelope()).unwrap();
    let mut changed = ciphertext.clone();
    changed[0] ^= 1;
    let refused = [
        decrypt_ticket_envelope([8; 32], [1; 32], [2; 32], [3; 32], nonce, &ciphertext),
        decrypt_ticket_envelope([7; 32], [0; 32], [2; 32], [3; 32], nonce, &ciphertext),
        decrypt_ticket_envelope([7; 32], [1; 32], [0; 32], [3; 32], nonce, &ciphertext),
        decrypt_ticket_envelope([7; 32], [1; 32], [2; 32], [0; 32], nonce, &ciphertext),
        decrypt_ticket_envelope([7; 32], [1; 32], [2; 32], [3; 32], [0; 24], &ciphertext),
        decrypt_ticket_envelope([7; 32], [1; 32], [2; 32], [3; 32], nonce, &changed),
        decrypt_ticket_envelope([7; 32], [1; 32], [2; 32], [3; 32], nonce, &[]),
    ];
    for outcome in refused {
        assert_eq!(outcome.unwrap_err(), PhraseError::Decrypt);
    }
}

#[test]
fn sealed_bytes_that_are_no_envelope_are_refused() {
    let sealed = XChaCha20Poly1305::new(Key::from_slice(&[7; 32]))
        .encrypt(
            XNonce::from_slice(&[4; 24]),
            Payload { msg: &[200], aad: &aad_bytes([1; 32], [2; 32], [3; 32]) },
        )
        .unwrap();
    assert_eq!(
        decrypt_ticket_envelope([7; 32], [1; 32], [2; 32], [3; 32], [4; 24], &sealed).unwrap_err(),
        PhraseError::Decode(WireError::UnexpectedEnd)
    );
}

#[test]
fn hex_of_a_hash_is_its_lowercase_form() {
    let digest = blake(&[b"x"]);
    assert_eq!(short_hex(&digest, 32), blake3::Hash::from(digest).to_hex().to_string());
    assert_eq!(short_hex(&digest, 100), short_hex(&digest, 32));
    assert_eq!(short_hex(&digest, 6).len(), 12);
    assert_eq!(short_hex(&digest, 0), "");
    assert_ne!(short_hex(&[1, 2], 2), short_hex(&[1, 3], 2));
}
