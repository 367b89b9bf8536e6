use sendme::codec::{decode_envelope, decode_message, encode_envelope, encode_message};
use sendme::error::{PhraseError, WireError};
use sendme::proto::{
    PhraseMessage, ReceiverAck, ReceiverHello, SenderOffer, SenderTicket, TicketEnvelope,
};
use serde_bytes::Bytes;

fn offer() -> SenderOffer {
    SenderOffer {
        version: 1,
        share_id: [0x11; 32],
        sender_commitment: [0x22; 32],
        pake_msg_1: vec![7, 8, 9],
        created_at_ms: 300,
        expires_at_ms: u64::MAX,
    }
}

fn hello() -> ReceiverHello {
    ReceiverHello {
        version: 1,
        share_id: [0x11; 32],
        sender_commitment: [0x22; 32],
        receiver_commitment: [0x33; 32],
        pake_msg_2: vec![0xab; 200],
    }
}

fn ticket() -> SenderTicket {
    SenderTicket {
        version: 1,
        share_id: [0x11; 32],
        sender_commitment: [0x22; 32],
        receiver_commitment: [0x33; 32],
        nonce: [0x44; 24],
        ciphertext: vec![1, 2, 3, 4],
    }
}

fn ack() -> ReceiverAck {
    ReceiverAck {
        version: 1,
        share_id: [0x11; 32],
        sender_commitment: [0x22; 32],
        receiver_commitment: [0x33; 32],
        ack_tag: [0x55; 32],
    }
}

#[test]
fn offer_has_its_exact_bytes() {
    let bytes = encode_message(&PhraseMessage::SenderOffer(offer())).unwrap();
    let mut expected: Vec<u8> = vec![0, 1];
    expected.extend_from_slice(&[0x11; 32]);
    expected.extend_from_slice(&[0x22; 32]);
    expected.extend_from_slice(&[3, 7, 8, 9]);
    expected.extend_from_slice(&[0xac, 0x02]);
    expected.extend_from_slice(&[0xff; 9]);
    expected.push(1);
    assert_eq!(bytes, expected);
}

#[test]
fn messages_have_the_bytes_of_the_same_fields_as_a_tuple() {
    let o = offer();
    assert_eq!(
        encode_message(&PhraseMessage::SenderOffer(o.clone())).unwrap(),
        postcard::to_stdvec(&(
            0u32,
            o.version,
            o.share_id,
            o.sender_commitment,
            Bytes::new(&o.pake_msg_1),
            o.created_at_ms,
            o.expires_at_ms,
        ))
        .unwrap()
    );
    let h = hello();
    assert_eq!(
        encode_message(&PhraseMessage::ReceiverHello(h.clone())).unwrap(),
        postcard::to_stdvec(&(
            1u32,
            h.version,
            h.share_id,
            h.sender_commitment,
            h.receiver_commitment,
            Bytes::new(&h.pake_msg_2),
        ))
        .unwrap()
    );
    let t = ticket();
    assert_eq!(
        encode_message(&PhraseMessage::SenderTicket(t.clone())).unwrap(),
        postcard::to_stdvec(&(
            2u32,
            t.version,
            t.share_id,
            t.sender_commitment,
            t.receiver_commitment,
            t.nonce,
            Bytes::new(&t.ciphertext),
        ))
        .unwrap()
    );
    let a = ack();
    assert_eq!(
        encode_message(&PhraseMessage::ReceiverAck(a.clone())).unwrap(),
        postcard::to_stdvec(&(
            3u32,
            a.version,
            a.share_id,
            a.sender_commitment,
            a.receiver_commitment,
            a.ack_tag,
        ))
        .unwrap()
    );
}

#[test]
fn messages_read_back_with_and_without_a_tail() {
    let messages = [
        PhraseMessage::SenderOffer(offer()),
        PhraseMessage::ReceiverHello(hello()),
        PhraseMessage::SenderTicket(ticket()),
        PhraseMessage::ReceiverAck(ack()),
    ];
    for message in &messages {
        let mut bytes = encode_message(message).unwrap();
        let expected = format!("{:?}", message);
        assert_eq!(format!("{:?}", decode_message(&bytes).unwrap()), expected);
        bytes.extend_from_slice(&[9, 9, 9]);
        assert_eq!(format!("{:?}", decode_message(&bytes).unwrap()), expected);
    }
}

#[test]
fn different_messages_have_different_bytes() {
    let a = encode_message(&PhraseMessage::ReceiverAck(ack())).unwrap();
    let mut other = ack();
    other.ack_tag[31] = 0;
    let b = encode_message(&PhraseMessage::ReceiverAck(other)).unwrap();
    assert_ne!(a, b);
    assert!(!b.starts_with(&a));
}

#[test]
fn every_cut_message_is_refused() {
    let bytes = encode_message(&PhraseMessage::SenderTicket(ticket())).unwrap();
    for len in 0..bytes.len() {
        assert_eq!(
            decode_message(&bytes[..len]).unwrap_err(),
            PhraseError::Decode(WireError::UnexpectedEnd)
        );
    }
}

#[test]
fn an_unknown_variant_is_refused() {
    let mut bytes = encode_message(&PhraseMessage::ReceiverAck(ack())).unwrap();
    bytes[0] = 4;
    assert_eq!(
        decode_message(&bytes).unwrap_err(),
        PhraseError::Decode(WireError::UnknownVariant)
    );
}

#[test]
fn a_number_may_have_superfluous_groups() {
    let bytes = encode_message(&PhraseMessage::ReceiverAck(ack())).unwrap();
    let mut long = vec![0x83, 0x80, 0x00];
    long.extend_from_slice(&bytes[1..]);
    assert!(matches!(decode_message(&long), Ok(PhraseMessage::ReceiverAck(_))));
}

#[test]
fn a_number_beyond_its_width_is_refused() {
    let bytes = encode_message(&PhraseMessage::ReceiverAck(ack())).unwrap();
    let mut long = vec![0x83, 0x80, 0x80, 0x80, 0x10];
    long.extend_from_slice(&bytes[1..]);
    assert_eq!(
        decode_message(&long).unwrap_err(),
        PhraseError::Decode(WireError::BadVarint)
    );
    let mut fits = vec![0x83, 0x80, 0x80, 0x80, 0x00];
    fits.extend_from_slice(&bytes[1..]);
    assert!(decode_message(&fits).is_ok());
}

#[test]
fn envelope_has_its_exact_bytes_and_reads_back() {
    let envelope = TicketEnvelope {
        ticket: "t\u{e9}".to_string(),
        ticket_hash: "ab".to_string(),
        issued_at_ms: 128,
    };
    let bytes = encode_envelope(&envelope).unwrap();
    assert_eq!(bytes, vec![3, b't', 0xc3, 0xa9, 2, b'a', b'b', 0x80, 0x01]);
    let back = decode_envelope(&bytes).unwrap();
    assert_eq!(back.ticket, envelope.ticket);
    assert_eq!(back.ticket_hash, envelope.ticket_hash);
    assert_eq!(back.issued_at_ms, envelope.issued_at_ms);
}

#[test]
fn an_envelope_of_bad_text_is_refused() {
    assert_eq!(
        decode_envelope(&[1, 0xff, 0, 0]).unwrap_err(),
        PhraseError::Decode(WireError::BadUtf8)
    );
    assert_eq!(
        decode_envelope(&[5, b'a', 0, 0]).unwrap_err(),
        PhraseError::Decode(WireError::UnexpectedEnd)
    );
    assert!(decode_envelope(&[1, b'a', 0, 0]).is_ok());
}

#[test]
fn clones_are_equal_values() {
    let message = PhraseMessage::SenderTicket(ticket());
    assert_eq!(format!("{:?}", message.clone()), format!("{:?}", message));
    let envelope = TicketEnvelope {
        ticket: "a".to_string(),
        ticket_hash: "b".to_string(),
        issued_at_ms: 1,
    };
    assert_eq!(format!("{:?}", envelope.clone()), format!("{:?}", envelope));
}

#[test]
fn a_bad_envelope_is_refused_in_the_words_of_postcard() {
    let bad: [&[u8]; 9] = [
        &[],
        &[200],
        &[1],
        &[1, 0xff],
        &[1, 0xff, 0x80],
        &[0, 0],
        &[0, 0, 0x80],
        &[0, 0, 0xff, 0xff, 0xff, 0xff, 0xff, 0xff, 0xff, 0xff, 0xff, 2],
        &[0x80, 0x80, 0x80, 0x80, 0x80, 0x80, 0x80, 0x80, 0x80, 0x80, 0],
    ];
    for bytes in bad {
        let expected = postcard::from_bytes::<(String, String, u64)>(bytes).unwrap_err();
        assert_eq!(decode_envelope(bytes).unwrap_err().message(), expected.to_string());
    }
}

#[test]
fn a_bad_message_is_refused_in_the_words_of_postcard() {
    let bad: [&[u8]; 4] = [&[], &[0x80], &[0x80, 0x80, 0x80, 0x80, 0x10], &[0xff; 6]];
    for bytes in bad {
        let expected = postcard::from_bytes::<u32>(bytes).unwrap_err();
        assert_eq!(decode_message(bytes).unwrap_err().message(), expected.to_string());
    }
    let whole = encode_message(&PhraseMessage::ReceiverAck(ack())).unwrap();
    for len in 1..whole.len() {
        let expected =
            postcard::from_bytes::<(u32, u8, [u8; 32], [u8; 32], [u8; 32], [u8; 32])>(&whole[..len])
                .unwrap_err();
        assert_eq!(decode_message(&whole[..len]).unwrap_err().message(), expected.to_string());
    }
    let unknown = postcard::Error::SerdeDeCustom;
    assert_eq!(decode_message(&[4]).unwrap_err().message(), unknown.to_string());
}
