use sendme::codec::{decode_message, encode_message};
use sendme::crypto::{
    derive_ack_tag, derive_share_id, encrypt_ticket_envelope, new_sender_offer,
    receiver_finish_pake, receiver_start_pake, sender_finish_pake,
};
use sendme::error::PhraseError;
use sendme::event::GossipEvent;
use sendme::proto::{
    PhraseMessage, ReceiverAck, ReceiverHello, SenderOffer, SenderTicket, TicketEnvelope,
};
use sendme::receiver::{ReceiverAction, ReceiverPhase, ReceiverSession, TICKET_WAIT};
use sendme::sender::{
    build_sender_offer, SenderAction, SenderPhase, SenderSession, ACK_WAIT,
};

fn sender() -> SenderSession {
    SenderSession::start(
        "correct horse".to_string(),
        "blobabc".to_string(),
        "00ff".to_string(),
        1_000,
        500,
    )
    .unwrap()
}

fn receiver(phrase: &str) -> ReceiverSession {
    ReceiverSession::start(phrase.to_string(), 100 * TICKET_WAIT)
}

fn live_offer(session: &SenderSession) -> SenderOffer {
    match &session.phase {
        SenderPhase::AwaitHello { offer, .. } => offer.clone(),
        _ => panic!("no offer"),
    }
}

fn greet(session: ReceiverSession, offer_bytes: &[u8]) -> (ReceiverSession, Vec<u8>) {
    match session.receive(offer_bytes, 1_500).unwrap() {
        (session, ReceiverAction::SendHello(bytes)) => (session, bytes),
        _ => panic!("no hello"),
    }
}

fn hand_over(session: SenderSession, hello_bytes: &[u8]) -> (SenderSession, Vec<u8>) {
    match session.receive(hello_bytes, 1_600).unwrap() {
        (session, SenderAction::SendTicket(bytes)) => (session, bytes),
        _ => panic!("no ticket"),
    }
}

fn hello_in(bytes: &[u8]) -> ReceiverHello {
    match decode_message(bytes).unwrap() {
        PhraseMessage::ReceiverHello(hello) => hello,
        _ => panic!("no hello"),
    }
}

fn ticket_in(bytes: &[u8]) -> SenderTicket {
    match decode_message(bytes).unwrap() {
        PhraseMessage::SenderTicket(ticket) => ticket,
        _ => panic!("no ticket"),
    }
}

fn ack_in(bytes: &[u8]) -> ReceiverAck {
    match decode_message(bytes).unwrap() {
        PhraseMessage::ReceiverAck(ack) => ack,
        _ => panic!("no ack"),
    }
}

#[test]
fn a_built_offer_expires_after_the_timeout() {
    let (state, offer, bytes) = build_sender_offer("p", [3; 32], 40, 60).unwrap();
    assert_eq!((offer.created_at_ms, offer.expires_at_ms), (40, 100));
    assert_eq!(offer.share_id, [3; 32]);
    assert_eq!(offer.sender_commitment, state.offer.sender_commitment);
    assert_eq!(bytes, encode_message(&PhraseMessage::SenderOffer(offer)).unwrap());
}

#[test]
fn a_sender_starts_with_an_offer_of_its_ticket() {
    let mut session = sender();
    assert_eq!(session.share_id, derive_share_id("blobabc"));
    let offer = live_offer(&session);
    assert_eq!((offer.created_at_ms, offer.expires_at_ms), (1_000, 1_500));
    let announced = session.offer_tick().unwrap();
    assert_eq!(announced, encode_message(&PhraseMessage::SenderOffer(offer)).unwrap());
    assert_eq!(session.offer_tick_count, 1);
    assert!(session.retry_tick().is_none());
}

#[test]
fn a_handoff_with_the_same_phrase_succeeds() {
    let mut s = sender();
    let r = receiver("correct horse");
    let offer_bytes = s.offer_tick().unwrap();
    let (r, hello_bytes) = greet(r, &offer_bytes);
    assert_eq!(r.offer_count, 1);
    let r = r.hello_sent(5);
    let (s, ticket_bytes) = hand_over(s, &hello_bytes);
    let s = s.ticket_sent(6);
    let (_, action) = r.receive(&ticket_bytes, 1_700).unwrap();
    let ack_bytes = match action {
        ReceiverAction::Resolved { ack_bytes, ticket } => {
            assert_eq!(ticket, "blobabc");
            ack_bytes
        }
        _ => panic!("not resolved"),
    };
    let (_, action) = s.receive(&ack_bytes, 1_800).unwrap();
    assert!(matches!(action, SenderAction::Done));
}

#[test]
fn a_receiver_with_another_phrase_does_not_get_the_ticket() {
    let mut s = sender();
    let (r, hello_bytes) = greet(receiver("battery staple"), &s.offer_tick().unwrap());
    let r = r.hello_sent(5);
    let (_, ticket_bytes) = hand_over(s, &hello_bytes);
    let (r, action) = r.receive(&ticket_bytes, 1_700).unwrap();
    assert!(matches!(action, ReceiverAction::Skip));
    assert!(matches!(r.phase, ReceiverPhase::AwaitTicket { .. }));
}

#[test]
fn a_ticket_message_repeats_the_identifiers_of_the_hello() {
    let mut s = sender();
    let (_, hello_bytes) = greet(receiver("correct horse"), &s.offer_tick().unwrap());
    let hello = hello_in(&hello_bytes);
    let (s, ticket_bytes) = match s.receive_with_nonce(&hello_bytes, 1_600, [7; 24]).unwrap() {
        (s, SenderAction::SendTicket(bytes)) => (s, bytes),
        _ => panic!("no ticket"),
    };
    let ticket = ticket_in(&ticket_bytes);
    assert_eq!(ticket.version, 1);
    assert_eq!(ticket.share_id, hello.share_id);
    assert_eq!(ticket.sender_commitment, hello.sender_commitment);
    assert_eq!(ticket.receiver_commitment, hello.receiver_commitment);
    assert_eq!(ticket.nonce, [7; 24]);
    assert!(matches!(s.phase, SenderPhase::Answered { .. }));
}

#[test]
fn an_offer_is_announced_until_it_is_answered() {
    let mut s = sender();
    let first = s.offer_tick().unwrap();
    assert_eq!(s.offer_tick().unwrap(), first);
    assert_eq!(s.offer_tick_count, 2);
    let (_, hello_bytes) = greet(receiver("correct horse"), &first);
    let (mut s, _) = hand_over(s, &hello_bytes);
    assert!(s.offer_tick().is_none());
    assert_eq!(s.offer_tick_count, 2);
    let mut s = s.ticket_sent(0);
    assert!(s.offer_tick().is_none());
}

#[test]
fn an_unacknowledged_ticket_is_repeated() {
    let mut s = sender();
    let (_, hello_bytes) = greet(receiver("correct horse"), &s.offer_tick().unwrap());
    let (mut s, ticket_bytes) = hand_over(s, &hello_bytes);
    assert!(s.retry_tick().is_none());
    s = s.ticket_sent(100);
    assert_eq!(s.retry_tick(), Some(ticket_bytes.clone()));
    assert_eq!(s.retry_tick(), Some(ticket_bytes.clone()));
    match &s.phase {
        SenderPhase::AwaitAck { resend_count, ack_deadline, .. } => {
            assert_eq!(*resend_count, 2);
            assert_eq!(*ack_deadline, 100 + ACK_WAIT);
        }
        _ => panic!("not waiting"),
    }
    match s.receive(&hello_bytes, 1_700).unwrap() {
        (_, SenderAction::ResendTicket(bytes)) => assert_eq!(bytes, ticket_bytes),
        _ => panic!("hello not recognised"),
    }
}

#[test]
fn the_hello_of_another_receiver_does_not_bring_out_the_ticket_again() {
    let mut s = sender();
    let offer_bytes = s.offer_tick().unwrap();
    let (_, hello_bytes) = greet(receiver("correct horse"), &offer_bytes);
    let (_, other_hello) = greet(receiver("correct horse"), &offer_bytes);
    let (s, _) = hand_over(s, &hello_bytes);
    let (_, action) = s.ticket_sent(0).receive(&other_hello, 1_700).unwrap();
    assert!(matches!(action, SenderAction::Settle));
}

#[test]
fn a_hello_for_another_offer_is_passed_over() {
    let mut earlier = sender();
    let (_, hello_bytes) = greet(receiver("correct horse"), &earlier.offer_tick().unwrap());
    let rotated = earlier.rotate(2_000).unwrap();
    let fresh = live_offer(&rotated);
    let (rotated, action) = rotated.receive(&hello_bytes, 2_100).unwrap();
    assert!(matches!(action, SenderAction::Skip));
    assert_eq!(live_offer(&rotated).pake_msg_1, fresh.pake_msg_1);
}

#[test]
fn a_hello_with_a_broken_exchange_message_ends_the_handoff() {
    let s = sender();
    let offer = live_offer(&s);
    let mut hello = receiver_start_pake("correct horse", &offer).hello;
    hello.pake_msg_2 = vec![1, 2, 3];
    let bytes = encode_message(&PhraseMessage::ReceiverHello(hello)).unwrap();
    assert_eq!(s.receive(&bytes, 1_600).err(), Some(PhraseError::SenderFinish));
}

#[test]
fn an_overdue_acknowledgement_leads_to_a_new_offer_of_the_same_share() {
    let mut s = sender();
    let old_offer = live_offer(&s);
    assert!(!s.ack_overdue(u64::MAX));
    let (_, hello_bytes) = greet(receiver("correct horse"), &s.offer_tick().unwrap());
    let (s, _) = hand_over(s, &hello_bytes);
    assert!(!s.ack_overdue(u64::MAX));
    let s = s.ticket_sent(50);
    assert!(!s.ack_overdue(50 + ACK_WAIT - 1));
    assert!(s.ack_overdue(50 + ACK_WAIT));
    let s = s.rotate(9_000).unwrap();
    let offer = live_offer(&s);
    assert_eq!(offer.share_id, old_offer.share_id);
    assert_ne!(offer.sender_commitment, old_offer.sender_commitment);
    assert_eq!((offer.created_at_ms, offer.expires_at_ms), (9_000, 9_500));
    assert_eq!(s.offer_tick_count, 1);
}

#[test]
fn only_the_right_acknowledgement_ends_the_handoff() {
    let mut s = sender();
    let (r, hello_bytes) = greet(receiver("correct horse"), &s.offer_tick().unwrap());
    let (s, ticket_bytes) = hand_over(s, &hello_bytes);
    let mut s = s.ticket_sent(0);
    let ack_bytes = match r.hello_sent(0).receive(&ticket_bytes, 1_700).unwrap() {
        (_, ReceiverAction::Resolved { ack_bytes, .. }) => ack_bytes,
        _ => panic!("not resolved"),
    };
    let right = ack_in(&ack_bytes);
    let mut wrong: Vec<ReceiverAck> = Vec::new();
    for field in 0..5 {
        let mut ack = right.clone();
        match field {
            0 => ack.version = 2,
            1 => ack.share_id[0] ^= 1,
            2 => ack.sender_commitment[0] ^= 1,
            3 => ack.receiver_commitment[0] ^= 1,
            _ => ack.ack_tag[0] ^= 1,
        }
        wrong.push(ack);
    }
    for ack in wrong {
        let bytes = encode_message(&PhraseMessage::ReceiverAck(ack)).unwrap();
        let (next, action) = s.receive(&bytes, 1_700).unwrap();
        assert!(matches!(action, SenderAction::Settle));
        s = next;
    }
    let (_, action) = s.receive(&ack_bytes, 1_700).unwrap();
    assert!(matches!(action, SenderAction::Done));
}

#[test]
fn an_acknowledgement_before_the_ticket_went_out_is_no_end() {
    let mut s = sender();
    let (_, hello_bytes) = greet(receiver("correct horse"), &s.offer_tick().unwrap());
    let hello = hello_in(&hello_bytes);
    let bytes = encode_message(&PhraseMessage::ReceiverAck(ReceiverAck {
        version: 1,
        share_id: hello.share_id,
        sender_commitment: hello.sender_commitment,
        receiver_commitment: hello.receiver_commitment,
        ack_tag: [0; 32],
    }))
    .unwrap();
    let (_, action) = s.receive(&bytes, 1_700).unwrap();
    assert!(matches!(action, SenderAction::Settle));
}

#[test]
fn what_is_no_message_is_skipped_and_what_is_not_for_a_side_is_ignored() {
    let mut s = sender();
    let offer_bytes = s.offer_tick().unwrap();
    let (s, action) = s.receive(&[], 1).unwrap();
    assert!(matches!(action, SenderAction::Skip));
    let (s, action) = s.receive(&offer_bytes, 1).unwrap();
    assert!(matches!(action, SenderAction::Settle));
    let (r, hello_bytes) = greet(receiver("correct horse"), &offer_bytes);
    let (r, action) = r.receive(&[0xff], 1).unwrap();
    assert!(matches!(action, ReceiverAction::Skip));
    let (_, action) = r.receive(&hello_bytes, 1).unwrap();
    assert!(matches!(action, ReceiverAction::Settle));
    let (_, ticket_bytes) = hand_over(s, &hello_bytes);
    let fresh = receiver("correct horse");
    let (fresh, action) = fresh.receive(&ticket_bytes, 1).unwrap();
    assert!(matches!(action, ReceiverAction::Settle));
    assert!(matches!(fresh.phase, ReceiverPhase::AwaitOffer));
}

#[test]
fn a_sender_seals_one_ticket_for_each_offer() {
    let mut s = sender();
    let offer_bytes = s.offer_tick().unwrap();
    let (_, first) = greet(receiver("correct horse"), &offer_bytes);
    let (_, second) = greet(receiver("correct horse"), &offer_bytes);
    let (s, _) = hand_over(s, &first);
    let (s, action) = s.receive(&second, 1_700).unwrap();
    assert!(matches!(action, SenderAction::Settle));
    let (s, action) = s.ticket_sent(0).receive(&second, 1_700).unwrap();
    assert!(matches!(action, SenderAction::Settle));
    assert!(matches!(s.phase, SenderPhase::AwaitAck { .. }));
}

#[test]
fn after_a_new_offer_the_earlier_exchange_is_over() {
    let mut s = sender();
    let (r, hello_bytes) = greet(receiver("correct horse"), &s.offer_tick().unwrap());
    let (s, ticket_bytes) = hand_over(s, &hello_bytes);
    let ack_bytes = match r.hello_sent(0).receive(&ticket_bytes, 1_700).unwrap() {
        (_, ReceiverAction::Resolved { ack_bytes, .. }) => ack_bytes,
        _ => panic!("not resolved"),
    };
    let s = s.ticket_sent(0);
    let s = s.settle(ACK_WAIT - 1, 2_000).unwrap();
    assert!(matches!(s.phase, SenderPhase::AwaitAck { .. }));
    let mut s = s.settle(ACK_WAIT, 2_000).unwrap();
    let offer = live_offer(&s);
    assert_eq!(offer.share_id, derive_share_id("blobabc"));
    assert_eq!((offer.created_at_ms, offer.expires_at_ms), (2_000, 2_500));
    assert!(s.retry_tick().is_none());
    let (s, action) = s.receive(&hello_bytes, 2_100).unwrap();
    assert!(matches!(action, SenderAction::Skip));
    let (mut s, action) = s.receive(&ack_bytes, 2_100).unwrap();
    assert!(matches!(action, SenderAction::Settle));
    assert_eq!(
        s.offer_tick(),
        Some(encode_message(&PhraseMessage::SenderOffer(offer)).unwrap())
    );
}

#[test]
fn a_ticket_for_an_earlier_answer_is_passed_over() {
    let mut s = sender();
    let offer_bytes = s.offer_tick().unwrap();
    let (r, first) = greet(receiver("correct horse"), &offer_bytes);
    let (r, second) = greet(r.hello_sent(0), &offer_bytes);
    let mut r = r.hello_sent(0);
    assert_ne!(first, second);
    assert_eq!(r.retry_tick(), Some(second));
    let (_, ticket_bytes) = hand_over(s, &first);
    let (_, action) = r.receive(&ticket_bytes, 1_700).unwrap();
    assert!(matches!(action, ReceiverAction::Skip));
}

#[test]
fn events_without_a_message_change_nothing_or_end_the_handoff() {
    let (s, action) = sender().on_event(&GossipEvent::Notice, 1).unwrap();
    assert!(matches!(action, SenderAction::Settle));
    let (s, action) = s.on_event(&GossipEvent::StreamError, 1).unwrap();
    assert!(matches!(action, SenderAction::Settle));
    assert!(matches!(s.phase, SenderPhase::AwaitHello { .. }));
    assert_eq!(s.on_event(&GossipEvent::Closed, 1).err(), Some(PhraseError::GossipClosed));
    assert_eq!(
        sender().on_event(&GossipEvent::Deadline, 1).err(),
        Some(PhraseError::HandoffTimeout)
    );
    let (r, action) = receiver("p").on_event(&GossipEvent::Notice, 1).unwrap();
    assert!(matches!(action, ReceiverAction::Settle));
    let (r, action) = r.on_event(&GossipEvent::StreamError, 1).unwrap();
    assert!(matches!(action, ReceiverAction::Settle));
    assert_eq!(r.on_event(&GossipEvent::Closed, 1).err(), Some(PhraseError::GossipClosed));
    assert_eq!(
        receiver("p").on_event(&GossipEvent::Deadline, 1).err(),
        Some(PhraseError::ResolveTimeout)
    );
}

#[test]
fn a_message_event_is_the_message() {
    let mut s = sender();
    let event = GossipEvent::Message(s.offer_tick().unwrap());
    let (_, action) = receiver("correct horse").on_event(&event, 1_500).unwrap();
    let hello = match action {
        ReceiverAction::SendHello(bytes) => GossipEvent::Message(bytes),
        _ => panic!("no hello"),
    };
    let (_, action) = s.on_event(&hello, 1_600).unwrap();
    assert!(matches!(action, SenderAction::SendTicket(_)));
}

#[test]
fn full_counters_matter_only_where_something_is_counted() {
    let mut s = sender();
    let (_, hello_bytes) = greet(receiver("correct horse"), &s.offer_tick().unwrap());
    let (mut s, _) = hand_over(s, &hello_bytes);
    s.offer_tick_count = u64::MAX;
    assert!(s.offer_tick().is_none());
    let mut r = receiver("p");
    r.offer_count = u64::MAX;
    let (_, action) = r.receive(&hello_bytes, 1).unwrap();
    assert!(matches!(action, ReceiverAction::Settle));
}

#[test]
fn invalid_offers_get_no_answer() {
    let offer = new_sender_offer("correct horse", [1; 32], 1_000, 1_500).offer;
    let mut old_version = offer.clone();
    old_version.version = 0;
    let mut broken = offer.clone();
    broken.pake_msg_1 = vec![b'A'; 3];
    let mut r = receiver("correct horse");
    for (bad, now_ms) in [(old_version, 1_500), (offer.clone(), 1_501), (broken, 1_500)] {
        let bytes = encode_message(&PhraseMessage::SenderOffer(bad)).unwrap();
        let (next, action) = r.receive(&bytes, now_ms).unwrap();
        assert!(matches!(action, ReceiverAction::Skip));
        assert!(matches!(next.phase, ReceiverPhase::AwaitOffer));
        r = next;
    }
    assert_eq!(r.offer_count, 3);
    let bytes = encode_message(&PhraseMessage::SenderOffer(offer)).unwrap();
    let (r, action) = r.receive(&bytes, 1_500).unwrap();
    assert!(matches!(action, ReceiverAction::SendHello(_)));
    assert_eq!(r.offer_count, 4);
}

#[test]
fn a_later_offer_replaces_the_one_being_followed() {
    let first = new_sender_offer("correct horse", [1; 32], 1_000, 2_000).offer;
    let second = new_sender_offer("correct horse", [2; 32], 1_000, 2_000).offer;
    let (r, _) = greet(
        receiver("correct horse"),
        &encode_message(&PhraseMessage::SenderOffer(first)).unwrap(),
    );
    let (r, hello_bytes) = greet(
        r.hello_sent(0),
        &encode_message(&PhraseMessage::SenderOffer(second.clone())).unwrap(),
    );
    assert_eq!(hello_in(&hello_bytes).share_id, second.share_id);
    match &r.phase {
        ReceiverPhase::Greeting { offer, .. } => assert_eq!(offer.share_id, second.share_id),
        _ => panic!("not greeting"),
    }
}

#[test]
fn a_hello_is_repeated_until_the_wait_is_over() {
    let mut s = sender();
    let offer_bytes = s.offer_tick().unwrap();
    let mut r = receiver("correct horse");
    assert!(r.retry_tick().is_none());
    assert!(!r.settle(u64::MAX));
    let (mut r, hello_bytes) = greet(r, &offer_bytes);
    assert!(r.retry_tick().is_none());
    assert!(!r.settle(u64::MAX));
    r = r.hello_sent(1_000);
    assert_eq!(r.retry_tick(), Some(hello_bytes.clone()));
    assert_eq!(r.retry_tick(), Some(hello_bytes));
    match &r.phase {
        ReceiverPhase::AwaitTicket { resend_count, wait_deadline, .. } => {
            assert_eq!(*resend_count, 2);
            assert_eq!(*wait_deadline, 1_000 + TICKET_WAIT);
        }
        _ => panic!("not waiting"),
    }
    assert!(!r.settle(1_000 + TICKET_WAIT - 1));
    assert!(r.settle(1_000 + TICKET_WAIT));
    assert!(matches!(r.phase, ReceiverPhase::AwaitOffer));
    assert_eq!(r.offer_count, 1);
}

#[test]
fn no_wait_lasts_beyond_the_deadline() {
    let mut s = sender();
    let r = ReceiverSession::start("correct horse".to_string(), 2_000);
    let (r, _) = greet(r, &s.offer_tick().unwrap());
    let mut r = r.hello_sent(1_000);
    assert!(!r.settle(1_999));
    assert!(r.settle(2_000));
}

#[test]
fn a_ticket_for_another_exchange_is_skipped() {
    let mut s = sender();
    let (r, hello_bytes) = greet(receiver("correct horse"), &s.offer_tick().unwrap());
    let mut r = r.hello_sent(0);
    let (_, ticket_bytes) = hand_over(s, &hello_bytes);
    let right = ticket_in(&ticket_bytes);
    for field in 0..6 {
        let mut ticket = right.clone();
        match field {
            0 => ticket.version = 2,
            1 => ticket.share_id[0] ^= 1,
            2 => ticket.sender_commitment[0] ^= 1,
            3 => ticket.receiver_commitment[0] ^= 1,
            4 => ticket.nonce[0] ^= 1,
            _ => ticket.ciphertext[0] ^= 1,
        }
        let bytes = encode_message(&PhraseMessage::SenderTicket(ticket)).unwrap();
        let (next, action) = r.receive(&bytes, 1_700).unwrap();
        assert!(matches!(action, ReceiverAction::Skip));
        r = next;
    }
    let (_, action) = r.receive(&ticket_bytes, 1_700).unwrap();
    assert!(matches!(action, ReceiverAction::Resolved { .. }));
}

#[test]
fn the_acknowledgement_carries_the_tag_of_the_exchange() {
    let state = new_sender_offer("correct horse", [1; 32], 1_000, 2_000);
    let offer_bytes = encode_message(&PhraseMessage::SenderOffer(state.offer.clone())).unwrap();
    let (r, hello_bytes) = greet(receiver("correct horse"), &offer_bytes);
    let hello = hello_in(&hello_bytes);
    let key = sender_finish_pake(state, &hello).unwrap();
    let envelope = TicketEnvelope {
        ticket: "another".to_string(),
        ticket_hash: String::new(),
        issued_at_ms: 0,
    };
    let (nonce, ciphertext) = encrypt_ticket_envelope(
        key,
        hello.share_id,
        hello.sender_commitment,
        hello.receiver_commitment,
        &envelope,
    )
    .unwrap();
    let bytes = encode_message(&PhraseMessage::SenderTicket(SenderTicket {
        version: 1,
        share_id: hello.share_id,
        sender_commitment: hello.sender_commitment,
        receiver_commitment: hello.receiver_commitment,
        nonce,
        ciphertext,
    }))
    .unwrap();
    match r.hello_sent(0).receive(&bytes, 1_700).unwrap() {
        (_, ReceiverAction::Resolved { ack_bytes, ticket }) => {
            assert_eq!(ticket, "another");
            let ack = ack_in(&ack_bytes);
            assert_eq!(
                Ok(ack.ack_tag),
                derive_ack_tag(
                    key,
                    hello.share_id,
                    hello.sender_commitment,
                    hello.receiver_commitment
                )
            );
        }
        _ => panic!("not resolved"),
    }
}

#[test]
fn a_receiver_answers_with_the_exchange_it_is_given() {
    let offer = new_sender_offer("correct horse", [1; 32], 1_000, 2_000).offer;
    let state = receiver_start_pake("correct horse", &offer);
    let hello = state.hello.clone();
    let (r, action) = receiver("correct horse").greet(offer.clone(), state).unwrap();
    match action {
        ReceiverAction::SendHello(bytes) => {
            assert_eq!(bytes, encode_message(&PhraseMessage::ReceiverHello(hello)).unwrap())
        }
        _ => panic!("no hello"),
    }
    assert!(matches!(r.phase, ReceiverPhase::Greeting { .. }));
    let mut broken = offer.clone();
    broken.pake_msg_1 = Vec::new();
    let state = receiver_start_pake("correct horse", &broken);
    assert!(receiver_finish_pake(state, &broken).is_err());
    let state = receiver_start_pake("correct horse", &broken);
    let (_, action) = receiver("correct horse").greet(broken, state).unwrap();
    assert!(matches!(action, ReceiverAction::Skip));
}
