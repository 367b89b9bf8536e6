//! What holds of a handoff as a whole.

use vstd::prelude::*;
use vstd::utf8::encode_utf8;

use crate::crypto::{
    ack_tag_of, associated_data, hello_for, opened_envelope, receiver_for, receiver_key, sealable,
    sender_commitment_of, sender_for, sender_key, session_key_of, share_id_of, transcript,
    SenderPakeView, DOMAIN_KDF, ID_A, ID_B,
};
use crate::digest::{blake3_hash, hkdf_sha256};
use crate::error::{PhraseError, WireError};
use crate::pake::{message_of, pake_secret, parties_share_a_secret, spake2_secret, PakeSide};
use crate::proto::{hello_matches, AckView, HelloView, MessageView, OfferView};
use crate::receiver::{
    ack_for, offer_valid, receiver_hello_sent, receiver_on_message, receiver_retry_tick,
    ticket_matches, ReceiverActionView, ReceiverView,
};
use crate::sender::{
    ack_matches, answered_under, envelope_of, offering, same_exchange, sender_offer_tick,
    sender_on_message, sender_retry_tick, sender_rotated, sender_ticket_sent, ticket_for,
    ticket_opens, SenderActionView, SenderView,
};
use crate::wire::{exact_message_reads_back, fits, message_wire, read_message};

verus! {

/// Whether a program can hold a message: its fixed fields have their length, and
/// the others fit the machine's memory.
pub open spec fn held(message: MessageView) -> bool {
    message.wf() && fits(message)
}

/// A sender and a receiver who know the same phrase, and of whom the receiver
/// answers the sender's offer, both come to a key, and it is the same key.
pub proof fn same_phrase_same_key(
    phrase: Seq<char>,
    share_id: Seq<u8>,
    created_at_ms: u64,
    expires_at_ms: u64,
    pake_msg_1: Seq<u8>,
    pake_msg_2: Seq<u8>,
)
    requires
        message_of(PakeSide::A, pake_msg_1),
        message_of(PakeSide::B, pake_msg_2),
    ensures
        ({
            let sender = sender_for(phrase, share_id, created_at_ms, expires_at_ms, pake_msg_1);
            let receiver = receiver_for(phrase, sender.offer, pake_msg_2);
            &&& sender_key(sender, receiver.hello) is Some
            &&& sender_key(sender, receiver.hello) == receiver_key(receiver, sender.offer)
        }),
{
    let sender = sender_for(phrase, share_id, created_at_ms, expires_at_ms, pake_msg_1);
    let receiver = receiver_for(phrase, sender.offer, pake_msg_2);
    parties_share_a_secret(sender.party, receiver.party);
}

/// The answer to an offer is taken for an answer to that offer, and for an answer
/// to no offer with another share or another commitment.
pub proof fn answers_belong_to_their_offer(offer: OfferView, other: OfferView, pake_msg_2: Seq<u8>)
    ensures
        hello_matches(offer, hello_for(offer, pake_msg_2)),
        hello_matches(other, hello_for(offer, pake_msg_2)) <==> (other.share_id == offer.share_id
            && other.sender_commitment == offer.sender_commitment),
{
}

/// The identifiers of an exchange can be told from its associated data, so data of
/// one exchange are never those of another.
pub proof fn associated_data_names_the_exchange(
    share_a: Seq<u8>,
    sender_a: Seq<u8>,
    receiver_a: Seq<u8>,
    share_b: Seq<u8>,
    sender_b: Seq<u8>,
    receiver_b: Seq<u8>,
)
    requires
        share_a.len() == 32,
        share_b.len() == 32,
        sender_a.len() == 32,
        sender_b.len() == 32,
        associated_data(share_a, sender_a, receiver_a) == associated_data(
            share_b,
            sender_b,
            receiver_b,
        ),
    ensures
        share_a == share_b,
        sender_a == sender_b,
        receiver_a == receiver_b,
{
    let a = associated_data(share_a, sender_a, receiver_a);
    let b = associated_data(share_b, sender_b, receiver_b);
    assert(share_a =~= a.subrange(0, 32));
    assert(share_b =~= b.subrange(0, 32));
    assert(sender_a =~= a.subrange(32, 64));
    assert(sender_b =~= b.subrange(32, 64));
    assert(receiver_a =~= a.skip(64));
    assert(receiver_b =~= b.skip(64));
}

/// A handoff between a sender and a receiver who know the same phrase succeeds.
///
/// The receiver, whatever it was doing, gets the sender's offer before it expires
/// and sends its hello. The sender gets the hello and sends the sealed ticket. The
/// receiver, at whatever time its hello went out, gets the ticket message and has
/// the sender's ticket. The sender, at whatever time the ticket went out, gets the
/// receiver's acknowledgement and is done.
///
/// The messages are ones that a program can hold, and the sealed ticket is one
/// that `SenderSession::receive` made, which promises `ticket_opens`.
pub proof fn handoff_succeeds(
    s: SenderView,
    r: ReceiverView,
    created_at_ms: u64,
    pake_msg_1: Seq<u8>,
    pake_msg_2: Seq<u8>,
    now_ms: u64,
    issued_at_ms: u64,
    nonce: Seq<u8>,
    hello_sent_at: u64,
    ticket_sent_at: u64,
)
    requires
        message_of(PakeSide::A, pake_msg_1),
        message_of(PakeSide::B, pake_msg_2),
        s.phase == offering(s.phrase, s.share_id, created_at_ms, s.handoff_timeout_ms, pake_msg_1),
        r.phrase == s.phrase,
        ({
            let offer = s.phase->AwaitHello_offer;
            let hello = hello_for(offer, pake_msg_2);
            let key = sender_key(s.phase->AwaitHello_sender, hello)->Some_0;
            let ticket = ticket_for(hello, key, envelope_of(s, issued_at_ms), nonce);
            &&& now_ms <= offer.expires_at_ms
            &&& sealable(envelope_of(s, issued_at_ms))
            &&& ticket_opens(s, hello, issued_at_ms, nonce)
            &&& held(MessageView::SenderOffer(offer))
            &&& held(MessageView::ReceiverHello(hello))
            &&& held(MessageView::SenderTicket(ticket))
            &&& held(MessageView::ReceiverAck(ack_for(ticket, key)))
        }),
    ensures
        ({
            let offer_bytes = s.phase->AwaitHello_offer_bytes;
            let (r1, greeting) = receiver_on_message(r, offer_bytes, now_ms, pake_msg_2);
            let answer = sender_on_message(s, greeting->SendHello_0, issued_at_ms, nonce);
            let (s1, handed) = answer->Ok_0;
            let r2 = receiver_hello_sent(r1, hello_sent_at);
            let (r3, resolved) = receiver_on_message(r2, handed->SendTicket_0, now_ms, pake_msg_2);
            let s2 = sender_ticket_sent(s1, ticket_sent_at);
            let end = sender_on_message(s2, resolved->ack_bytes, issued_at_ms, nonce);
            &&& greeting is SendHello
            &&& answer is Ok
            &&& handed is SendTicket
            &&& resolved is Resolved
            &&& resolved->ticket == s.ticket
            &&& end == Ok::<(SenderView, SenderActionView), PhraseError>((s2, SenderActionView::Done))
        }),
{
    let offer = s.phase->AwaitHello_offer;
    let hello = hello_for(offer, pake_msg_2);
    let key = sender_key(s.phase->AwaitHello_sender, hello)->Some_0;
    let ticket = ticket_for(hello, key, envelope_of(s, issued_at_ms), nonce);
    let ack = ack_for(ticket, key);
    same_phrase_same_key(
        s.phrase,
        s.share_id,
        created_at_ms,
        offer.expires_at_ms,
        pake_msg_1,
        pake_msg_2,
    );
    exact_message_reads_back(MessageView::SenderOffer(offer));
    exact_message_reads_back(MessageView::ReceiverHello(hello));
    exact_message_reads_back(MessageView::SenderTicket(ticket));
    exact_message_reads_back(MessageView::ReceiverAck(ack));
    answers_belong_to_their_offer(offer, offer, pake_msg_2);
}

/// Bytes that are no message, and messages that a side does not take, change
/// neither side.
pub proof fn foreign_messages_change_nothing(
    s: SenderView,
    r: ReceiverView,
    bytes: Seq<u8>,
    now_ms: u64,
    nonce: Seq<u8>,
    pake_msg_2: Seq<u8>,
)
    ensures
        match read_message(bytes) {
            Err(_) => {
                &&& sender_on_message(s, bytes, now_ms, nonce) == Ok::<_, PhraseError>(
                    (s, SenderActionView::Skip),
                )
                &&& receiver_on_message(r, bytes, now_ms, pake_msg_2) == (
                    r,
                    ReceiverActionView::Skip,
                )
            },
            Ok(MessageView::SenderOffer(_)) => sender_on_message(s, bytes, now_ms, nonce)
                == Ok::<_, PhraseError>((s, SenderActionView::Settle)),
            Ok(MessageView::SenderTicket(_)) => sender_on_message(s, bytes, now_ms, nonce)
                == Ok::<_, PhraseError>((s, SenderActionView::Settle)),
            Ok(_) => receiver_on_message(r, bytes, now_ms, pake_msg_2) == (
                r,
                ReceiverActionView::Settle,
            ),
        },
{
}

/// While a sender waits for an acknowledgement, nothing goes out but its sealed
/// ticket, the same bytes each time: on every retry, and for a hello of the same
/// exchange. No offer goes out; no message changes the sender; and the hello of
/// another receiver brings nothing out.
pub proof fn only_the_ticket_goes_out(
    s: SenderView,
    bytes: Seq<u8>,
    issued_at_ms: u64,
    nonce: Seq<u8>,
)
    requires
        s.phase is AwaitAck,
    ensures
        sender_offer_tick(s) == (s, None::<Seq<u8>>),
        sender_retry_tick(s).1 == Some(s.phase->AwaitAck_ticket_bytes),
        ({
            let next = sender_retry_tick(s).0.phase;
            &&& next is AwaitAck
            &&& next->AwaitAck_ticket_bytes == s.phase->AwaitAck_ticket_bytes
            &&& next->AwaitAck_hello == s.phase->AwaitAck_hello
            &&& next->AwaitAck_ack_expected == s.phase->AwaitAck_ack_expected
            &&& next->AwaitAck_ack_deadline == s.phase->AwaitAck_ack_deadline
        }),
        ({
            let r = sender_on_message(s, bytes, issued_at_ms, nonce);
            &&& r is Ok
            &&& r->Ok_0.0 == s
            &&& !(r->Ok_0.1 is SendTicket)
            &&& r->Ok_0.1 is ResendTicket ==> r->Ok_0.1->ResendTicket_0
                == s.phase->AwaitAck_ticket_bytes
            &&& read_message(bytes) matches Ok(MessageView::ReceiverHello(hello)) ==> (if
            same_exchange(hello, s.phase->AwaitAck_hello) {
                r->Ok_0.1 is ResendTicket
            } else {
                r->Ok_0.1 is Settle
            })
        }),
{
}

/// While a sender waits for an acknowledgement, the hello that it answered brings
/// out the same sealed ticket again and changes nothing.
pub proof fn repeated_hello_repeats_the_ticket(s: SenderView, issued_at_ms: u64, nonce: Seq<u8>)
    requires
        s.phase is AwaitAck,
        held(MessageView::ReceiverHello(s.phase->AwaitAck_hello)),
    ensures
        sender_on_message(
            s,
            message_wire(MessageView::ReceiverHello(s.phase->AwaitAck_hello)),
            issued_at_ms,
            nonce,
        ) == Ok::<_, PhraseError>(
            (s, SenderActionView::ResendTicket(s.phase->AwaitAck_ticket_bytes)),
        ),
{
    exact_message_reads_back(MessageView::ReceiverHello(s.phase->AwaitAck_hello));
}

/// Whether `key` is the key that a waiting sender got out of the hello that it
/// answered.
pub open spec fn exchange_key(s: SenderView, key: Seq<u8>) -> bool {
    answered_under(
        s,
        s.phase->AwaitAck_hello,
        s.phase->AwaitAck_ack_expected,
        s.phase->AwaitAck_ticket_bytes,
        key,
    )
}

/// Whether an acknowledgement is of the exchange of `hello` and carries the tag that
/// `key` gives.
pub open spec fn acknowledges(hello: HelloView, key: Seq<u8>, ack: AckView) -> bool {
    ack_matches(
        hello,
        ack_tag_of(
            key,
            hello.share_id,
            hello.sender_commitment,
            hello.receiver_commitment,
        ),
        ack,
    )
}

/// A sender is done exactly where it waits for an acknowledgement and gets one of
/// its exchange with the tag that the key of this exchange gives. The key is the one
/// that the sender got out of the hello that it answered.
pub proof fn only_the_right_ack_ends_a_handoff(
    s: SenderView,
    bytes: Seq<u8>,
    issued_at_ms: u64,
    nonce: Seq<u8>,
)
    requires
        s.wf(),
    ensures
        sender_on_message(s, bytes, issued_at_ms, nonce) matches Ok((next, action)) && action
            is Done <==> {
            &&& s.phase is AwaitAck
            &&& read_message(bytes) matches Ok(MessageView::ReceiverAck(ack)) && exists|
                key: Seq<u8>,
            | #[trigger]
                exchange_key(s, key) && acknowledges(s.phase->AwaitAck_hello, key, ack)
        },
{
    if s.phase is AwaitAck {
        let hello = s.phase->AwaitAck_hello;
        let expected = s.phase->AwaitAck_ack_expected;
        let ticket_bytes = s.phase->AwaitAck_ticket_bytes;
        let key = choose|key: Seq<u8>| #[trigger]
            answered_under(s, hello, expected, ticket_bytes, key);
        assert(exchange_key(s, key));
        assert forall|key: Seq<u8>| #[trigger] exchange_key(s, key) implies expected == ack_tag_of(
            key,
            hello.share_id,
            hello.sender_commitment,
            hello.receiver_commitment,
        ) by {
            assert(answered_under(s, hello, expected, ticket_bytes, key));
        }
    }
}

/// A sender answers one hello for each offer: once it has sealed a ticket, no
/// message makes it seal another or changes it in any way.
pub proof fn one_ticket_for_each_offer(
    s: SenderView,
    bytes: Seq<u8>,
    issued_at_ms: u64,
    nonce: Seq<u8>,
)
    ensures
        sender_on_message(s, bytes, issued_at_ms, nonce) matches Ok((next, action)) ==> {
            &&& action is SendTicket ==> s.phase is AwaitHello && next.phase is Answered
            &&& !(s.phase is AwaitHello) ==> next == s
        },
{
}

/// A receiver has a ticket exactly where it waits for one, gets the one of its
/// offer and answer, and the sealed envelope opens under the key of the exchange.
pub proof fn only_the_right_ticket_resolves(
    r: ReceiverView,
    bytes: Seq<u8>,
    now_ms: u64,
    pake_msg_2: Seq<u8>,
)
    ensures
        receiver_on_message(r, bytes, now_ms, pake_msg_2).1 is Resolved <==> {
            &&& r.phase is AwaitTicket
            &&& read_message(bytes) matches Ok(MessageView::SenderTicket(ticket)) && {
                &&& ticket_matches(
                    r.phase->AwaitTicket_offer,
                    r.phase->AwaitTicket_expected_receiver_commitment,
                    ticket,
                )
                &&& opened_envelope(
                    r.phase->AwaitTicket_sk,
                    associated_data(
                        ticket.share_id,
                        ticket.sender_commitment,
                        ticket.receiver_commitment,
                    ),
                    ticket.nonce,
                    ticket.ciphertext,
                ) is Ok
            }
        },
{
}

/// A receiver never answers an offer of another protocol version or one that has
/// expired.
pub proof fn invalid_offers_get_no_answer(
    r: ReceiverView,
    bytes: Seq<u8>,
    now_ms: u64,
    pake_msg_2: Seq<u8>,
)
    ensures
        receiver_on_message(r, bytes, now_ms, pake_msg_2).1 is SendHello ==> {
            &&& read_message(bytes) matches Ok(MessageView::SenderOffer(offer)) && offer_valid(
                offer,
                now_ms,
            )
        },
{
}

/// Once a sender has made a new offer, the earlier exchange is over. The offer is of
/// the same share and is all that the sender announces. Where its commitment
/// differs from an earlier one, every hello with the earlier commitment is passed
/// over; and no acknowledgement, not even the right one of the earlier exchange,
/// ends the handoff or changes the sender.
pub proof fn a_new_offer_ends_the_earlier_exchange(
    s: SenderView,
    now_ms: u64,
    pake_msg_1: Seq<u8>,
    earlier_commitment: Seq<u8>,
    bytes: Seq<u8>,
    issued_at_ms: u64,
    nonce: Seq<u8>,
)
    requires
        s.wf(),
        earlier_commitment != sender_commitment_of(s.share_id, pake_msg_1),
    ensures
        ({
            let next = sender_rotated(s, now_ms, pake_msg_1);
            let r = sender_on_message(next, bytes, issued_at_ms, nonce);
            &&& next.share_id == s.share_id
            &&& next.phase is AwaitHello
            &&& next.phase->AwaitHello_offer.share_id == share_id_of(s.ticket)
            &&& next.phase->AwaitHello_offer.sender_commitment != earlier_commitment
            &&& sender_offer_tick(next).1 == Some(
                message_wire(MessageView::SenderOffer(next.phase->AwaitHello_offer)),
            )
            &&& sender_retry_tick(next) == (next, None::<Seq<u8>>)
            &&& read_message(bytes) matches Ok(MessageView::ReceiverHello(hello)) ==> (
            hello.sender_commitment == earlier_commitment ==> r == Ok::<_, PhraseError>(
                (next, SenderActionView::Skip),
            ))
            &&& read_message(bytes) matches Ok(MessageView::ReceiverAck(_)) ==> r == Ok::<
                _,
                PhraseError,
            >((next, SenderActionView::Settle))
        }),
{
}

/// A later offer replaces the one that a receiver follows. Once the receiver has
/// answered it and the hello went out, every retry sends the hello to the later
/// offer, and a ticket for another receiver commitment, such as that of the earlier
/// answer, is passed over.
pub proof fn a_later_offer_replaces_the_earlier(
    r: ReceiverView,
    offer: OfferView,
    offer_bytes: Seq<u8>,
    now_ms: u64,
    pake_msg_2: Seq<u8>,
    hello_sent_at: u64,
    bytes: Seq<u8>,
    later_ms: u64,
    later_msg: Seq<u8>,
)
    requires
        read_message(offer_bytes) == Ok::<_, WireError>(MessageView::SenderOffer(offer)),
        offer_valid(offer, now_ms),
        message_of(PakeSide::A, offer.pake_msg_1),
    ensures
        ({
            let hello = hello_for(offer, pake_msg_2);
            let hello_bytes = message_wire(MessageView::ReceiverHello(hello));
            let (r1, greeting) = receiver_on_message(r, offer_bytes, now_ms, pake_msg_2);
            let r2 = receiver_hello_sent(r1, hello_sent_at);
            &&& greeting == ReceiverActionView::SendHello(hello_bytes)
            &&& hello.share_id == offer.share_id
            &&& hello.sender_commitment == offer.sender_commitment
            &&& r2.phase is AwaitTicket
            &&& r2.phase->AwaitTicket_offer == offer
            &&& receiver_retry_tick(r2).1 == Some(hello_bytes)
            &&& read_message(bytes) matches Ok(MessageView::SenderTicket(ticket)) ==> (
            ticket.receiver_commitment != hello.receiver_commitment ==> receiver_on_message(
                r2,
                bytes,
                later_ms,
                later_msg,
            ) == (r2, ReceiverActionView::Skip))
        }),
{
}

/// A sender's key rests on its own offer and on two fields of the hello, the
/// receiver's message and commitment: a hello that differs in nothing else gives the
/// same key.
pub proof fn other_fields_of_a_hello_do_not_enter_the_key(
    sender: SenderPakeView,
    hello: HelloView,
    other: HelloView,
)
    requires
        other.pake_msg_2 == hello.pake_msg_2,
        other.receiver_commitment == hello.receiver_commitment,
    ensures
        sender_key(sender, other) == sender_key(sender, hello),
{
}

/// A hello with another receiver commitment is not refused, but its key is expanded
/// under the hash of another transcript.
pub proof fn another_commitment_gives_another_transcript(
    sender: SenderPakeView,
    hello: HelloView,
    other: HelloView,
)
    requires
        sender.offer.wf(),
        hello.wf(),
        other.wf(),
        other.pake_msg_2 == hello.pake_msg_2,
        other.receiver_commitment != hello.receiver_commitment,
        sender_key(sender, hello) is Some,
    ensures
        ({
            let secret = pake_secret(sender.party, hello.pake_msg_2)->Some_0;
            let said = transcript(
                sender.offer.share_id,
                sender.offer.sender_commitment,
                hello.receiver_commitment,
                sender.offer.pake_msg_1,
                hello.pake_msg_2,
            );
            let other_said = transcript(
                sender.offer.share_id,
                sender.offer.sender_commitment,
                other.receiver_commitment,
                sender.offer.pake_msg_1,
                hello.pake_msg_2,
            );
            let info = encode_utf8(DOMAIN_KDF@);
            &&& said != other_said
            &&& sender_key(sender, hello) == Some(hkdf_sha256(blake3_hash(said), secret, info))
            &&& sender_key(sender, other) == Some(
                hkdf_sha256(blake3_hash(other_said), secret, info),
            )
        }),
{
    let head = encode_utf8(DOMAIN_KDF@) + sender.offer.share_id + sender.offer.sender_commitment;
    let said = head + hello.receiver_commitment + hello.pake_msg_2 + sender.offer.pake_msg_1;
    let other_said = head + other.receiver_commitment + hello.pake_msg_2
        + sender.offer.pake_msg_1;
    let from = head.len() as int;
    assert(said.subrange(from, from + 32) =~= hello.receiver_commitment);
    assert(other_said.subrange(from, from + 32) =~= other.receiver_commitment);
}

/// A wrong phrase is not reported by the key exchange. A sender and a receiver who
/// know different phrases both come to a key; each is expanded, for the same
/// exchange, from the secret of its own phrase, and the phrases differ as bytes.
pub proof fn another_phrase_gives_a_key_from_another_secret(
    phrase_a: Seq<char>,
    phrase_b: Seq<char>,
    share_id: Seq<u8>,
    created_at_ms: u64,
    expires_at_ms: u64,
    pake_msg_1: Seq<u8>,
    pake_msg_2: Seq<u8>,
)
    requires
        phrase_a != phrase_b,
        message_of(PakeSide::A, pake_msg_1),
        message_of(PakeSide::B, pake_msg_2),
    ensures
        encode_utf8(phrase_a) != encode_utf8(phrase_b),
        ({
            let sender = sender_for(phrase_a, share_id, created_at_ms, expires_at_ms, pake_msg_1);
            let receiver = receiver_for(phrase_b, sender.offer, pake_msg_2);
            let (id_a, id_b) = (encode_utf8(ID_A@), encode_utf8(ID_B@));
            let key_from = |phrase: Seq<char>|
                session_key_of(
                    spake2_secret(encode_utf8(phrase), id_a, id_b, pake_msg_1, pake_msg_2),
                    share_id,
                    sender.offer.sender_commitment,
                    receiver.hello.receiver_commitment,
                    pake_msg_1,
                    pake_msg_2,
                );
            &&& sender_key(sender, receiver.hello) == Some(key_from(phrase_a))
            &&& receiver_key(receiver, sender.offer) == Some(key_from(phrase_b))
        }),
{
    vstd::utf8::encode_utf8_decode_utf8(phrase_a);
    vstd::utf8::encode_utf8_decode_utf8(phrase_b);
}

} // verus!
