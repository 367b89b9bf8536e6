//! What each step of a sender and of a receiver comes to, field by field.

use vstd::prelude::*;

use crate::cipher::xchacha20poly1305_seal;
use crate::crypto::{
    ack_tag_of, associated_data, hello_for, opened_envelope, receiver_for, receiver_key, sealable,
    sender_commitment_of, sender_key, share_id_of, ReceiverPakeView,
};
use crate::error::{PhraseError, WireError};
use crate::event::GossipEventView;
use crate::laws::{exchange_key, handoff_succeeds, held};
use crate::pake::{message_of, PakeSide};
use crate::proto::{AckView, EnvelopeView, HelloView, MessageView, OfferView, TicketView};
use crate::receiver::{
    ack_for, receiver_greets, receiver_hello_sent, receiver_on_event, receiver_on_message,
    receiver_outcome, receiver_retry_tick, receiver_wait_over, ReceiverAction, ReceiverActionView,
    ReceiverSession, ReceiverView,
};
use crate::sender::{
    answered_under, envelope_of, offering, sender_ack_overdue, sender_offer_tick, sender_on_event,
    sender_on_message, sender_outcome, sender_retry_tick, sender_rotated, sender_ticket_sent,
    ticket_for, ticket_opens, SenderAction, SenderActionView, SenderSession, SenderView,
};
use crate::wire::{envelope_wire, exact_message_reads_back, message_wire, read_message};

verus! {

/// What a sender does with a message event is what it does with the bytes of the
/// message, in every phase. News and survivable failures change nothing; the end of the
/// stream and the end of the time each end the handoff with their own error.
pub proof fn a_sender_takes_a_message_event_for_its_bytes(
    s: SenderView,
    bytes: Seq<u8>,
    issued_at_ms: u64,
    nonce: Seq<u8>,
)
    ensures
        sender_on_event(s, GossipEventView::Message(bytes), issued_at_ms, nonce)
            == sender_on_message(s, bytes, issued_at_ms, nonce),
        sender_on_event(s, GossipEventView::Notice, issued_at_ms, nonce) == Ok::<_, PhraseError>(
            (s, SenderActionView::Settle),
        ),
        sender_on_event(s, GossipEventView::StreamError, issued_at_ms, nonce) == Ok::<
            _,
            PhraseError,
        >((s, SenderActionView::Settle)),
        sender_on_event(s, GossipEventView::Closed, issued_at_ms, nonce) == Err::<
            (SenderView, SenderActionView),
            PhraseError,
        >(PhraseError::GossipClosed),
        sender_on_event(s, GossipEventView::Deadline, issued_at_ms, nonce) == Err::<
            (SenderView, SenderActionView),
            PhraseError,
        >(PhraseError::HandoffTimeout),
{
}

/// What a receiver does with a message event is what it does with the bytes of the
/// message, in every phase. News and survivable failures change nothing; the end of the
/// stream and the end of the time each end the handoff with their own error.
pub proof fn a_receiver_takes_a_message_event_for_its_bytes(
    r: ReceiverView,
    bytes: Seq<u8>,
    now_ms: u64,
    pake_msg_2: Seq<u8>,
)
    ensures
        receiver_on_event(r, GossipEventView::Message(bytes), now_ms, pake_msg_2) == Ok::<
            _,
            PhraseError,
        >(receiver_on_message(r, bytes, now_ms, pake_msg_2)),
        receiver_on_event(r, GossipEventView::Notice, now_ms, pake_msg_2) == Ok::<_, PhraseError>(
            (r, ReceiverActionView::Settle),
        ),
        receiver_on_event(r, GossipEventView::StreamError, now_ms, pake_msg_2) == Ok::<
            _,
            PhraseError,
        >((r, ReceiverActionView::Settle)),
        receiver_on_event(r, GossipEventView::Closed, now_ms, pake_msg_2) == Err::<
            (ReceiverView, ReceiverActionView),
            PhraseError,
        >(PhraseError::GossipClosed),
        receiver_on_event(r, GossipEventView::Deadline, now_ms, pake_msg_2) == Err::<
            (ReceiverView, ReceiverActionView),
            PhraseError,
        >(PhraseError::ResolveTimeout),
{
}

/// A waiting sender is done with the event of an acknowledgement exactly where it is of
/// version 1, names the share and the two commitments of the hello that was answered,
/// and carries the awaited tag. No acknowledgement changes a sender.
pub proof fn an_ack_event_ends_the_handoff_where_it_is_right(
    s: SenderView,
    bytes: Seq<u8>,
    ack: AckView,
    issued_at_ms: u64,
    nonce: Seq<u8>,
)
    requires
        read_message(bytes) == Ok::<_, WireError>(MessageView::ReceiverAck(ack)),
    ensures
        ({
            let r = sender_on_event(s, GossipEventView::Message(bytes), issued_at_ms, nonce);
            let hello = s.phase->AwaitAck_hello;
            let right = s.phase is AwaitAck && ack.version == 1 && ack.share_id == hello.share_id
                && ack.sender_commitment == hello.sender_commitment && ack.receiver_commitment
                == hello.receiver_commitment && ack.ack_tag == s.phase->AwaitAck_ack_expected;
            &&& r is Ok
            &&& r->Ok_0.0 == s
            &&& r->Ok_0.1 is Done <==> right
            &&& r->Ok_0.1 is Settle <==> !right
        }),
{
}

/// The tag that a well-formed waiting sender is done with is the tag of the key that it
/// got out of the hello, for the three identifiers of the exchange.
pub proof fn the_awaited_tag_is_that_of_the_key(s: SenderView, key: Seq<u8>)
    requires
        s.wf(),
        s.phase is AwaitAck,
        exchange_key(s, key),
    ensures
        s.phase->AwaitAck_ack_expected == ack_tag_of(
            key,
            s.phase->AwaitAck_hello.share_id,
            s.phase->AwaitAck_hello.sender_commitment,
            s.phase->AwaitAck_hello.receiver_commitment,
        ),
{
    assert(answered_under(
        s,
        s.phase->AwaitAck_hello,
        s.phase->AwaitAck_ack_expected,
        s.phase->AwaitAck_ticket_bytes,
        key,
    ));
}

/// Bytes that are no message are skipped, and offers and tickets are none of a sender's
/// business: in every phase they change nothing.
pub proof fn what_a_sender_passes_over(
    s: SenderView,
    bytes: Seq<u8>,
    issued_at_ms: u64,
    nonce: Seq<u8>,
)
    ensures
        ({
            let r = sender_on_message(s, bytes, issued_at_ms, nonce);
            match read_message(bytes) {
                Err(_) => r is Ok && r->Ok_0.0 == s && r->Ok_0.1 is Skip,
                Ok(MessageView::SenderOffer(_)) => r is Ok && r->Ok_0.0 == s && r->Ok_0.1 is Settle,
                Ok(MessageView::SenderTicket(_)) => r is Ok && r->Ok_0.0 == s
                    && r->Ok_0.1 is Settle,
                Ok(_) => true,
            }
        }),
{
}

/// An announcing sender passes over a hello that is not of version 1 or does not repeat
/// its offer's share and commitment. A hello that does, with a message that no receiver
/// can have sent, ends the handoff; so does one where the envelope cannot be sealed.
pub proof fn which_hellos_an_announcing_sender_refuses(
    s: SenderView,
    bytes: Seq<u8>,
    hello: HelloView,
    issued_at_ms: u64,
    nonce: Seq<u8>,
)
    requires
        s.phase is AwaitHello,
        read_message(bytes) == Ok::<_, WireError>(MessageView::ReceiverHello(hello)),
    ensures
        ({
            let r = sender_on_message(s, bytes, issued_at_ms, nonce);
            let offer = s.phase->AwaitHello_offer;
            let repeats = hello.version == 1 && hello.share_id == offer.share_id
                && hello.sender_commitment == offer.sender_commitment;
            let key = sender_key(s.phase->AwaitHello_sender, hello);
            let envelope = EnvelopeView {
                ticket: s.ticket,
                ticket_hash: s.ticket_hash,
                issued_at_ms,
            };
            &&& !repeats ==> r is Ok && r->Ok_0.0 == s && r->Ok_0.1 is Skip
            &&& repeats && key is None ==> r == Err::<(SenderView, SenderActionView), PhraseError>(
                PhraseError::SenderFinish,
            )
            &&& repeats && key is Some && !sealable(envelope) ==> r == Err::<
                (SenderView, SenderActionView),
                PhraseError,
            >(PhraseError::Encrypt)
            &&& r is Ok && r->Ok_0.1 is SendTicket <==> repeats && key is Some && sealable(envelope)
        }),
{
}

/// What an announcing sender sends for a hello that it answers is a ticket message of
/// version 1 with the identifiers of the hello and the nonce, in which its whole ticket,
/// the ticket's hash and the time are sealed under the key of the exchange beside these
/// identifiers. It then stands ready with this message, the hello, and the tag of the
/// key; all else of it stays.
pub proof fn what_a_sender_answers(
    s: SenderView,
    bytes: Seq<u8>,
    hello: HelloView,
    issued_at_ms: u64,
    nonce: Seq<u8>,
)
    requires
        s.phase is AwaitHello,
        read_message(bytes) == Ok::<_, WireError>(MessageView::ReceiverHello(hello)),
        sender_on_message(s, bytes, issued_at_ms, nonce) is Ok,
        sender_on_message(s, bytes, issued_at_ms, nonce)->Ok_0.1 is SendTicket,
    ensures
        ({
            let (next, action) = sender_on_message(s, bytes, issued_at_ms, nonce)->Ok_0;
            let key = sender_key(s.phase->AwaitHello_sender, hello)->Some_0;
            let ticket = TicketView {
                version: 1,
                share_id: hello.share_id,
                sender_commitment: hello.sender_commitment,
                receiver_commitment: hello.receiver_commitment,
                nonce,
                ciphertext: xchacha20poly1305_seal(
                    key,
                    nonce,
                    associated_data(
                        hello.share_id,
                        hello.sender_commitment,
                        hello.receiver_commitment,
                    ),
                    envelope_wire(
                        EnvelopeView {
                            ticket: s.ticket,
                            ticket_hash: s.ticket_hash,
                            issued_at_ms,
                        },
                    ),
                ),
            };
            &&& action->SendTicket_0 == message_wire(MessageView::SenderTicket(ticket))
            &&& next.phase is Answered
            &&& next.phase->Answered_hello == hello
            &&& next.phase->Answered_ticket_bytes == action->SendTicket_0
            &&& next.phase->Answered_ack_expected == ack_tag_of(
                key,
                hello.share_id,
                hello.sender_commitment,
                hello.receiver_commitment,
            )
            &&& next.phrase == s.phrase
            &&& next.ticket == s.ticket
            &&& next.ticket_hash == s.ticket_hash
            &&& next.share_id == s.share_id
            &&& next.handoff_timeout_ms == s.handoff_timeout_ms
            &&& next.offer_tick_count == s.offer_tick_count
        }),
{
}

/// A hello never changes a sender that has answered one. Once its ticket went out, the
/// sender sends that ticket again exactly for a hello with the share and the two
/// commitments of the one that it answered, of whatever version.
pub proof fn what_a_hello_does_after_the_answer(
    s: SenderView,
    bytes: Seq<u8>,
    hello: HelloView,
    issued_at_ms: u64,
    nonce: Seq<u8>,
)
    requires
        !(s.phase is AwaitHello),
        read_message(bytes) == Ok::<_, WireError>(MessageView::ReceiverHello(hello)),
    ensures
        ({
            let r = sender_on_message(s, bytes, issued_at_ms, nonce);
            let active = s.phase->AwaitAck_hello;
            let again = s.phase is AwaitAck && hello.share_id == active.share_id
                && hello.sender_commitment == active.sender_commitment && hello.receiver_commitment
                == active.receiver_commitment;
            &&& r is Ok
            &&& r->Ok_0.0 == s
            &&& again ==> r->Ok_0.1 == SenderActionView::ResendTicket(
                s.phase->AwaitAck_ticket_bytes,
            )
            &&& !again ==> r->Ok_0.1 is Settle
        }),
{
}

/// Once the ticket of an answered sender went out at `now`, its acknowledgement is
/// overdue at `t` exactly where eight seconds have passed. The sender goes on with the
/// same hello, tag and ticket, and has resent nothing yet.
pub proof fn an_ack_is_overdue_after_eight_seconds(s: SenderView, now: u64, t: u64)
    requires
        s.phase is Answered,
        now + 8_000_000_000 <= u64::MAX,
    ensures
        ({
            let next = sender_ticket_sent(s, now);
            &&& sender_ack_overdue(next, t) <==> t >= now + 8_000_000_000
            &&& next.phase is AwaitAck
            &&& next.phase->AwaitAck_hello == s.phase->Answered_hello
            &&& next.phase->AwaitAck_ack_expected == s.phase->Answered_ack_expected
            &&& next.phase->AwaitAck_ticket_bytes == s.phase->Answered_ticket_bytes
            &&& next.phase->AwaitAck_resend_count == 0
            &&& next.phrase == s.phrase
            &&& next.ticket == s.ticket
            &&& next.ticket_hash == s.ticket_hash
            &&& next.share_id == s.share_id
            &&& next.handoff_timeout_ms == s.handoff_timeout_ms
            &&& next.offer_tick_count == s.offer_tick_count
        }),
{
}

/// No acknowledgement is overdue of a sender that does not wait for one; of a waiting
/// sender it is from the deadline on; retries do not move the deadline; and a report that
/// a ticket went out means nothing to a sender that is not about to send one.
pub proof fn when_an_ack_is_overdue(s: SenderView, now: u64, t: u64)
    ensures
        !(s.phase is AwaitAck) ==> !sender_ack_overdue(s, t),
        s.phase is AwaitAck ==> (sender_ack_overdue(s, t) <==> t
            >= s.phase->AwaitAck_ack_deadline),
        sender_ack_overdue(sender_retry_tick(s).0, t) == sender_ack_overdue(s, t),
        !(s.phase is Answered) ==> sender_ticket_sent(s, now) == s,
{
}

/// The announce interval brings out the offer of an announcing sender, and nothing else;
/// it is counted and changes nothing more.
pub proof fn what_an_announce_interval_brings_out(s: SenderView)
    ensures
        s.phase is AwaitHello ==> sender_offer_tick(s).1 == Some(
            s.phase->AwaitHello_offer_bytes,
        ),
        !(s.phase is AwaitHello) ==> sender_offer_tick(s).1 is None && sender_offer_tick(s).0 == s,
        s.phase is AwaitHello && s.offer_tick_count < u64::MAX
            ==> sender_offer_tick(s).0.offer_tick_count == s.offer_tick_count + 1,
        sender_offer_tick(s).0.phase == s.phase,
        sender_offer_tick(s).0.phrase == s.phrase,
        sender_offer_tick(s).0.ticket == s.ticket,
        sender_offer_tick(s).0.ticket_hash == s.ticket_hash,
        sender_offer_tick(s).0.share_id == s.share_id,
        sender_offer_tick(s).0.handoff_timeout_ms == s.handoff_timeout_ms,
{
}

/// The retry interval brings out the ticket of a waiting sender, and nothing else; it is
/// counted and changes nothing more.
pub proof fn what_a_sender_retries(s: SenderView)
    ensures
        !(s.phase is AwaitAck) ==> sender_retry_tick(s) == (s, None::<Seq<u8>>),
        s.phase is AwaitAck ==> {
            let (next, send) = sender_retry_tick(s);
            &&& send == Some(s.phase->AwaitAck_ticket_bytes)
            &&& next.phase is AwaitAck
            &&& next.phase->AwaitAck_hello == s.phase->AwaitAck_hello
            &&& next.phase->AwaitAck_ack_expected == s.phase->AwaitAck_ack_expected
            &&& next.phase->AwaitAck_ticket_bytes == s.phase->AwaitAck_ticket_bytes
            &&& next.phase->AwaitAck_ack_deadline == s.phase->AwaitAck_ack_deadline
            &&& s.phase->AwaitAck_resend_count < u64::MAX ==> next.phase->AwaitAck_resend_count
                == s.phase->AwaitAck_resend_count + 1
            &&& next.phrase == s.phrase
            &&& next.ticket == s.ticket
            &&& next.ticket_hash == s.ticket_hash
            &&& next.share_id == s.share_id
            &&& next.handoff_timeout_ms == s.handoff_timeout_ms
            &&& next.offer_tick_count == s.offer_tick_count
        },
{
}

/// The offer that a sender announces, at its start and after a rotation, is of version 1
/// and of its share, was made when it was made, and expires when the handoff timeout has
/// passed since; its commitment is that of its message; and its bytes are those of the
/// offer, which the sender's state repeats.
pub proof fn an_offer_lasts_for_the_handoff_timeout(
    phrase: Seq<char>,
    share_id: Seq<u8>,
    created_at_ms: u64,
    timeout_ms: u64,
    pake_msg_1: Seq<u8>,
)
    requires
        created_at_ms + timeout_ms <= u64::MAX,
    ensures
        ({
            let phase = offering(phrase, share_id, created_at_ms, timeout_ms, pake_msg_1);
            let offer = phase->AwaitHello_offer;
            &&& phase is AwaitHello
            &&& offer.created_at_ms == created_at_ms
            &&& offer.expires_at_ms == created_at_ms + timeout_ms
            &&& offer.version == 1
            &&& offer.share_id == share_id
            &&& offer.sender_commitment == sender_commitment_of(share_id, pake_msg_1)
            &&& offer.pake_msg_1 == pake_msg_1
            &&& phase->AwaitHello_offer_bytes == message_wire(MessageView::SenderOffer(offer))
            &&& phase->AwaitHello_sender.offer == offer
            &&& phase->AwaitHello_sender.party.password == vstd::utf8::encode_utf8(phrase)
            &&& phase->AwaitHello_sender.party.side == PakeSide::A
            &&& phase->AwaitHello_sender.party.outbound == pake_msg_1
        }),
{
}

/// A rotation makes such an offer of the same share under the same phrase, with the same
/// timeout, and leaves all else as it is.
pub proof fn what_a_rotation_changes(s: SenderView, now_ms: u64, pake_msg_1: Seq<u8>)
    requires
        now_ms + s.handoff_timeout_ms <= u64::MAX,
    ensures
        ({
            let next = sender_rotated(s, now_ms, pake_msg_1);
            let offer = next.phase->AwaitHello_offer;
            &&& next.phase is AwaitHello
            &&& offer.created_at_ms == now_ms
            &&& offer.expires_at_ms == now_ms + s.handoff_timeout_ms
            &&& offer.share_id == s.share_id
            &&& offer.pake_msg_1 == pake_msg_1
            &&& next.phase->AwaitHello_offer_bytes == message_wire(MessageView::SenderOffer(offer))
            &&& next.phase->AwaitHello_sender.offer == offer
            &&& next.phase->AwaitHello_sender.party.password == vstd::utf8::encode_utf8(s.phrase)
            &&& next.phrase == s.phrase
            &&& next.ticket == s.ticket
            &&& next.ticket_hash == s.ticket_hash
            &&& next.share_id == s.share_id
            &&& next.handoff_timeout_ms == s.handoff_timeout_ms
            &&& next.offer_tick_count == s.offer_tick_count
        }),
{
}

/// A receiver that gets the offer of a sender at any time until the handoff timeout has
/// passed since it was made answers it; afterwards it does not.
pub proof fn an_offer_is_answered_until_it_expires(
    r: ReceiverView,
    phrase: Seq<char>,
    share_id: Seq<u8>,
    created_at_ms: u64,
    timeout_ms: u64,
    pake_msg_1: Seq<u8>,
    now_ms: u64,
    pake_msg_2: Seq<u8>,
)
    requires
        created_at_ms + timeout_ms <= u64::MAX,
        message_of(PakeSide::A, pake_msg_1),
        held(
            MessageView::SenderOffer(
                offering(
                    phrase,
                    share_id,
                    created_at_ms,
                    timeout_ms,
                    pake_msg_1,
                )->AwaitHello_offer,
            ),
        ),
    ensures
        ({
            let phase = offering(phrase, share_id, created_at_ms, timeout_ms, pake_msg_1);
            let bytes = phase->AwaitHello_offer_bytes;
            let action = receiver_on_message(r, bytes, now_ms, pake_msg_2).1;
            &&& now_ms <= created_at_ms + timeout_ms ==> action is SendHello
            &&& now_ms > created_at_ms + timeout_ms ==> action is Skip
        }),
{
    let phase = offering(phrase, share_id, created_at_ms, timeout_ms, pake_msg_1);
    exact_message_reads_back(MessageView::SenderOffer(phase->AwaitHello_offer));
}

/// Bytes that are no message are skipped, and hellos and acknowledgements are none of a
/// receiver's business: in every phase they change nothing.
pub proof fn what_a_receiver_passes_over(
    r: ReceiverView,
    bytes: Seq<u8>,
    now_ms: u64,
    pake_msg_2: Seq<u8>,
)
    ensures
        ({
            let (next, action) = receiver_on_message(r, bytes, now_ms, pake_msg_2);
            match read_message(bytes) {
                Err(_) => next == r && action is Skip,
                Ok(MessageView::ReceiverHello(_)) => next == r && action is Settle,
                Ok(MessageView::ReceiverAck(_)) => next == r && action is Settle,
                Ok(MessageView::SenderTicket(_)) => next == r,
                Ok(MessageView::SenderOffer(_)) => next.phrase == r.phrase && next.deadline
                    == r.deadline,
            }
        }),
{
}

/// A receiver, whatever it was doing, answers an offer exactly where it is of version 1,
/// has not expired, and carries a message that a sender can have sent. It counts every
/// offer; one that it does not answer changes nothing more and is skipped.
pub proof fn which_offers_a_receiver_answers(
    r: ReceiverView,
    bytes: Seq<u8>,
    offer: OfferView,
    now_ms: u64,
    pake_msg_2: Seq<u8>,
)
    requires
        read_message(bytes) == Ok::<_, WireError>(MessageView::SenderOffer(offer)),
    ensures
        ({
            let (next, action) = receiver_on_message(r, bytes, now_ms, pake_msg_2);
            let answers = offer.version == 1 && now_ms <= offer.expires_at_ms && message_of(
                PakeSide::A,
                offer.pake_msg_1,
            );
            &&& action is SendHello <==> answers
            &&& action is Skip <==> !answers
            &&& !answers ==> next.phase == r.phase
            &&& r.offer_count < u64::MAX ==> next.offer_count == r.offer_count + 1
        }),
{
}

/// What a receiver sends for an offer that it answers is a hello of version 1 that repeats
/// the offer's share and commitment and carries its own message and commitment. It then
/// stands ready with this hello, the offer, and the key that it got out of the offer
/// under its phrase.
pub proof fn what_a_receiver_answers(
    r: ReceiverView,
    bytes: Seq<u8>,
    offer: OfferView,
    now_ms: u64,
    pake_msg_2: Seq<u8>,
)
    requires
        read_message(bytes) == Ok::<_, WireError>(MessageView::SenderOffer(offer)),
        receiver_on_message(r, bytes, now_ms, pake_msg_2).1 is SendHello,
    ensures
        ({
            let (next, action) = receiver_on_message(r, bytes, now_ms, pake_msg_2);
            let hello = hello_for(offer, pake_msg_2);
            &&& action->SendHello_0 == message_wire(MessageView::ReceiverHello(hello))
            &&& next.phase is Greeting
            &&& next.phase->Greeting_offer == offer
            &&& next.phase->Greeting_expected_receiver_commitment == hello.receiver_commitment
            &&& next.phase->Greeting_hello_bytes == action->SendHello_0
            &&& receiver_key(receiver_for(r.phrase, offer, pake_msg_2), offer) == Some(
                next.phase->Greeting_sk,
            )
        }),
{
}

/// Given its part of the key exchange, a receiver answers an offer exactly where it gets a
/// key out of it, with the hello of that part.
pub proof fn what_a_receiver_answers_with_a_given_part(
    r: ReceiverView,
    offer: OfferView,
    part: ReceiverPakeView,
)
    ensures
        ({
            let (next, action) = receiver_greets(r, offer, part);
            let hello_bytes = message_wire(MessageView::ReceiverHello(part.hello));
            &&& receiver_key(part, offer) is None ==> next == r && action is Skip
            &&& receiver_key(part, offer) is Some ==> {
                &&& action == ReceiverActionView::SendHello(hello_bytes)
                &&& next.phase is Greeting
                &&& next.phase->Greeting_offer == offer
                &&& next.phase->Greeting_expected_receiver_commitment
                    == part.hello.receiver_commitment
                &&& Some(next.phase->Greeting_sk) == receiver_key(part, offer)
                &&& next.phase->Greeting_hello_bytes == hello_bytes
                &&& next.phrase == r.phrase
                &&& next.deadline == r.deadline
                &&& next.offer_count == r.offer_count
            }
        }),
{
}

/// A waiting receiver that gets the event of a ticket has the ticket exactly where the
/// message is of version 1, names the share and the commitment of the followed offer and
/// its own commitment, and opens under its key. It has then the ticket of the opened
/// envelope, and its acknowledgement is of version 1, names the same identifiers, and
/// carries the tag of the key. A waiting receiver skips every other ticket; one that does
/// not wait takes none; and no ticket changes a receiver.
pub proof fn a_ticket_event_resolves_where_it_is_right(
    r: ReceiverView,
    bytes: Seq<u8>,
    ticket: TicketView,
    now_ms: u64,
    pake_msg_2: Seq<u8>,
)
    requires
        read_message(bytes) == Ok::<_, WireError>(MessageView::SenderTicket(ticket)),
    ensures
        ({
            let event = GossipEventView::Message(bytes);
            let outcome = receiver_on_event(r, event, now_ms, pake_msg_2);
            let action = outcome->Ok_0.1;
            let offer = r.phase->AwaitTicket_offer;
            let sk = r.phase->AwaitTicket_sk;
            let opened = opened_envelope(
                sk,
                associated_data(
                    ticket.share_id,
                    ticket.sender_commitment,
                    ticket.receiver_commitment,
                ),
                ticket.nonce,
                ticket.ciphertext,
            );
            let right = r.phase is AwaitTicket && ticket.version == 1 && ticket.share_id
                == offer.share_id && ticket.sender_commitment == offer.sender_commitment
                && ticket.receiver_commitment
                == r.phase->AwaitTicket_expected_receiver_commitment && opened is Ok;
            let ack = AckView {
                version: 1,
                share_id: ticket.share_id,
                sender_commitment: ticket.sender_commitment,
                receiver_commitment: ticket.receiver_commitment,
                ack_tag: ack_tag_of(
                    sk,
                    ticket.share_id,
                    ticket.sender_commitment,
                    ticket.receiver_commitment,
                ),
            };
            &&& outcome is Ok
            &&& outcome->Ok_0.0 == r
            &&& action is Resolved <==> right
            &&& right ==> action->ticket == opened->Ok_0.ticket
            &&& right ==> action->ack_bytes == message_wire(MessageView::ReceiverAck(ack))
            &&& r.phase is AwaitTicket && !right ==> action is Skip
            &&& !(r.phase is AwaitTicket) ==> action is Settle
        }),
{
}

/// Once the hello of a receiver went out at `now`, the wait for the ticket is over at `t`
/// exactly where twelve seconds have passed or the receiver's deadline has come. The
/// receiver goes on with the same offer, commitment, key and hello, and has resent nothing
/// yet.
pub proof fn a_wait_is_over_after_twelve_seconds_or_at_the_deadline(
    r: ReceiverView,
    now: u64,
    t: u64,
)
    requires
        r.phase is Greeting,
        now + 12_000_000_000 <= u64::MAX,
    ensures
        ({
            let next = receiver_hello_sent(r, now);
            &&& receiver_wait_over(next, t) <==> t >= now + 12_000_000_000 || t >= r.deadline
            &&& next.phase is AwaitTicket
            &&& next.phase->AwaitTicket_offer == r.phase->Greeting_offer
            &&& next.phase->AwaitTicket_expected_receiver_commitment
                == r.phase->Greeting_expected_receiver_commitment
            &&& next.phase->AwaitTicket_sk == r.phase->Greeting_sk
            &&& next.phase->AwaitTicket_hello_bytes == r.phase->Greeting_hello_bytes
            &&& next.phase->AwaitTicket_resend_count == 0
            &&& next.phrase == r.phrase
            &&& next.deadline == r.deadline
            &&& next.offer_count == r.offer_count
        }),
{
}

/// No wait is over of a receiver that does not wait; of a waiting receiver it is from the
/// deadline of the wait on; retries do not move it; and a report that a hello went out
/// means nothing to a receiver that is not about to send one.
pub proof fn when_a_wait_is_over(r: ReceiverView, now: u64, t: u64)
    ensures
        !(r.phase is AwaitTicket) ==> !receiver_wait_over(r, t),
        r.phase is AwaitTicket ==> (receiver_wait_over(r, t) <==> t
            >= r.phase->AwaitTicket_wait_deadline),
        receiver_wait_over(receiver_retry_tick(r).0, t) == receiver_wait_over(r, t),
        !(r.phase is Greeting) ==> receiver_hello_sent(r, now) == r,
{
}

/// The retry interval brings out the hello of a waiting receiver, and nothing else; it is
/// counted and changes nothing more.
pub proof fn what_a_receiver_retries(r: ReceiverView)
    ensures
        !(r.phase is AwaitTicket) ==> receiver_retry_tick(r) == (r, None::<Seq<u8>>),
        r.phase is AwaitTicket ==> {
            let (next, send) = receiver_retry_tick(r);
            &&& send == Some(r.phase->AwaitTicket_hello_bytes)
            &&& next.phase is AwaitTicket
            &&& next.phase->AwaitTicket_offer == r.phase->AwaitTicket_offer
            &&& next.phase->AwaitTicket_expected_receiver_commitment
                == r.phase->AwaitTicket_expected_receiver_commitment
            &&& next.phase->AwaitTicket_sk == r.phase->AwaitTicket_sk
            &&& next.phase->AwaitTicket_hello_bytes == r.phase->AwaitTicket_hello_bytes
            &&& next.phase->AwaitTicket_wait_deadline == r.phase->AwaitTicket_wait_deadline
            &&& r.phase->AwaitTicket_resend_count < u64::MAX
                ==> next.phase->AwaitTicket_resend_count == r.phase->AwaitTicket_resend_count + 1
            &&& next.phrase == r.phrase
            &&& next.deadline == r.deadline
            &&& next.offer_count == r.offer_count
        },
{
}

/// What the contracts of the steps call the expected outcome is the outcome: a step
/// succeeds exactly where it is expected to, with the expected state and action, and else
/// fails with the expected error.
pub proof fn outcomes_are_as_expected(
    s: Result<(SenderSession, SenderAction), PhraseError>,
    s_expected: Result<(SenderView, SenderActionView), PhraseError>,
    r: Result<(ReceiverSession, ReceiverAction), PhraseError>,
    r_expected: (ReceiverView, ReceiverActionView),
)
    ensures
        sender_outcome(s, s_expected) ==> {
            &&& s is Ok <==> s_expected is Ok
            &&& s is Ok ==> s->Ok_0.0@ == s_expected->Ok_0.0 && s->Ok_0.1@ == s_expected->Ok_0.1
            &&& s is Err ==> s->Err_0 == s_expected->Err_0
        },
        receiver_outcome(r, r_expected) ==> {
            &&& r is Ok
            &&& r->Ok_0.0@ == r_expected.0
            &&& r->Ok_0.1@ == r_expected.1
        },
{
}

/// A handoff between a sender and a receiver who know the same phrase succeeds, event by
/// event: the offer brings out the hello, the hello the sealed ticket, the sealed ticket
/// the sender's ticket and the acknowledgement, and the acknowledgement ends the handoff.
/// The offer may come at any time until the handoff timeout has passed since it was made.
pub proof fn handoff_succeeds_on_events(
    s: SenderView,
    r: ReceiverView,
    created_at_ms: u64,
    pake_msg_1: Seq<u8>,
    pake_msg_2: Seq<u8>,
    now_ms: u64,
    issued_at_ms: u64,
    nonce: Seq<u8>,
    hello_sent_at: u64,
    ticket_sent_at: u64,
)
    requires
        message_of(PakeSide::A, pake_msg_1),
        message_of(PakeSide::B, pake_msg_2),
        s.phase == offering(s.phrase, s.share_id, created_at_ms, s.handoff_timeout_ms, pake_msg_1),
        r.phrase == s.phrase,
        created_at_ms + s.handoff_timeout_ms <= u64::MAX,
        now_ms <= created_at_ms + s.handoff_timeout_ms,
        ({
            let offer = s.phase->AwaitHello_offer;
            let hello = hello_for(offer, pake_msg_2);
            let key = sender_key(s.phase->AwaitHello_sender, hello)->Some_0;
            let ticket = ticket_for(hello, key, envelope_of(s, issued_at_ms), nonce);
            &&& sealable(envelope_of(s, issued_at_ms))
            &&& ticket_opens(s, hello, issued_at_ms, nonce)
            &&& held(MessageView::SenderOffer(offer))
            &&& held(MessageView::ReceiverHello(hello))
            &&& held(MessageView::SenderTicket(ticket))
            &&& held(MessageView::ReceiverAck(ack_for(ticket, key)))
        }),
    ensures
        ({
            let offered = GossipEventView::Message(s.phase->AwaitHello_offer_bytes);
            let (r1, greeting) = receiver_on_event(r, offered, now_ms, pake_msg_2)->Ok_0;
            let greeted = GossipEventView::Message(greeting->SendHello_0);
            let (s1, handed) = sender_on_event(s, greeted, issued_at_ms, nonce)->Ok_0;
            let r2 = receiver_hello_sent(r1, hello_sent_at);
            let sealed = GossipEventView::Message(handed->SendTicket_0);
            let (r3, resolved) = receiver_on_event(r2, sealed, now_ms, pake_msg_2)->Ok_0;
            let s2 = sender_ticket_sent(s1, ticket_sent_at);
            let acked = GossipEventView::Message(resolved->ack_bytes);
            &&& receiver_on_event(r, offered, now_ms, pake_msg_2) is Ok
            &&& greeting is SendHello
            &&& sender_on_event(s, greeted, issued_at_ms, nonce) is Ok
            &&& handed is SendTicket
            &&& receiver_on_event(r2, sealed, now_ms, pake_msg_2) is Ok
            &&& resolved is Resolved
            &&& resolved->ticket == s.ticket
            &&& sender_on_event(s2, acked, issued_at_ms, nonce) is Ok
            &&& sender_on_event(s2, acked, issued_at_ms, nonce)->Ok_0.1 is Done
        }),
{
    handoff_succeeds(
        s,
        r,
        created_at_ms,
        pake_msg_1,
        pake_msg_2,
        now_ms,
        issued_at_ms,
        nonce,
        hello_sent_at,
        ticket_sent_at,
    );
}

/// A receiver follows an offer only with a key, a commitment and a hello that belong
/// together under its phrase, and a sender's share is that of its ticket.
pub proof fn what_the_invariants_promise(s: SenderView, r: ReceiverView)
    requires
        s.wf(),
        r.wf(),
    ensures
        s.share_id == share_id_of(s.ticket),
        r.phase is AwaitTicket ==> {
            &&& r.phase->AwaitTicket_wait_deadline <= r.deadline
            &&& r.phase->AwaitTicket_offer.version == 1
            &&& exists|pake_msg_2: Seq<u8>|
                {
                    &&& #[trigger] receiver_key(
                        receiver_for(r.phrase, r.phase->AwaitTicket_offer, pake_msg_2),
                        r.phase->AwaitTicket_offer,
                    ) == Some(r.phase->AwaitTicket_sk)
                    &&& r.phase->AwaitTicket_hello_bytes == message_wire(
                        MessageView::ReceiverHello(
                            hello_for(r.phase->AwaitTicket_offer, pake_msg_2),
                        ),
                    )
                }
        },
{
}

} // verus!
