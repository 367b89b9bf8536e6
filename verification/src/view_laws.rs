//! The contracts speak of the contents of values; these are all of their fields, whole.

use vstd::prelude::*;

use crate::crypto::{ReceiverPakeState, SenderPakeState};
use crate::desktop::ClipboardWatcher;
use crate::event::{GossipEvent, GossipEventView};
use crate::pake::{pake_view, PakeState};
use crate::proto::{
    MessageView, PhraseMessage, ReceiverAck, ReceiverHello, SenderOffer, SenderTicket,
    TicketEnvelope,
};
use crate::receiver::{
    ReceiverAction, ReceiverActionView, ReceiverPhase, ReceiverPhaseView, ReceiverSession,
};
use crate::sender::{SenderAction, SenderActionView, SenderPhase, SenderPhaseView, SenderSession};

verus! {

/// The contents of the messages and of the envelope are all their fields.
pub proof fn messages_show_every_field(
    offer: SenderOffer,
    hello: ReceiverHello,
    ticket: SenderTicket,
    ack: ReceiverAck,
    envelope: TicketEnvelope,
)
    ensures
        offer@.version == offer.version,
        offer@.share_id == offer.share_id@,
        offer@.sender_commitment == offer.sender_commitment@,
        offer@.pake_msg_1 == offer.pake_msg_1@,
        offer@.created_at_ms == offer.created_at_ms,
        offer@.expires_at_ms == offer.expires_at_ms,
        hello@.version == hello.version,
        hello@.share_id == hello.share_id@,
        hello@.sender_commitment == hello.sender_commitment@,
        hello@.receiver_commitment == hello.receiver_commitment@,
        hello@.pake_msg_2 == hello.pake_msg_2@,
        ticket@.version == ticket.version,
        ticket@.share_id == ticket.share_id@,
        ticket@.sender_commitment == ticket.sender_commitment@,
        ticket@.receiver_commitment == ticket.receiver_commitment@,
        ticket@.nonce == ticket.nonce@,
        ticket@.ciphertext == ticket.ciphertext@,
        ack@.version == ack.version,
        ack@.share_id == ack.share_id@,
        ack@.sender_commitment == ack.sender_commitment@,
        ack@.receiver_commitment == ack.receiver_commitment@,
        ack@.ack_tag == ack.ack_tag@,
        envelope@.ticket == envelope.ticket@,
        envelope@.ticket_hash == envelope.ticket_hash@,
        envelope@.issued_at_ms == envelope.issued_at_ms,
        PhraseMessage::SenderOffer(offer)@ == MessageView::SenderOffer(offer@),
        PhraseMessage::ReceiverHello(hello)@ == MessageView::ReceiverHello(hello@),
        PhraseMessage::SenderTicket(ticket)@ == MessageView::SenderTicket(ticket@),
        PhraseMessage::ReceiverAck(ack)@ == MessageView::ReceiverAck(ack@),
{
}

/// The contents of an event are its message's bytes, or that it is the event that it is.
pub proof fn events_show_their_bytes(bytes: Vec<u8>)
    ensures
        GossipEvent::Message(bytes)@ == GossipEventView::Message(bytes@),
        GossipEvent::Notice@ == GossipEventView::Notice,
        GossipEvent::StreamError@ == GossipEventView::StreamError,
        GossipEvent::Closed@ == GossipEventView::Closed,
        GossipEvent::Deadline@ == GossipEventView::Deadline,
{
}

/// The contents of a sender, of its phases and of its actions are all their fields.
pub proof fn senders_show_every_field(
    s: SenderSession,
    sender_state: SenderPakeState,
    offer: SenderOffer,
    hello: ReceiverHello,
    ack_expected: [u8; 32],
    bytes: Vec<u8>,
    ack_deadline: u64,
    resend_count: u64,
)
    ensures
        s@.phrase == s.phrase@,
        s@.ticket == s.ticket@,
        s@.ticket_hash == s.ticket_hash@,
        s@.share_id == s.share_id@,
        s@.handoff_timeout_ms == s.handoff_timeout_ms,
        s@.offer_tick_count == s.offer_tick_count,
        s@.phase == s.phase@,
        sender_state@.party == sender_state.state@,
        sender_state@.offer == sender_state.offer@,
        (SenderPhase::AwaitHello { sender_state, offer, offer_bytes: bytes })@ == (
        SenderPhaseView::AwaitHello {
            sender: sender_state@,
            offer: offer@,
            offer_bytes: bytes@,
        }),
        (SenderPhase::Answered { hello, ack_expected, ticket_bytes: bytes })@ == (
        SenderPhaseView::Answered {
            hello: hello@,
            ack_expected: ack_expected@,
            ticket_bytes: bytes@,
        }),
        (SenderPhase::AwaitAck {
            hello,
            ack_expected,
            ticket_bytes: bytes,
            ack_deadline,
            resend_count,
        })@ == (SenderPhaseView::AwaitAck {
            hello: hello@,
            ack_expected: ack_expected@,
            ticket_bytes: bytes@,
            ack_deadline,
            resend_count,
        }),
        SenderAction::Skip@ == SenderActionView::Skip,
        SenderAction::Settle@ == SenderActionView::Settle,
        SenderAction::SendTicket(bytes)@ == SenderActionView::SendTicket(bytes@),
        SenderAction::ResendTicket(bytes)@ == SenderActionView::ResendTicket(bytes@),
        SenderAction::Done@ == SenderActionView::Done,
{
}

/// The contents of a receiver, of its phases and of its actions are all their fields.
pub proof fn receivers_show_every_field(
    r: ReceiverSession,
    receiver_state: ReceiverPakeState,
    offer: SenderOffer,
    expected_receiver_commitment: [u8; 32],
    sk: [u8; 32],
    bytes: Vec<u8>,
    wait_deadline: u64,
    resend_count: u64,
    ticket: String,
)
    ensures
        r@.phrase == r.phrase@,
        r@.deadline == r.deadline,
        r@.offer_count == r.offer_count,
        r@.phase == r.phase@,
        receiver_state@.party == receiver_state.state@,
        receiver_state@.hello == receiver_state.hello@,
        ReceiverPhase::AwaitOffer@ == ReceiverPhaseView::AwaitOffer,
        (ReceiverPhase::Greeting { offer, expected_receiver_commitment, sk, hello_bytes: bytes })@
            == (ReceiverPhaseView::Greeting {
            offer: offer@,
            expected_receiver_commitment: expected_receiver_commitment@,
            sk: sk@,
            hello_bytes: bytes@,
        }),
        (ReceiverPhase::AwaitTicket {
            offer,
            expected_receiver_commitment,
            sk,
            hello_bytes: bytes,
            wait_deadline,
            resend_count,
        })@ == (ReceiverPhaseView::AwaitTicket {
            offer: offer@,
            expected_receiver_commitment: expected_receiver_commitment@,
            sk: sk@,
            hello_bytes: bytes@,
            wait_deadline,
            resend_count,
        }),
        ReceiverAction::Skip@ == ReceiverActionView::Skip,
        ReceiverAction::Settle@ == ReceiverActionView::Settle,
        ReceiverAction::SendHello(bytes)@ == ReceiverActionView::SendHello(bytes@),
        (ReceiverAction::Resolved { ack_bytes: bytes, ticket })@ == (ReceiverActionView::Resolved {
            ack_bytes: bytes@,
            ticket: ticket@,
        }),
{
}

/// The contents of a clipboard watcher are the text that it saw last, and those of a party
/// in the key exchange what is known of it.
pub proof fn the_rest_shows_what_it_holds(watcher: ClipboardWatcher, state: PakeState)
    ensures
        watcher@ is Some <==> watcher.last is Some,
        watcher.last is Some ==> watcher@->Some_0 == watcher.last->Some_0@,
        state@ == pake_view(state),
{
}

} // verus!
