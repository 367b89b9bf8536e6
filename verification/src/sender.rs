//! The sender's side of a handoff.
//!
//! A sender announces its offer until a receiver answers it, seals the ticket for
//! that receiver, and repeats the sealed ticket until the receiver acknowledges
//! it. Where no acknowledgement comes in time, the sender makes a new offer.
//!
//! The caller moves messages and time: it hands in what the gossip topic delivers
//! and what its clocks show, and sends out what it is told to. Points in time are
//! nanoseconds since some moment that the caller picks.

use vstd::prelude::*;

use crate::bytes::{copy_bytes, same_id};
use crate::cipher::random_nonce;
use crate::codec::{decode_message, encode_message};
use crate::crypto::{
    ack_tag_of, associated_data, derive_ack_tag, derive_share_id,
    encrypt_ticket_envelope_with_nonce, new_sender_offer, opened_envelope, sealable,
    sealed_envelope, sender_finish_pake, sender_for, sender_key, share_id_of, SenderPakeState,
    SenderPakeView,
};
use crate::error::PhraseError;
use crate::event::{GossipEvent, GossipEventView};
use crate::pake::{message_of, PakeSide};
use crate::proto::{
    hello_matches, matches_receiver_hello, AckView, EnvelopeView, HelloView, MessageView,
    OfferView, PhraseMessage, ReceiverAck, ReceiverHello, SenderOffer, SenderTicket,
    TicketEnvelope, TicketView, PHRASE_PROTOCOL_VERSION,
};
use crate::wire::{message_wire, read_message};

verus! {

/// How long a sender waits for an acknowledgement: eight seconds.
pub const ACK_WAIT: u64 = 8_000_000_000;

/// Where a sender stands.
pub enum SenderPhase {
    /// The offer is announced.
    AwaitHello { sender_state: SenderPakeState, offer: SenderOffer, offer_bytes: Vec<u8> },
    /// The ticket is sealed for a receiver and about to be sent for the first time.
    Answered { hello: ReceiverHello, ack_expected: [u8; 32], ticket_bytes: Vec<u8> },
    /// The ticket has been sent.
    AwaitAck {
        hello: ReceiverHello,
        ack_expected: [u8; 32],
        ticket_bytes: Vec<u8>,
        ack_deadline: u64,
        resend_count: u64,
    },
}

/// A sender in the middle of a handoff.
pub struct SenderSession {
    pub phrase: String,
    pub ticket: String,
    pub ticket_hash: String,
    pub share_id: [u8; 32],
    pub handoff_timeout_ms: u64,
    pub offer_tick_count: u64,
    pub phase: SenderPhase,
}

/// What the caller has to do after a message came in.
pub enum SenderAction {
    /// Wait for the next event, without a look at the deadline.
    Skip,
    /// Go on to the deadline.
    Settle,
    /// Send the sealed ticket, and report with `ticket_sent` that it went out.
    SendTicket(Vec<u8>),
    /// Send the sealed ticket once more.
    ResendTicket(Vec<u8>),
    /// Stop: the receiver has the ticket.
    Done,
}

/// The contents of a `SenderPhase`.
#[verifier::ext_equal]
pub enum SenderPhaseView {
    AwaitHello { sender: SenderPakeView, offer: OfferView, offer_bytes: Seq<u8> },
    Answered { hello: HelloView, ack_expected: Seq<u8>, ticket_bytes: Seq<u8> },
    AwaitAck {
        hello: HelloView,
        ack_expected: Seq<u8>,
        ticket_bytes: Seq<u8>,
        ack_deadline: u64,
        resend_count: u64,
    },
}

/// The contents of a `SenderSession`.
#[verifier::ext_equal]
pub struct SenderView {
    pub phrase: Seq<char>,
    pub ticket: Seq<char>,
    pub ticket_hash: Seq<char>,
    pub share_id: Seq<u8>,
    pub handoff_timeout_ms: u64,
    pub offer_tick_count: u64,
    pub phase: SenderPhaseView,
}

/// The contents of a `SenderAction`.
#[verifier::ext_equal]
pub enum SenderActionView {
    Skip,
    Settle,
    SendTicket(Seq<u8>),
    ResendTicket(Seq<u8>),
    Done,
}

impl View for SenderPhase {
    type V = SenderPhaseView;

    open spec fn view(&self) -> SenderPhaseView {
        match self {
            SenderPhase::AwaitHello { sender_state, offer, offer_bytes } => {
                SenderPhaseView::AwaitHello {
                    sender: sender_state@,
                    offer: offer@,
                    offer_bytes: offer_bytes@,
                }
            },
            SenderPhase::Answered { hello, ack_expected, ticket_bytes } => {
                SenderPhaseView::Answered {
                    hello: hello@,
                    ack_expected: ack_expected@,
                    ticket_bytes: ticket_bytes@,
                }
            },
            SenderPhase::AwaitAck {
                hello,
                ack_expected,
                ticket_bytes,
                ack_deadline,
                resend_count,
            } => {
                SenderPhaseView::AwaitAck {
                    hello: hello@,
                    ack_expected: ack_expected@,
                    ticket_bytes: ticket_bytes@,
                    ack_deadline: *ack_deadline,
                    resend_count: *resend_count,
                }
            },
        }
    }
}

impl View for SenderSession {
    type V = SenderView;

    open spec fn view(&self) -> SenderView {
        SenderView {
            phrase: self.phrase@,
            ticket: self.ticket@,
            ticket_hash: self.ticket_hash@,
            share_id: self.share_id@,
            handoff_timeout_ms: self.handoff_timeout_ms,
            offer_tick_count: self.offer_tick_count,
            phase: self.phase@,
        }
    }
}

impl View for SenderAction {
    type V = SenderActionView;

    open spec fn view(&self) -> SenderActionView {
        match self {
            SenderAction::Skip => SenderActionView::Skip,
            SenderAction::Settle => SenderActionView::Settle,
            SenderAction::SendTicket(bytes) => SenderActionView::SendTicket(bytes@),
            SenderAction::ResendTicket(bytes) => SenderActionView::ResendTicket(bytes@),
            SenderAction::Done => SenderActionView::Done,
        }
    }
}

/// Whether a sender that made an offer with the first message `pake_msg_1` and
/// answered `hello` got the key `key` out of it, waits for the tag that this key
/// gives, and sealed its ticket under this key.
pub open spec fn answered_with(
    s: SenderView,
    hello: HelloView,
    ack_expected: Seq<u8>,
    ticket_bytes: Seq<u8>,
    key: Seq<u8>,
    pake_msg_1: Seq<u8>,
    created_at_ms: u64,
    issued_at_ms: u64,
    nonce: Seq<u8>,
) -> bool {
    let sender = sender_for(
        s.phrase,
        s.share_id,
        created_at_ms,
        (created_at_ms + s.handoff_timeout_ms) as u64,
        pake_msg_1,
    );
    &&& message_of(PakeSide::A, pake_msg_1)
    &&& hello_matches(sender.offer, hello)
    &&& sender_key(sender, hello) == Some(key)
    &&& ack_expected == ack_tag_of(
        key,
        hello.share_id,
        hello.sender_commitment,
        hello.receiver_commitment,
    )
    &&& ticket_bytes == message_wire(
        MessageView::SenderTicket(ticket_for(hello, key, envelope_of(s, issued_at_ms), nonce)),
    )
}

/// Whether `key` is the key of the exchange in which a sender answered `hello`, and
/// the awaited tag and the sealed ticket are those of this key.
pub open spec fn answered_under(
    s: SenderView,
    hello: HelloView,
    ack_expected: Seq<u8>,
    ticket_bytes: Seq<u8>,
    key: Seq<u8>,
) -> bool {
    exists|pake_msg_1: Seq<u8>, created_at_ms: u64, issued_at_ms: u64, nonce: Seq<u8>| #[trigger]
        answered_with(
            s,
            hello,
            ack_expected,
            ticket_bytes,
            key,
            pake_msg_1,
            created_at_ms,
            issued_at_ms,
            nonce,
        )
}

/// Whether a sender answered a hello with the awaited tag and the sealed ticket of
/// one key.
pub open spec fn answered(
    s: SenderView,
    hello: HelloView,
    ack_expected: Seq<u8>,
    ticket_bytes: Seq<u8>,
) -> bool {
    exists|key: Seq<u8>| #[trigger]
        answered_under(s, hello, ack_expected, ticket_bytes, key)
}

/// Nothing but the phrase, the ticket, the share and the timeout of a sender says
/// what it answered.
proof fn lemma_answered_carries_over(
    s: SenderView,
    t: SenderView,
    hello: HelloView,
    ack_expected: Seq<u8>,
    ticket_bytes: Seq<u8>,
)
    requires
        s.phrase == t.phrase,
        s.ticket == t.ticket,
        s.ticket_hash == t.ticket_hash,
        s.share_id == t.share_id,
        s.handoff_timeout_ms == t.handoff_timeout_ms,
        answered(s, hello, ack_expected, ticket_bytes),
    ensures
        answered(t, hello, ack_expected, ticket_bytes),
{
    let key = choose|key: Seq<u8>| #[trigger]
        answered_under(s, hello, ack_expected, ticket_bytes, key);
    let (pake_msg_1, created_at_ms, issued_at_ms, nonce) = choose|
        pake_msg_1: Seq<u8>,
        created_at_ms: u64,
        issued_at_ms: u64,
        nonce: Seq<u8>,
    | #[trigger]
        answered_with(
            s,
            hello,
            ack_expected,
            ticket_bytes,
            key,
            pake_msg_1,
            created_at_ms,
            issued_at_ms,
            nonce,
        );
    assert(answered_with(
        t,
        hello,
        ack_expected,
        ticket_bytes,
        key,
        pake_msg_1,
        created_at_ms,
        issued_at_ms,
        nonce,
    ));
    assert(answered_under(t, hello, ack_expected, ticket_bytes, key));
}

impl SenderView {
    /// A sender offers the share of its ticket under its phrase; what it announces
    /// is its offer; and once it has answered a hello, its sealed ticket and the
    /// tag that it waits for are those of the key of that exchange.
    pub open spec fn wf(self) -> bool {
        &&& self.share_id == share_id_of(self.ticket)
        &&& match self.phase {
            SenderPhaseView::AwaitHello { sender, offer, offer_bytes } => {
                &&& message_of(PakeSide::A, offer.pake_msg_1)
                &&& self.phase == offering(
                    self.phrase,
                    self.share_id,
                    offer.created_at_ms,
                    self.handoff_timeout_ms,
                    offer.pake_msg_1,
                )
            },
            SenderPhaseView::Answered { hello, ack_expected, ticket_bytes } => answered(
                self,
                hello,
                ack_expected,
                ticket_bytes,
            ),
            SenderPhaseView::AwaitAck { hello, ack_expected, ticket_bytes, .. } => answered(
                self,
                hello,
                ack_expected,
                ticket_bytes,
            ),
        }
    }
}

/// The phase of a sender that offers a share with the first message `pake_msg_1`.
pub open spec fn offering(
    phrase: Seq<char>,
    share_id: Seq<u8>,
    created_at_ms: u64,
    timeout_ms: u64,
    pake_msg_1: Seq<u8>,
) -> SenderPhaseView {
    let sender = sender_for(
        phrase,
        share_id,
        created_at_ms,
        (created_at_ms + timeout_ms) as u64,
        pake_msg_1,
    );
    SenderPhaseView::AwaitHello {
        sender,
        offer: sender.offer,
        offer_bytes: message_wire(MessageView::SenderOffer(sender.offer)),
    }
}

/// The envelope that a sender seals.
pub open spec fn envelope_of(s: SenderView, issued_at_ms: u64) -> EnvelopeView {
    EnvelopeView { ticket: s.ticket, ticket_hash: s.ticket_hash, issued_at_ms }
}

/// The associated data of the exchange that a hello belongs to.
pub open spec fn aad_of(hello: HelloView) -> Seq<u8> {
    associated_data(hello.share_id, hello.sender_commitment, hello.receiver_commitment)
}

/// The ticket message for the receiver behind a hello.
pub open spec fn ticket_for(
    hello: HelloView,
    key: Seq<u8>,
    envelope: EnvelopeView,
    nonce: Seq<u8>,
) -> TicketView {
    TicketView {
        version: PHRASE_PROTOCOL_VERSION,
        share_id: hello.share_id,
        sender_commitment: hello.sender_commitment,
        receiver_commitment: hello.receiver_commitment,
        nonce,
        ciphertext: sealed_envelope(key, aad_of(hello), nonce, envelope),
    }
}

/// Whether two hellos come from the same receiver in the same exchange.
pub open spec fn same_exchange(a: HelloView, b: HelloView) -> bool {
    &&& a.share_id == b.share_id
    &&& a.sender_commitment == b.sender_commitment
    &&& a.receiver_commitment == b.receiver_commitment
}

/// Whether an acknowledgement is the one that a sender waits for.
pub open spec fn ack_matches(hello: HelloView, ack_expected: Seq<u8>, ack: AckView) -> bool {
    &&& ack.version == PHRASE_PROTOCOL_VERSION
    &&& ack.share_id == hello.share_id
    &&& ack.sender_commitment == hello.sender_commitment
    &&& ack.receiver_commitment == hello.receiver_commitment
    &&& ack.ack_tag == ack_expected
}

/// What a sender does with a hello.
pub open spec fn sender_on_hello(
    s: SenderView,
    hello: HelloView,
    issued_at_ms: u64,
    nonce: Seq<u8>,
) -> Result<(SenderView, SenderActionView), PhraseError> {
    match s.phase {
        SenderPhaseView::AwaitHello { sender, offer, offer_bytes } => {
            if !hello_matches(offer, hello) {
                Ok((s, SenderActionView::Skip))
            } else {
                match sender_key(sender, hello) {
                    None => Err(PhraseError::SenderFinish),
                    Some(key) => {
                        let envelope = envelope_of(s, issued_at_ms);
                        if !sealable(envelope) {
                            Err(PhraseError::Encrypt)
                        } else {
                            let ticket_bytes = message_wire(
                                MessageView::SenderTicket(ticket_for(hello, key, envelope, nonce)),
                            );
                            Ok(
                                (
                                    SenderView {
                                        phase: SenderPhaseView::Answered {
                                            hello,
                                            ack_expected: ack_tag_of(
                                                key,
                                                hello.share_id,
                                                hello.sender_commitment,
                                                hello.receiver_commitment,
                                            ),
                                            ticket_bytes,
                                        },
                                        ..s
                                    },
                                    SenderActionView::SendTicket(ticket_bytes),
                                ),
                            )
                        }
                    },
                }
            }
        },
        SenderPhaseView::Answered { .. } => Ok((s, SenderActionView::Settle)),
        SenderPhaseView::AwaitAck { hello: active, ticket_bytes, .. } => {
            if same_exchange(hello, active) {
                Ok((s, SenderActionView::ResendTicket(ticket_bytes)))
            } else {
                Ok((s, SenderActionView::Settle))
            }
        },
    }
}

/// What a sender does with an acknowledgement.
pub open spec fn sender_on_ack(s: SenderView, ack: AckView) -> SenderActionView {
    match s.phase {
        SenderPhaseView::AwaitAck { hello, ack_expected, .. } => if ack_matches(
            hello,
            ack_expected,
            ack,
        ) {
            SenderActionView::Done
        } else {
            SenderActionView::Settle
        },
        _ => SenderActionView::Settle,
    }
}

/// What a sender does with the bytes of a gossip message: its next state and what
/// the caller has to do, or why the handoff fails.
pub open spec fn sender_on_message(
    s: SenderView,
    bytes: Seq<u8>,
    issued_at_ms: u64,
    nonce: Seq<u8>,
) -> Result<(SenderView, SenderActionView), PhraseError> {
    match read_message(bytes) {
        Err(_) => Ok((s, SenderActionView::Skip)),
        Ok(message) => match message {
            MessageView::ReceiverHello(hello) => sender_on_hello(s, hello, issued_at_ms, nonce),
            MessageView::ReceiverAck(ack) => Ok((s, sender_on_ack(s, ack))),
            _ => Ok((s, SenderActionView::Settle)),
        },
    }
}

/// The sender after its sealed ticket went out.
pub open spec fn sender_ticket_sent(s: SenderView, now: u64) -> SenderView {
    match s.phase {
        SenderPhaseView::Answered { hello, ack_expected, ticket_bytes } => SenderView {
            phase: SenderPhaseView::AwaitAck {
                hello,
                ack_expected,
                ticket_bytes,
                ack_deadline: (now + ACK_WAIT) as u64,
                resend_count: 0,
            },
            ..s
        },
        _ => s,
    }
}

/// The sender after the announce interval has passed, and what it then sends.
pub open spec fn sender_offer_tick(s: SenderView) -> (SenderView, Option<Seq<u8>>) {
    match s.phase {
        SenderPhaseView::AwaitHello { offer_bytes, .. } => (
            SenderView { offer_tick_count: (s.offer_tick_count + 1) as u64, ..s },
            Some(offer_bytes),
        ),
        _ => (s, None),
    }
}

/// The sender after the retry interval has passed, and what it then sends.
pub open spec fn sender_retry_tick(s: SenderView) -> (SenderView, Option<Seq<u8>>) {
    match s.phase {
        SenderPhaseView::AwaitAck {
            hello,
            ack_expected,
            ticket_bytes,
            ack_deadline,
            resend_count,
        } => (
            SenderView {
                phase: SenderPhaseView::AwaitAck {
                    hello,
                    ack_expected,
                    ticket_bytes,
                    ack_deadline,
                    resend_count: (resend_count + 1) as u64,
                },
                ..s
            },
            Some(ticket_bytes),
        ),
        _ => (s, None),
    }
}

/// The sender after it has made a new offer with the first message `pake_msg_1`.
pub open spec fn sender_rotated(s: SenderView, now_ms: u64, pake_msg_1: Seq<u8>) -> SenderView {
    SenderView {
        phase: offering(s.phrase, s.share_id, now_ms, s.handoff_timeout_ms, pake_msg_1),
        ..s
    }
}

/// What a sender does with an event: its next state and what the caller has to do,
/// or why the handoff fails.
pub open spec fn sender_on_event(
    s: SenderView,
    event: GossipEventView,
    issued_at_ms: u64,
    nonce: Seq<u8>,
) -> Result<(SenderView, SenderActionView), PhraseError> {
    match event {
        GossipEventView::Message(bytes) => sender_on_message(s, bytes, issued_at_ms, nonce),
        GossipEventView::Notice => Ok((s, SenderActionView::Settle)),
        GossipEventView::StreamError => Ok((s, SenderActionView::Settle)),
        GossipEventView::Closed => Err(PhraseError::GossipClosed),
        GossipEventView::Deadline => Err(PhraseError::HandoffTimeout),
    }
}

/// Whether a sender has waited long enough for an acknowledgement.
pub open spec fn sender_ack_overdue(s: SenderView, now: u64) -> bool {
    s.phase matches SenderPhaseView::AwaitAck { ack_deadline, .. } && now >= ack_deadline
}

/// Whether the ticket that a sender seals for a receiver opens, under the key of
/// their exchange, to the envelope that went into it.
pub open spec fn ticket_opens(
    s: SenderView,
    hello: HelloView,
    issued_at_ms: u64,
    nonce: Seq<u8>,
) -> bool {
    s.phase matches SenderPhaseView::AwaitHello { sender, .. } && sender_key(
        sender,
        hello,
    ) matches Some(key) && opened_envelope(
        key,
        aad_of(hello),
        nonce,
        ticket_for(hello, key, envelope_of(s, issued_at_ms), nonce).ciphertext,
    ) == Ok::<EnvelopeView, PhraseError>(envelope_of(s, issued_at_ms))
}

/// Whether the outcome of a step is the one that `expected` describes.
pub open spec fn sender_outcome(
    r: Result<(SenderSession, SenderAction), PhraseError>,
    expected: Result<(SenderView, SenderActionView), PhraseError>,
) -> bool {
    match expected {
        Ok((s, action)) => r is Ok && r->Ok_0.0@ == s && r->Ok_0.1@ == action,
        Err(error) => r == Err::<(SenderSession, SenderAction), PhraseError>(error),
    }
}

/// A step that leaves the offer or the answered exchange of a sender as it is keeps
/// the sender well formed.
proof fn lemma_step_keeps_wf(s: SenderView, next: SenderView)
    requires
        next == sender_offer_tick(s).0 || next == sender_retry_tick(s).0 || exists|now: u64|
            next == #[trigger] sender_ticket_sent(s, now),
    ensures
        s.wf() ==> next.wf(),
{
    if s.wf() {
        match s.phase {
            SenderPhaseView::AwaitHello { .. } => {},
            SenderPhaseView::Answered { hello, ack_expected, ticket_bytes } => {
                lemma_answered_carries_over(s, next, hello, ack_expected, ticket_bytes);
            },
            SenderPhaseView::AwaitAck { hello, ack_expected, ticket_bytes, .. } => {
                lemma_answered_carries_over(s, next, hello, ack_expected, ticket_bytes);
            },
        }
    }
}

/// Whatever comes in, a sender that is well formed stays so, and its phrase, its
/// ticket and its share stay what they are.
pub proof fn message_keeps_sender_wf(
    s: SenderView,
    bytes: Seq<u8>,
    issued_at_ms: u64,
    nonce: Seq<u8>,
)
    requires
        s.wf(),
    ensures
        sender_on_message(s, bytes, issued_at_ms, nonce) matches Ok((next, action)) ==> {
            &&& next.wf()
            &&& next.phrase == s.phrase
            &&& next.ticket == s.ticket
            &&& next.ticket_hash == s.ticket_hash
            &&& next.share_id == s.share_id
        },
{
    if let Ok(MessageView::ReceiverHello(hello)) = read_message(bytes) {
        if let SenderPhaseView::AwaitHello { sender, offer, .. } = s.phase {
            if let Some(key) = sender_key(sender, hello) {
                let ticket = ticket_for(hello, key, envelope_of(s, issued_at_ms), nonce);
                let ticket_bytes = message_wire(MessageView::SenderTicket(ticket));
                let tag = ack_tag_of(
                    key,
                    hello.share_id,
                    hello.sender_commitment,
                    hello.receiver_commitment,
                );
                if hello_matches(offer, hello) {
                    assert(answered_with(
                        s,
                        hello,
                        tag,
                        ticket_bytes,
                        key,
                        offer.pake_msg_1,
                        offer.created_at_ms,
                        issued_at_ms,
                        nonce,
                    ));
                    assert(answered_under(s, hello, tag, ticket_bytes, key));
                    if let Ok((next, action)) = sender_on_message(s, bytes, issued_at_ms, nonce) {
                        lemma_answered_carries_over(s, next, hello, tag, ticket_bytes);
                    }
                }
            }
        }
    }
}

/// A sender's offer, made at `created_at_ms`: its state, the offer, and the bytes
/// by which the offer is announced.
pub fn build_sender_offer(
    phrase: &str,
    share_id: [u8; 32],
    created_at_ms: u64,
    handoff_timeout_ms: u64,
) -> (r: Result<(SenderPakeState, SenderOffer, Vec<u8>), PhraseError>)
    requires
        created_at_ms + handoff_timeout_ms <= u64::MAX,
    ensures
        r is Ok,
        message_of(PakeSide::A, r->Ok_0.1@.pake_msg_1),
        (SenderPhaseView::AwaitHello {
            sender: r->Ok_0.0@,
            offer: r->Ok_0.1@,
            offer_bytes: r->Ok_0.2@,
        }) == offering(
            phrase@,
            share_id@,
            created_at_ms,
            handoff_timeout_ms,
            r->Ok_0.1@.pake_msg_1,
        ),
{
    let sender_state = new_sender_offer(
        phrase,
        share_id,
        created_at_ms,
        created_at_ms + handoff_timeout_ms,
    );
    let offer = sender_state.offer.clone();
    let offer_bytes = match encode_message(&PhraseMessage::SenderOffer(offer.clone())) {
        Ok(bytes) => bytes,
        Err(error) => return Err(error),
    };
    Ok((sender_state, offer, offer_bytes))
}

impl SenderSession {
    /// A sender that offers the share behind `ticket` to whoever knows `phrase`.
    pub fn start(
        phrase: String,
        ticket: String,
        ticket_hash: String,
        now_ms: u64,
        handoff_timeout_ms: u64,
    ) -> (r: Result<SenderSession, PhraseError>)
        requires
            now_ms + handoff_timeout_ms <= u64::MAX,
        ensures
            r is Ok,
            r->Ok_0@.phase is AwaitHello,
            message_of(PakeSide::A, r->Ok_0@.phase->AwaitHello_offer.pake_msg_1),
            r->Ok_0@ == (SenderView {
                phrase: phrase@,
                ticket: ticket@,
                ticket_hash: ticket_hash@,
                share_id: share_id_of(ticket@),
                handoff_timeout_ms,
                offer_tick_count: 0,
                phase: offering(
                    phrase@,
                    share_id_of(ticket@),
                    now_ms,
                    handoff_timeout_ms,
                    r->Ok_0@.phase->AwaitHello_offer.pake_msg_1,
                ),
            }),
            r->Ok_0@.wf(),
    {
        let share_id: [u8; 32] = derive_share_id(ticket.as_str());
        match build_sender_offer(phrase.as_str(), share_id, now_ms, handoff_timeout_ms) {
            Ok((sender_state, offer, offer_bytes)) => Ok(
                SenderSession {
                    phrase,
                    ticket,
                    ticket_hash,
                    share_id,
                    handoff_timeout_ms,
                    offer_tick_count: 0,
                    phase: SenderPhase::AwaitHello { sender_state, offer, offer_bytes },
                },
            ),
            Err(error) => Err(error),
        }
    }

    /// The announce interval has passed. Gives the offer to send, while no receiver
    /// has answered it.
    pub fn offer_tick(&mut self) -> (send: Option<Vec<u8>>)
        requires
            old(self)@.phase is AwaitHello ==> old(self).offer_tick_count < u64::MAX,
        ensures
            send is Some <==> sender_offer_tick(old(self)@).1 is Some,
            send is Some ==> Some(send->Some_0@) == sender_offer_tick(old(self)@).1,
            final(self)@ == sender_offer_tick(old(self)@).0,
            old(self)@.wf() ==> final(self)@.wf(),
    {
        proof {
            lemma_step_keeps_wf(old(self)@, sender_offer_tick(old(self)@).0);
        }
        let send: Option<Vec<u8>> = match &self.phase {
            SenderPhase::AwaitHello { offer_bytes, .. } => Some(copy_bytes(offer_bytes.as_slice())),
            _ => None,
        };
        if send.is_some() {
            self.offer_tick_count = self.offer_tick_count + 1;
        }
        send
    }

    /// The retry interval has passed. Gives the sealed ticket to send once more,
    /// while it is not acknowledged.
    pub fn retry_tick(&mut self) -> (send: Option<Vec<u8>>)
        requires
            old(self)@.phase matches SenderPhaseView::AwaitAck { resend_count, .. } ==> resend_count
                < u64::MAX,
        ensures
            send is Some <==> sender_retry_tick(old(self)@).1 is Some,
            send is Some ==> Some(send->Some_0@) == sender_retry_tick(old(self)@).1,
            final(self)@ == sender_retry_tick(old(self)@).0,
            old(self)@.wf() ==> final(self)@.wf(),
    {
        proof {
            lemma_step_keeps_wf(old(self)@, sender_retry_tick(old(self)@).0);
        }
        match &mut self.phase {
            SenderPhase::AwaitAck { ticket_bytes, resend_count, .. } => {
                *resend_count = *resend_count + 1;
                Some(copy_bytes(ticket_bytes.as_slice()))
            },
            _ => None,
        }
    }

    /// The sealed ticket went out at `now`: the wait for the acknowledgement begins.
    pub fn ticket_sent(self, now: u64) -> (next: SenderSession)
        requires
            now + ACK_WAIT <= u64::MAX,
        ensures
            next@ == sender_ticket_sent(self@, now),
            self@.wf() ==> next@.wf(),
    {
        proof {
            lemma_step_keeps_wf(self@, sender_ticket_sent(self@, now));
        }
        let SenderSession {
            phrase,
            ticket,
            ticket_hash,
            share_id,
            handoff_timeout_ms,
            offer_tick_count,
            phase,
        } = self;
        let phase = match phase {
            SenderPhase::Answered { hello, ack_expected, ticket_bytes } => SenderPhase::AwaitAck {
                hello,
                ack_expected,
                ticket_bytes,
                ack_deadline: now + ACK_WAIT,
                resend_count: 0,
            },
            other => other,
        };
        SenderSession {
            phrase,
            ticket,
            ticket_hash,
            share_id,
            handoff_timeout_ms,
            offer_tick_count,
            phase,
        }
    }

    /// Whether the wait for an acknowledgement is over.
    pub fn ack_overdue(&self, now: u64) -> (overdue: bool)
        ensures
            overdue == sender_ack_overdue(self@, now),
    {
        match &self.phase {
            SenderPhase::AwaitAck { ack_deadline, .. } => now >= *ack_deadline,
            _ => false,
        }
    }

    /// Drops the present exchange and makes a new offer of the same share.
    pub fn rotate(self, now_ms: u64) -> (r: Result<SenderSession, PhraseError>)
        requires
            now_ms + self.handoff_timeout_ms <= u64::MAX,
        ensures
            r is Ok,
            r->Ok_0@.phase is AwaitHello,
            message_of(PakeSide::A, r->Ok_0@.phase->AwaitHello_offer.pake_msg_1),
            r->Ok_0@ == sender_rotated(
                self@,
                now_ms,
                r->Ok_0@.phase->AwaitHello_offer.pake_msg_1,
            ),
            self@.wf() ==> r->Ok_0@.wf(),
    {
        match build_sender_offer(
            self.phrase.as_str(),
            self.share_id,
            now_ms,
            self.handoff_timeout_ms,
        ) {
            Ok((sender_state, offer, offer_bytes)) => Ok(
                SenderSession {
                    phase: SenderPhase::AwaitHello { sender_state, offer, offer_bytes },
                    ..self
                },
            ),
            Err(error) => Err(error),
        }
    }

    /// Makes a new offer at `now_ms` where the acknowledgement has not come by `now`.
    pub fn settle(self, now: u64, now_ms: u64) -> (r: Result<SenderSession, PhraseError>)
        requires
            sender_ack_overdue(self@, now) ==> now_ms + self.handoff_timeout_ms <= u64::MAX,
        ensures
            r is Ok,
            !sender_ack_overdue(self@, now) ==> r->Ok_0@ == self@,
            sender_ack_overdue(self@, now) ==> {
                &&& r->Ok_0@.phase is AwaitHello
                &&& message_of(PakeSide::A, r->Ok_0@.phase->AwaitHello_offer.pake_msg_1)
                &&& r->Ok_0@ == sender_rotated(
                    self@,
                    now_ms,
                    r->Ok_0@.phase->AwaitHello_offer.pake_msg_1,
                )
            },
            self@.wf() ==> r->Ok_0@.wf(),
    {
        if self.ack_overdue(now) {
            self.rotate(now_ms)
        } else {
            Ok(self)
        }
    }

    fn on_hello(self, hello: ReceiverHello, issued_at_ms: u64, nonce: [u8; 24]) -> (r: Result<
        (SenderSession, SenderAction),
        PhraseError,
    >)
        ensures
            sender_outcome(r, sender_on_hello(self@, hello@, issued_at_ms, nonce@)),
            r is Ok && r->Ok_0.1 is SendTicket ==> ticket_opens(
                self@,
                hello@,
                issued_at_ms,
                nonce@,
            ),
    {
        let SenderSession {
            phrase,
            ticket,
            ticket_hash,
            share_id,
            handoff_timeout_ms,
            offer_tick_count,
            phase,
        } = self;
        let (phase, action): (SenderPhase, SenderAction) = match phase {
            SenderPhase::AwaitHello { sender_state, offer, offer_bytes } => {
                if !matches_receiver_hello(&offer, &hello) {
                    (
                        SenderPhase::AwaitHello { sender_state, offer, offer_bytes },
                        SenderAction::Skip,
                    )
                } else {
                    let key: [u8; 32] = match sender_finish_pake(sender_state, &hello) {
                        Ok(key) => key,
                        Err(error) => return Err(error),
                    };
                    let envelope = TicketEnvelope {
                        ticket: ticket.clone(),
                        ticket_hash: ticket_hash.clone(),
                        issued_at_ms,
                    };
                    assert(envelope@ == envelope_of(self@, issued_at_ms));
                    let ciphertext = match encrypt_ticket_envelope_with_nonce(
                        key,
                        hello.share_id,
                        hello.sender_commitment,
                        hello.receiver_commitment,
                        &envelope,
                        nonce,
                    ) {
                        Ok(ciphertext) => ciphertext,
                        Err(error) => return Err(error),
                    };
                    let message = PhraseMessage::SenderTicket(
                        SenderTicket {
                            version: PHRASE_PROTOCOL_VERSION,
                            share_id: hello.share_id,
                            sender_commitment: hello.sender_commitment,
                            receiver_commitment: hello.receiver_commitment,
                            nonce,
                            ciphertext,
                        },
                    );
                    let ticket_bytes = match encode_message(&message) {
                        Ok(bytes) => bytes,
                        Err(error) => return Err(error),
                    };
                    let ack_expected: [u8; 32] = match derive_ack_tag(
                        key,
                        hello.share_id,
                        hello.sender_commitment,
                        hello.receiver_commitment,
                    ) {
                        Ok(tag) => tag,
                        Err(error) => return Err(error),
                    };
                    let send = copy_bytes(ticket_bytes.as_slice());
                    (
                        SenderPhase::Answered { hello, ack_expected, ticket_bytes },
                        SenderAction::SendTicket(send),
                    )
                }
            },
            SenderPhase::Answered { hello: active, ack_expected, ticket_bytes } => (
                SenderPhase::Answered { hello: active, ack_expected, ticket_bytes },
                SenderAction::Settle,
            ),
            SenderPhase::AwaitAck {
                hello: active,
                ack_expected,
                ticket_bytes,
                ack_deadline,
                resend_count,
            } => {
                let action = if same_id(&hello.share_id, &active.share_id) && same_id(
                    &hello.sender_commitment,
                    &active.sender_commitment,
                ) && same_id(&hello.receiver_commitment, &active.receiver_commitment) {
                    SenderAction::ResendTicket(copy_bytes(ticket_bytes.as_slice()))
                } else {
                    SenderAction::Settle
                };
                (
                    SenderPhase::AwaitAck {
                        hello: active,
                        ack_expected,
                        ticket_bytes,
                        ack_deadline,
                        resend_count,
                    },
                    action,
                )
            },
        };
        Ok(
            (
                SenderSession {
                    phrase,
                    ticket,
                    ticket_hash,
                    share_id,
                    handoff_timeout_ms,
                    offer_tick_count,
                    phase,
                },
                action,
            ),
        )
    }

    fn on_ack(&self, ack: &ReceiverAck) -> (action: SenderAction)
        ensures
            action@ == sender_on_ack(self@, ack@),
    {
        match &self.phase {
            SenderPhase::AwaitAck { hello, ack_expected, .. } => {
                if ack.version == PHRASE_PROTOCOL_VERSION && same_id(&ack.share_id, &hello.share_id)
                    && same_id(&ack.sender_commitment, &hello.sender_commitment) && same_id(
                    &ack.receiver_commitment,
                    &hello.receiver_commitment,
                ) && same_id(&ack.ack_tag, ack_expected) {
                    SenderAction::Done
                } else {
                    SenderAction::Settle
                }
            },
            _ => SenderAction::Settle,
        }
    }

    /// A gossip message came in. A ticket that it calls for is issued at
    /// `issued_at_ms` and sealed under `nonce`.
    pub fn receive_with_nonce(self, bytes: &[u8], issued_at_ms: u64, nonce: [u8; 24]) -> (r: Result<
        (SenderSession, SenderAction),
        PhraseError,
    >)
        ensures
            sender_outcome(r, sender_on_message(self@, bytes@, issued_at_ms, nonce@)),
            r is Ok && r->Ok_0.1 is SendTicket ==> ticket_opens(
                self@,
                read_message(bytes@)->Ok_0->ReceiverHello_0,
                issued_at_ms,
                nonce@,
            ),
            self@.wf() && r is Ok ==> r->Ok_0.0@.wf(),
    {
        proof {
            if self@.wf() {
                message_keeps_sender_wf(self@, bytes@, issued_at_ms, nonce@);
            }
        }
        match decode_message(bytes) {
            Err(_) => Ok((self, SenderAction::Skip)),
            Ok(message) => match message {
                PhraseMessage::ReceiverHello(hello) => self.on_hello(hello, issued_at_ms, nonce),
                PhraseMessage::ReceiverAck(ack) => {
                    let action = self.on_ack(&ack);
                    Ok((self, action))
                },
                _ => Ok((self, SenderAction::Settle)),
            },
        }
    }

    /// A gossip message came in. A ticket that it calls for is issued at
    /// `issued_at_ms` and sealed under a nonce that is drawn anew.
    pub fn receive(self, bytes: &[u8], issued_at_ms: u64) -> (r: Result<
        (SenderSession, SenderAction),
        PhraseError,
    >)
        ensures
            exists|nonce: Seq<u8>|
                nonce.len() == 24 && sender_outcome(
                    r,
                    #[trigger] sender_on_message(self@, bytes@, issued_at_ms, nonce),
                ) && (r is Ok && r->Ok_0.1 is SendTicket ==> ticket_opens(
                    self@,
                    read_message(bytes@)->Ok_0->ReceiverHello_0,
                    issued_at_ms,
                    nonce,
                )),
            self@.wf() && r is Ok ==> r->Ok_0.0@.wf(),
    {
        let nonce: [u8; 24] = random_nonce();
        assert(nonce@.len() == 24);
        self.receive_with_nonce(bytes, issued_at_ms, nonce)
    }

    /// Something happened. A ticket that it calls for is issued at `issued_at_ms` and
    /// sealed under a nonce that is drawn anew.
    pub fn on_event(self, event: &GossipEvent, issued_at_ms: u64) -> (r: Result<
        (SenderSession, SenderAction),
        PhraseError,
    >)
        ensures
            exists|nonce: Seq<u8>|
                nonce.len() == 24 && sender_outcome(
                    r,
                    #[trigger] sender_on_event(self@, event@, issued_at_ms, nonce),
                ) && (r is Ok && r->Ok_0.1 is SendTicket ==> ticket_opens(
                    self@,
                    read_message(event@->Message_0)->Ok_0->ReceiverHello_0,
                    issued_at_ms,
                    nonce,
                )),
            self@.wf() && r is Ok ==> r->Ok_0.0@.wf(),
    {
        // The outcome where no nonce is drawn.
        let ghost undrawn = sender_on_event(self@, event@, issued_at_ms, Seq::new(24, |i: int| 0));
        match event {
            GossipEvent::Message(bytes) => {
                let r = self.receive(bytes.as_slice(), issued_at_ms);
                proof {
                    let nonce = choose|nonce: Seq<u8>|
                        nonce.len() == 24 && sender_outcome(
                            r,
                            #[trigger] sender_on_message(self@, bytes@, issued_at_ms, nonce),
                        ) && (r is Ok && r->Ok_0.1 is SendTicket ==> ticket_opens(
                            self@,
                            read_message(bytes@)->Ok_0->ReceiverHello_0,
                            issued_at_ms,
                            nonce,
                        ));
                    let drawn = sender_on_event(self@, event@, issued_at_ms, nonce);
                }
                r
            },
            GossipEvent::Notice => Ok((self, SenderAction::Settle)),
            GossipEvent::StreamError => Ok((self, SenderAction::Settle)),
            GossipEvent::Closed => Err(PhraseError::GossipClosed),
            GossipEvent::Deadline => Err(PhraseError::HandoffTimeout),
        }
    }
}

} // verus!
