//! The receiver's side of a handoff.
//!
//! A receiver answers every valid offer with a hello and repeats the hello until
//! the sealed ticket comes. It opens the ticket, acknowledges it and is done. Where
//! no ticket comes in time, it waits for the next offer.
//!
//! The caller moves messages and time: it hands in what the gossip topic delivers
//! and what its clocks show, and sends out what it is told to. Points in time are
//! nanoseconds since some moment that the caller picks.

use vstd::prelude::*;

use crate::bytes::{copy_bytes, same_id};
use crate::codec::{decode_message, encode_message};
use crate::crypto::{
    ack_tag_of, associated_data, decrypt_ticket_envelope, derive_ack_tag, opened_envelope,
    receiver_finish_pake, receiver_for, receiver_key, receiver_start_pake, ReceiverPakeState,
    ReceiverPakeView,
};
use crate::error::PhraseError;
use crate::event::{GossipEvent, GossipEventView};
use crate::pake::{message_of, PakeSide};
use crate::proto::{
    AckView, MessageView, OfferView, PhraseMessage, ReceiverAck, SenderOffer,
    SenderTicket, TicketView, PHRASE_PROTOCOL_VERSION,
};
use crate::wire::{message_wire, read_message};

verus! {

/// How long a receiver waits for the ticket of one offer: twelve seconds.
pub const TICKET_WAIT: u64 = 12_000_000_000;

/// Where a receiver stands.
pub enum ReceiverPhase {
    /// No offer is being followed.
    AwaitOffer,
    /// An offer is answered, and the hello is about to be sent for the first time.
    Greeting {
        offer: SenderOffer,
        expected_receiver_commitment: [u8; 32],
        sk: [u8; 32],
        hello_bytes: Vec<u8>,
    },
    /// The hello has been sent.
    AwaitTicket {
        offer: SenderOffer,
        expected_receiver_commitment: [u8; 32],
        sk: [u8; 32],
        hello_bytes: Vec<u8>,
        wait_deadline: u64,
        resend_count: u64,
    },
}

/// A receiver in the middle of a handoff.
pub struct ReceiverSession {
    pub phrase: String,
    pub deadline: u64,
    pub offer_count: u64,
    pub phase: ReceiverPhase,
}

/// What the caller has to do after a message came in.
pub enum ReceiverAction {
    /// Wait for the next event, without a look at the deadline.
    Skip,
    /// Go on to the deadline.
    Settle,
    /// Send the hello, and report with `hello_sent` that it went out.
    SendHello(Vec<u8>),
    /// Send the acknowledgement and stop: the ticket is here.
    Resolved { ack_bytes: Vec<u8>, ticket: String },
}

/// The contents of a `ReceiverPhase`.
#[verifier::ext_equal]
pub enum ReceiverPhaseView {
    AwaitOffer,
    Greeting {
        offer: OfferView,
        expected_receiver_commitment: Seq<u8>,
        sk: Seq<u8>,
        hello_bytes: Seq<u8>,
    },
    AwaitTicket {
        offer: OfferView,
        expected_receiver_commitment: Seq<u8>,
        sk: Seq<u8>,
        hello_bytes: Seq<u8>,
        wait_deadline: u64,
        resend_count: u64,
    },
}

/// The contents of a `ReceiverSession`.
#[verifier::ext_equal]
pub struct ReceiverView {
    pub phrase: Seq<char>,
    pub deadline: u64,
    pub offer_count: u64,
    pub phase: ReceiverPhaseView,
}

/// The contents of a `ReceiverAction`.
#[verifier::ext_equal]
pub enum ReceiverActionView {
    Skip,
    Settle,
    SendHello(Seq<u8>),
    Resolved { ack_bytes: Seq<u8>, ticket: Seq<char> },
}

impl View for ReceiverPhase {
    type V = ReceiverPhaseView;

    open spec fn view(&self) -> ReceiverPhaseView {
        match self {
            ReceiverPhase::AwaitOffer => ReceiverPhaseView::AwaitOffer,
            ReceiverPhase::Greeting { offer, expected_receiver_commitment, sk, hello_bytes } => {
                ReceiverPhaseView::Greeting {
                    offer: offer@,
                    expected_receiver_commitment: expected_receiver_commitment@,
                    sk: sk@,
                    hello_bytes: hello_bytes@,
                }
            },
            ReceiverPhase::AwaitTicket {
                offer,
                expected_receiver_commitment,
                sk,
                hello_bytes,
                wait_deadline,
                resend_count,
            } => {
                ReceiverPhaseView::AwaitTicket {
                    offer: offer@,
                    expected_receiver_commitment: expected_receiver_commitment@,
                    sk: sk@,
                    hello_bytes: hello_bytes@,
                    wait_deadline: *wait_deadline,
                    resend_count: *resend_count,
                }
            },
        }
    }
}

impl View for ReceiverSession {
    type V = ReceiverView;

    open spec fn view(&self) -> ReceiverView {
        ReceiverView {
            phrase: self.phrase@,
            deadline: self.deadline,
            offer_count: self.offer_count,
            phase: self.phase@,
        }
    }
}

impl View for ReceiverAction {
    type V = ReceiverActionView;

    open spec fn view(&self) -> ReceiverActionView {
        match self {
            ReceiverAction::Skip => ReceiverActionView::Skip,
            ReceiverAction::Settle => ReceiverActionView::Settle,
            ReceiverAction::SendHello(bytes) => ReceiverActionView::SendHello(bytes@),
            ReceiverAction::Resolved { ack_bytes, ticket } => ReceiverActionView::Resolved {
                ack_bytes: ack_bytes@,
                ticket: ticket@,
            },
        }
    }
}

/// Whether `sk`, the commitment and the hello are those of a receiver that knows
/// `phrase` and answers `offer` with the message `pake_msg_2`.
pub open spec fn follows_with(
    phrase: Seq<char>,
    offer: OfferView,
    commitment: Seq<u8>,
    sk: Seq<u8>,
    hello_bytes: Seq<u8>,
    pake_msg_2: Seq<u8>,
) -> bool {
    let receiver = receiver_for(phrase, offer, pake_msg_2);
    &&& offer.version == PHRASE_PROTOCOL_VERSION
    &&& receiver_key(receiver, offer) == Some(sk)
    &&& commitment == receiver.hello.receiver_commitment
    &&& hello_bytes == message_wire(MessageView::ReceiverHello(receiver.hello))
}

/// Whether `sk`, the commitment and the hello are those of a receiver that knows
/// `phrase` and answers `offer`.
pub open spec fn follows(
    phrase: Seq<char>,
    offer: OfferView,
    commitment: Seq<u8>,
    sk: Seq<u8>,
    hello_bytes: Seq<u8>,
) -> bool {
    exists|pake_msg_2: Seq<u8>| #[trigger]
        follows_with(phrase, offer, commitment, sk, hello_bytes, pake_msg_2)
}

impl ReceiverView {
    /// A receiver follows an offer of this protocol version under its phrase, what
    /// it repeats is its answer to that offer, and it never waits for a ticket
    /// beyond its own deadline.
    pub open spec fn wf(self) -> bool {
        match self.phase {
            ReceiverPhaseView::AwaitOffer => true,
            ReceiverPhaseView::Greeting {
                offer,
                expected_receiver_commitment,
                sk,
                hello_bytes,
            } => follows(
                self.phrase,
                offer,
                expected_receiver_commitment,
                sk,
                hello_bytes,
            ),
            ReceiverPhaseView::AwaitTicket {
                offer,
                expected_receiver_commitment,
                sk,
                hello_bytes,
                wait_deadline,
                ..
            } => wait_deadline <= self.deadline && follows(
                self.phrase,
                offer,
                expected_receiver_commitment,
                sk,
                hello_bytes,
            ),
        }
    }
}

/// Whether a receiver answers an offer at all: it speaks this protocol version and
/// has not expired.
pub open spec fn offer_valid(offer: OfferView, now_ms: u64) -> bool {
    offer.version == PHRASE_PROTOCOL_VERSION && now_ms <= offer.expires_at_ms
}

/// What a receiver does with an offer once it has drawn its part of the key
/// exchange.
pub open spec fn receiver_greets(s: ReceiverView, offer: OfferView, receiver: ReceiverPakeView) -> (
    ReceiverView,
    ReceiverActionView,
) {
    match receiver_key(receiver, offer) {
        None => (s, ReceiverActionView::Skip),
        Some(sk) => {
            let hello_bytes = message_wire(MessageView::ReceiverHello(receiver.hello));
            (
                ReceiverView {
                    phase: ReceiverPhaseView::Greeting {
                        offer,
                        expected_receiver_commitment: receiver.hello.receiver_commitment,
                        sk,
                        hello_bytes,
                    },
                    ..s
                },
                ReceiverActionView::SendHello(hello_bytes),
            )
        },
    }
}

/// What a receiver that draws the message `pake_msg_2` does with an offer.
pub open spec fn receiver_on_offer(
    s: ReceiverView,
    offer: OfferView,
    now_ms: u64,
    pake_msg_2: Seq<u8>,
) -> (ReceiverView, ReceiverActionView) {
    let counted = ReceiverView { offer_count: (s.offer_count + 1) as u64, ..s };
    if offer_valid(offer, now_ms) {
        receiver_greets(counted, offer, receiver_for(s.phrase, offer, pake_msg_2))
    } else {
        (counted, ReceiverActionView::Skip)
    }
}

/// Whether a ticket belongs to the offer that a receiver follows.
pub open spec fn ticket_matches(
    offer: OfferView,
    expected_receiver_commitment: Seq<u8>,
    ticket: TicketView,
) -> bool {
    &&& ticket.version == PHRASE_PROTOCOL_VERSION
    &&& ticket.share_id == offer.share_id
    &&& ticket.sender_commitment == offer.sender_commitment
    &&& ticket.receiver_commitment == expected_receiver_commitment
}

/// The acknowledgement of a ticket by a receiver that holds the key `sk`.
pub open spec fn ack_for(ticket: TicketView, sk: Seq<u8>) -> AckView {
    AckView {
        version: PHRASE_PROTOCOL_VERSION,
        share_id: ticket.share_id,
        sender_commitment: ticket.sender_commitment,
        receiver_commitment: ticket.receiver_commitment,
        ack_tag: ack_tag_of(
            sk,
            ticket.share_id,
            ticket.sender_commitment,
            ticket.receiver_commitment,
        ),
    }
}

/// What a receiver does with a ticket.
pub open spec fn receiver_on_ticket(s: ReceiverView, ticket: TicketView) -> ReceiverActionView {
    match s.phase {
        ReceiverPhaseView::AwaitTicket { offer, expected_receiver_commitment, sk, .. } => {
            if !ticket_matches(offer, expected_receiver_commitment, ticket) {
                ReceiverActionView::Skip
            } else {
                match opened_envelope(
                    sk,
                    associated_data(
                        ticket.share_id,
                        ticket.sender_commitment,
                        ticket.receiver_commitment,
                    ),
                    ticket.nonce,
                    ticket.ciphertext,
                ) {
                    Err(_) => ReceiverActionView::Skip,
                    Ok(envelope) => ReceiverActionView::Resolved {
                        ack_bytes: message_wire(MessageView::ReceiverAck(ack_for(ticket, sk))),
                        ticket: envelope.ticket,
                    },
                }
            }
        },
        _ => ReceiverActionView::Settle,
    }
}

/// What a receiver does with the bytes of a gossip message: its next state and
/// what the caller has to do. An offer is answered with the message `pake_msg_2`.
pub open spec fn receiver_on_message(
    s: ReceiverView,
    bytes: Seq<u8>,
    now_ms: u64,
    pake_msg_2: Seq<u8>,
) -> (ReceiverView, ReceiverActionView) {
    match read_message(bytes) {
        Err(_) => (s, ReceiverActionView::Skip),
        Ok(message) => match message {
            MessageView::SenderOffer(offer) => receiver_on_offer(s, offer, now_ms, pake_msg_2),
            MessageView::SenderTicket(ticket) => (s, receiver_on_ticket(s, ticket)),
            _ => (s, ReceiverActionView::Settle),
        },
    }
}

/// The earlier of two points in time.
pub open spec fn earlier(a: int, b: int) -> int {
    if a <= b {
        a
    } else {
        b
    }
}

/// The receiver after its hello went out.
pub open spec fn receiver_hello_sent(s: ReceiverView, now: u64) -> ReceiverView {
    match s.phase {
        ReceiverPhaseView::Greeting { offer, expected_receiver_commitment, sk, hello_bytes } => {
            ReceiverView {
                phase: ReceiverPhaseView::AwaitTicket {
                    offer,
                    expected_receiver_commitment,
                    sk,
                    hello_bytes,
                    wait_deadline: earlier(now + TICKET_WAIT, s.deadline as int) as u64,
                    resend_count: 0,
                },
                ..s
            }
        },
        _ => s,
    }
}

/// The receiver after the retry interval has passed, and what it then sends.
pub open spec fn receiver_retry_tick(s: ReceiverView) -> (ReceiverView, Option<Seq<u8>>) {
    match s.phase {
        ReceiverPhaseView::AwaitTicket {
            offer,
            expected_receiver_commitment,
            sk,
            hello_bytes,
            wait_deadline,
            resend_count,
        } => (
            ReceiverView {
                phase: ReceiverPhaseView::AwaitTicket {
                    offer,
                    expected_receiver_commitment,
                    sk,
                    hello_bytes,
                    wait_deadline,
                    resend_count: (resend_count + 1) as u64,
                },
                ..s
            },
            Some(hello_bytes),
        ),
        _ => (s, None),
    }
}

/// What a receiver does with an event: its next state and what the caller has to
/// do, or why the handoff fails.
pub open spec fn receiver_on_event(
    s: ReceiverView,
    event: GossipEventView,
    now_ms: u64,
    pake_msg_2: Seq<u8>,
) -> Result<(ReceiverView, ReceiverActionView), PhraseError> {
    match event {
        GossipEventView::Message(bytes) => Ok(receiver_on_message(s, bytes, now_ms, pake_msg_2)),
        GossipEventView::Notice => Ok((s, ReceiverActionView::Settle)),
        GossipEventView::StreamError => Ok((s, ReceiverActionView::Settle)),
        GossipEventView::Closed => Err(PhraseError::GossipClosed),
        GossipEventView::Deadline => Err(PhraseError::ResolveTimeout),
    }
}

/// Whether `bytes` are an offer, which a receiver counts.
pub open spec fn holds_offer(bytes: Seq<u8>) -> bool {
    read_message(bytes) matches Ok(MessageView::SenderOffer(_))
}

/// Whether a receiver has waited long enough for the ticket of an offer.
pub open spec fn receiver_wait_over(s: ReceiverView, now: u64) -> bool {
    s.phase matches ReceiverPhaseView::AwaitTicket { wait_deadline, .. } && now >= wait_deadline
}

/// Whether the outcome of a step is the one that `expected` describes.
pub open spec fn receiver_outcome(
    r: Result<(ReceiverSession, ReceiverAction), PhraseError>,
    expected: (ReceiverView, ReceiverActionView),
) -> bool {
    r is Ok && r->Ok_0.0@ == expected.0 && r->Ok_0.1@ == expected.1
}

/// Whatever comes in, a receiver that is well formed stays so, and its phrase and
/// its deadline stay what they are.
pub proof fn message_keeps_receiver_wf(
    s: ReceiverView,
    bytes: Seq<u8>,
    now_ms: u64,
    pake_msg_2: Seq<u8>,
)
    requires
        s.wf(),
    ensures
        ({
            let (next, action) = receiver_on_message(s, bytes, now_ms, pake_msg_2);
            &&& next.wf()
            &&& next.phrase == s.phrase
            &&& next.deadline == s.deadline
        }),
{
    let (next, action) = receiver_on_message(s, bytes, now_ms, pake_msg_2);
    if let Ok(MessageView::SenderOffer(offer)) = read_message(bytes) {
        let receiver = receiver_for(s.phrase, offer, pake_msg_2);
        if offer_valid(offer, now_ms) {
            if let Some(sk) = receiver_key(receiver, offer) {
                assert(follows_with(
                    s.phrase,
                    offer,
                    receiver.hello.receiver_commitment,
                    sk,
                    message_wire(MessageView::ReceiverHello(receiver.hello)),
                    pake_msg_2,
                ));
            }
        }
    }
}

impl ReceiverSession {
    /// A receiver that looks for a ticket until `deadline`.
    pub fn start(phrase: String, deadline: u64) -> (session: ReceiverSession)
        ensures
            session@ == (ReceiverView {
                phrase: phrase@,
                deadline,
                offer_count: 0,
                phase: ReceiverPhaseView::AwaitOffer,
            }),
            session@.wf(),
    {
        ReceiverSession { phrase, deadline, offer_count: 0, phase: ReceiverPhase::AwaitOffer }
    }

    /// The retry interval has passed. Gives the hello to send once more, while the
    /// ticket is not here.
    pub fn retry_tick(&mut self) -> (send: Option<Vec<u8>>)
        requires
            old(self)@.phase matches ReceiverPhaseView::AwaitTicket { resend_count, .. }
                ==> resend_count < u64::MAX,
        ensures
            send is Some <==> receiver_retry_tick(old(self)@).1 is Some,
            send is Some ==> Some(send->Some_0@) == receiver_retry_tick(old(self)@).1,
            final(self)@ == receiver_retry_tick(old(self)@).0,
            old(self)@.wf() ==> final(self)@.wf(),
    {
        match &mut self.phase {
            ReceiverPhase::AwaitTicket { hello_bytes, resend_count, .. } => {
                *resend_count = *resend_count + 1;
                Some(copy_bytes(hello_bytes.as_slice()))
            },
            _ => None,
        }
    }

    /// The hello went out at `now`: the wait for the ticket begins.
    pub fn hello_sent(self, now: u64) -> (next: ReceiverSession)
        requires
            now + TICKET_WAIT <= u64::MAX,
        ensures
            next@ == receiver_hello_sent(self@, now),
            self@.wf() ==> next@.wf(),
    {
        let ReceiverSession { phrase, deadline, offer_count, phase } = self;
        let wait_deadline: u64 = if now + TICKET_WAIT <= deadline {
            now + TICKET_WAIT
        } else {
            deadline
        };
        let phase = match phase {
            ReceiverPhase::Greeting { offer, expected_receiver_commitment, sk, hello_bytes } => {
                ReceiverPhase::AwaitTicket {
                    offer,
                    expected_receiver_commitment,
                    sk,
                    hello_bytes,
                    wait_deadline,
                    resend_count: 0,
                }
            },
            other => other,
        };
        ReceiverSession { phrase, deadline, offer_count, phase }
    }

    /// Gives up the offer being followed where its ticket has not come by `now`.
    /// Says whether that was so.
    pub fn settle(&mut self, now: u64) -> (gave_up: bool)
        ensures
            gave_up == receiver_wait_over(old(self)@, now),
            final(self)@ == if gave_up {
                ReceiverView { phase: ReceiverPhaseView::AwaitOffer, ..old(self)@ }
            } else {
                old(self)@
            },
            old(self)@.wf() ==> final(self)@.wf(),
    {
        let gave_up: bool = match &self.phase {
            ReceiverPhase::AwaitTicket { wait_deadline, .. } => now >= *wait_deadline,
            _ => false,
        };
        if gave_up {
            self.phase = ReceiverPhase::AwaitOffer;
        }
        gave_up
    }

    /// Answers an offer with `receiver_state`, the receiver's part of the key
    /// exchange.
    pub fn greet(self, offer: SenderOffer, receiver_state: ReceiverPakeState) -> (r: Result<
        (ReceiverSession, ReceiverAction),
        PhraseError,
    >)
        ensures
            receiver_outcome(r, receiver_greets(self@, offer@, receiver_state@)),
            self@.wf() && offer.version == PHRASE_PROTOCOL_VERSION && receiver_state@
                == receiver_for(self@.phrase, offer@, receiver_state@.hello.pake_msg_2)
                ==> r->Ok_0.0@.wf(),
    {
        proof {
            if let Some(sk) = receiver_key(receiver_state@, offer@) {
                let hello = receiver_state@.hello;
                let followed = follows_with(
                    self@.phrase,
                    offer@,
                    hello.receiver_commitment,
                    sk,
                    message_wire(MessageView::ReceiverHello(hello)),
                    hello.pake_msg_2,
                );
            }
        }
        let receiver_hello = receiver_state.hello.clone();
        let expected_receiver_commitment: [u8; 32] = receiver_hello.receiver_commitment;
        let sk: [u8; 32] = match receiver_finish_pake(receiver_state, &offer) {
            Ok(key) => key,
            Err(_) => return Ok((self, ReceiverAction::Skip)),
        };
        let hello_bytes = match encode_message(&PhraseMessage::ReceiverHello(receiver_hello)) {
            Ok(bytes) => bytes,
            Err(error) => return Err(error),
        };
        let send = copy_bytes(hello_bytes.as_slice());
        Ok(
            (
                ReceiverSession {
                    phase: ReceiverPhase::Greeting {
                        offer,
                        expected_receiver_commitment,
                        sk,
                        hello_bytes,
                    },
                    ..self
                },
                ReceiverAction::SendHello(send),
            ),
        )
    }

    fn on_ticket(&self, ticket: &SenderTicket) -> (r: Result<ReceiverAction, PhraseError>)
        ensures
            r is Ok,
            r->Ok_0@ == receiver_on_ticket(self@, ticket@),
    {
        match &self.phase {
            ReceiverPhase::AwaitTicket { offer, expected_receiver_commitment, sk, .. } => {
                if ticket.version != PHRASE_PROTOCOL_VERSION || !same_id(
                    &ticket.share_id,
                    &offer.share_id,
                ) || !same_id(&ticket.sender_commitment, &offer.sender_commitment) || !same_id(
                    &ticket.receiver_commitment,
                    expected_receiver_commitment,
                ) {
                    return Ok(ReceiverAction::Skip);
                }
                let envelope = match decrypt_ticket_envelope(
                    *sk,
                    ticket.share_id,
                    ticket.sender_commitment,
                    ticket.receiver_commitment,
                    ticket.nonce,
                    ticket.ciphertext.as_slice(),
                ) {
                    Ok(envelope) => envelope,
                    Err(_) => return Ok(ReceiverAction::Skip),
                };
                let ack_tag: [u8; 32] = match derive_ack_tag(
                    *sk,
                    ticket.share_id,
                    ticket.sender_commitment,
                    ticket.receiver_commitment,
                ) {
                    Ok(tag) => tag,
                    Err(error) => return Err(error),
                };
                let ack = PhraseMessage::ReceiverAck(
                    ReceiverAck {
                        version: PHRASE_PROTOCOL_VERSION,
                        share_id: ticket.share_id,
                        sender_commitment: ticket.sender_commitment,
                        receiver_commitment: ticket.receiver_commitment,
                        ack_tag,
                    },
                );
                match encode_message(&ack) {
                    Ok(ack_bytes) => Ok(
                        ReceiverAction::Resolved { ack_bytes, ticket: envelope.ticket },
                    ),
                    Err(error) => Err(error),
                }
            },
            _ => Ok(ReceiverAction::Settle),
        }
    }

    /// A gossip message came in at `now_ms`. An offer is answered with a message
    /// that is drawn anew.
    pub fn receive(self, bytes: &[u8], now_ms: u64) -> (r: Result<
        (ReceiverSession, ReceiverAction),
        PhraseError,
    >)
        requires
            holds_offer(bytes@) ==> self.offer_count < u64::MAX,
        ensures
            exists|pake_msg_2: Seq<u8>|
                receiver_outcome(
                    r,
                    #[trigger] receiver_on_message(self@, bytes@, now_ms, pake_msg_2),
                ) && (r->Ok_0.1 is SendHello ==> message_of(PakeSide::B, pake_msg_2)),
            self@.wf() ==> r->Ok_0.0@.wf(),
    {
        // The outcome where no message is drawn.
        let ghost undrawn = receiver_on_message(self@, bytes@, now_ms, Seq::empty());
        proof {
            if self@.wf() {
                assert forall|pake_msg_2: Seq<u8>|
                    (#[trigger] receiver_on_message(self@, bytes@, now_ms, pake_msg_2)).0.wf() by {
                    message_keeps_receiver_wf(self@, bytes@, now_ms, pake_msg_2);
                }
            }
        }
        match decode_message(bytes) {
            Err(_) => Ok((self, ReceiverAction::Skip)),
            Ok(message) => match message {
                PhraseMessage::SenderOffer(offer) => {
                    let counted = ReceiverSession { offer_count: self.offer_count + 1, ..self };
                    if offer.version != PHRASE_PROTOCOL_VERSION {
                        return Ok((counted, ReceiverAction::Skip));
                    }
                    if offer.expires_at_ms < now_ms {
                        return Ok((counted, ReceiverAction::Skip));
                    }
                    let receiver_state = receiver_start_pake(counted.phrase.as_str(), &offer);
                    // The outcome with the message that was drawn.
                    let ghost drawn = receiver_on_message(
                        self@,
                        bytes@,
                        now_ms,
                        receiver_state@.hello.pake_msg_2,
                    );
                    counted.greet(offer, receiver_state)
                },
                PhraseMessage::SenderTicket(ticket) => match self.on_ticket(&ticket) {
                    Ok(action) => Ok((self, action)),
                    Err(error) => Err(error),
                },
                _ => Ok((self, ReceiverAction::Settle)),
            },
        }
    }

    /// Something happened at `now_ms`. An offer is answered with a message that is
    /// drawn anew.
    pub fn on_event(self, event: &GossipEvent, now_ms: u64) -> (r: Result<
        (ReceiverSession, ReceiverAction),
        PhraseError,
    >)
        requires
            event@ matches GossipEventView::Message(bytes) && holds_offer(bytes)
                ==> self.offer_count < u64::MAX,
        ensures
            exists|pake_msg_2: Seq<u8>|
                (match #[trigger] receiver_on_event(self@, event@, now_ms, pake_msg_2) {
                    Ok(expected) => receiver_outcome(r, expected),
                    Err(error) => r == Err::<(ReceiverSession, ReceiverAction), PhraseError>(error),
                }) && (r is Ok && r->Ok_0.1 is SendHello ==> message_of(PakeSide::B, pake_msg_2)),
            self@.wf() && r is Ok ==> r->Ok_0.0@.wf(),
    {
        // The outcome where no message is drawn.
        let ghost undrawn = receiver_on_event(self@, event@, now_ms, Seq::empty());
        match event {
            GossipEvent::Message(bytes) => {
                let r = self.receive(bytes.as_slice(), now_ms);
                proof {
                    let pake_msg_2 = choose|pake_msg_2: Seq<u8>|
                        receiver_outcome(
                            r,
                            #[trigger] receiver_on_message(self@, bytes@, now_ms, pake_msg_2),
                        ) && (r->Ok_0.1 is SendHello ==> message_of(PakeSide::B, pake_msg_2));
                    let drawn = receiver_on_event(self@, event@, now_ms, pake_msg_2);
                }
                r
            },
            GossipEvent::Notice => Ok((self, ReceiverAction::Settle)),
            GossipEvent::StreamError => Ok((self, ReceiverAction::Settle)),
            GossipEvent::Closed => Err(PhraseError::GossipClosed),
            GossipEvent::Deadline => Err(PhraseError::ResolveTimeout),
        }
    }
}

} // verus!
