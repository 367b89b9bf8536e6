//! The messages that the two sides exchange.

use vstd::prelude::*;

use crate::bytes::{copy_bytes, same_id};

verus! {

/// The protocol version that this crate speaks.
pub const PHRASE_PROTOCOL_VERSION: u8 = 1;

/// One message on the gossip topic.
#[derive(Debug)]
pub enum PhraseMessage {
    SenderOffer(SenderOffer),
    ReceiverHello(ReceiverHello),
    SenderTicket(SenderTicket),
    ReceiverAck(ReceiverAck),
}

/// The sender announces a share.
#[derive(Debug)]
pub struct SenderOffer {
    pub version: u8,
    pub share_id: [u8; 32],
    pub sender_commitment: [u8; 32],
    pub pake_msg_1: Vec<u8>,
    pub created_at_ms: u64,
    pub expires_at_ms: u64,
}

/// A receiver answers an offer.
#[derive(Debug)]
pub struct ReceiverHello {
    pub version: u8,
    pub share_id: [u8; 32],
    pub sender_commitment: [u8; 32],
    pub receiver_commitment: [u8; 32],
    pub pake_msg_2: Vec<u8>,
}

/// The sender hands over the sealed ticket envelope.
#[derive(Debug)]
pub struct SenderTicket {
    pub version: u8,
    pub share_id: [u8; 32],
    pub sender_commitment: [u8; 32],
    pub receiver_commitment: [u8; 32],
    pub nonce: [u8; 24],
    pub ciphertext: Vec<u8>,
}

/// The receiver confirms that it has opened the ticket.
#[derive(Debug)]
pub struct ReceiverAck {
    pub version: u8,
    pub share_id: [u8; 32],
    pub sender_commitment: [u8; 32],
    pub receiver_commitment: [u8; 32],
    pub ack_tag: [u8; 32],
}

/// What a `SenderTicket` carries under the session key.
#[derive(Debug)]
pub struct TicketEnvelope {
    pub ticket: String,
    pub ticket_hash: String,
    pub issued_at_ms: u64,
}

/// The contents of a `SenderOffer`.
#[verifier::ext_equal]
pub struct OfferView {
    pub version: u8,
    pub share_id: Seq<u8>,
    pub sender_commitment: Seq<u8>,
    pub pake_msg_1: Seq<u8>,
    pub created_at_ms: u64,
    pub expires_at_ms: u64,
}

/// The contents of a `ReceiverHello`.
#[verifier::ext_equal]
pub struct HelloView {
    pub version: u8,
    pub share_id: Seq<u8>,
    pub sender_commitment: Seq<u8>,
    pub receiver_commitment: Seq<u8>,
    pub pake_msg_2: Seq<u8>,
}

/// The contents of a `SenderTicket`.
#[verifier::ext_equal]
pub struct TicketView {
    pub version: u8,
    pub share_id: Seq<u8>,
    pub sender_commitment: Seq<u8>,
    pub receiver_commitment: Seq<u8>,
    pub nonce: Seq<u8>,
    pub ciphertext: Seq<u8>,
}

/// The contents of a `ReceiverAck`.
#[verifier::ext_equal]
pub struct AckView {
    pub version: u8,
    pub share_id: Seq<u8>,
    pub sender_commitment: Seq<u8>,
    pub receiver_commitment: Seq<u8>,
    pub ack_tag: Seq<u8>,
}

/// The contents of a `PhraseMessage`.
#[verifier::ext_equal]
pub enum MessageView {
    SenderOffer(OfferView),
    ReceiverHello(HelloView),
    SenderTicket(TicketView),
    ReceiverAck(AckView),
}

/// The contents of a `TicketEnvelope`.
#[verifier::ext_equal]
pub struct EnvelopeView {
    pub ticket: Seq<char>,
    pub ticket_hash: Seq<char>,
    pub issued_at_ms: u64,
}

impl OfferView {
    /// Identifiers are 32 bytes long.
    pub open spec fn wf(self) -> bool {
        &&& self.share_id.len() == 32
        &&& self.sender_commitment.len() == 32
    }
}

impl HelloView {
    /// Identifiers are 32 bytes long.
    pub open spec fn wf(self) -> bool {
        &&& self.share_id.len() == 32
        &&& self.sender_commitment.len() == 32
        &&& self.receiver_commitment.len() == 32
    }
}

impl TicketView {
    /// Identifiers are 32 bytes long, the nonce 24.
    pub open spec fn wf(self) -> bool {
        &&& self.share_id.len() == 32
        &&& self.sender_commitment.len() == 32
        &&& self.receiver_commitment.len() == 32
        &&& self.nonce.len() == 24
    }
}

impl AckView {
    /// Identifiers and the tag are 32 bytes long.
    pub open spec fn wf(self) -> bool {
        &&& self.share_id.len() == 32
        &&& self.sender_commitment.len() == 32
        &&& self.receiver_commitment.len() == 32
        &&& self.ack_tag.len() == 32
    }
}

impl MessageView {
    /// The fields of fixed length have that length.
    pub open spec fn wf(self) -> bool {
        match self {
            MessageView::SenderOffer(offer) => offer.wf(),
            MessageView::ReceiverHello(hello) => hello.wf(),
            MessageView::SenderTicket(ticket) => ticket.wf(),
            MessageView::ReceiverAck(ack) => ack.wf(),
        }
    }
}

impl View for SenderOffer {
    type V = OfferView;

    open spec fn view(&self) -> OfferView {
        OfferView {
            version: self.version,
            share_id: self.share_id@,
            sender_commitment: self.sender_commitment@,
            pake_msg_1: self.pake_msg_1@,
            created_at_ms: self.created_at_ms,
            expires_at_ms: self.expires_at_ms,
        }
    }
}

impl View for ReceiverHello {
    type V = HelloView;

    open spec fn view(&self) -> HelloView {
        HelloView {
            version: self.version,
            share_id: self.share_id@,
            sender_commitment: self.sender_commitment@,
            receiver_commitment: self.receiver_commitment@,
            pake_msg_2: self.pake_msg_2@,
        }
    }
}

impl View for SenderTicket {
    type V = TicketView;

    open spec fn view(&self) -> TicketView {
        TicketView {
            version: self.version,
            share_id: self.share_id@,
            sender_commitment: self.sender_commitment@,
            receiver_commitment: self.receiver_commitment@,
            nonce: self.nonce@,
            ciphertext: self.ciphertext@,
        }
    }
}

impl View for ReceiverAck {
    type V = AckView;

    open spec fn view(&self) -> AckView {
        AckView {
            version: self.version,
            share_id: self.share_id@,
            sender_commitment: self.sender_commitment@,
            receiver_commitment: self.receiver_commitment@,
            ack_tag: self.ack_tag@,
        }
    }
}

impl View for PhraseMessage {
    type V = MessageView;

    open spec fn view(&self) -> MessageView {
        match self {
            PhraseMessage::SenderOffer(offer) => MessageView::SenderOffer(offer@),
            PhraseMessage::ReceiverHello(hello) => MessageView::ReceiverHello(hello@),
            PhraseMessage::SenderTicket(ticket) => MessageView::SenderTicket(ticket@),
            PhraseMessage::ReceiverAck(ack) => MessageView::ReceiverAck(ack@),
        }
    }
}

impl View for TicketEnvelope {
    type V = EnvelopeView;

    open spec fn view(&self) -> EnvelopeView {
        EnvelopeView {
            ticket: self.ticket@,
            ticket_hash: self.ticket_hash@,
            issued_at_ms: self.issued_at_ms,
        }
    }
}

impl Clone for SenderOffer {
    fn clone(&self) -> (copy: Self)
        ensures
            copy@ == self@,
    {
        SenderOffer {
            version: self.version,
            share_id: self.share_id,
            sender_commitment: self.sender_commitment,
            pake_msg_1: copy_bytes(self.pake_msg_1.as_slice()),
            created_at_ms: self.created_at_ms,
            expires_at_ms: self.expires_at_ms,
        }
    }
}

impl Clone for ReceiverHello {
    fn clone(&self) -> (copy: Self)
        ensures
            copy@ == self@,
    {
        ReceiverHello {
            version: self.version,
            share_id: self.share_id,
            sender_commitment: self.sender_commitment,
            receiver_commitment: self.receiver_commitment,
            pake_msg_2: copy_bytes(self.pake_msg_2.as_slice()),
        }
    }
}

impl Clone for SenderTicket {
    fn clone(&self) -> (copy: Self)
        ensures
            copy@ == self@,
    {
        SenderTicket {
            version: self.version,
            share_id: self.share_id,
            sender_commitment: self.sender_commitment,
            receiver_commitment: self.receiver_commitment,
            nonce: self.nonce,
            ciphertext: copy_bytes(self.ciphertext.as_slice()),
        }
    }
}

impl Clone for ReceiverAck {
    fn clone(&self) -> (copy: Self)
        ensures
            copy@ == self@,
    {
        ReceiverAck {
            version: self.version,
            share_id: self.share_id,
            sender_commitment: self.sender_commitment,
            receiver_commitment: self.receiver_commitment,
            ack_tag: self.ack_tag,
        }
    }
}

impl Clone for PhraseMessage {
    fn clone(&self) -> (copy: Self)
        ensures
            copy@ == self@,
    {
        match self {
            PhraseMessage::SenderOffer(offer) => PhraseMessage::SenderOffer(offer.clone()),
            PhraseMessage::ReceiverHello(hello) => PhraseMessage::ReceiverHello(hello.clone()),
            PhraseMessage::SenderTicket(ticket) => PhraseMessage::SenderTicket(ticket.clone()),
            PhraseMessage::ReceiverAck(ack) => PhraseMessage::ReceiverAck(ack.clone()),
        }
    }
}

impl Clone for TicketEnvelope {
    fn clone(&self) -> (copy: Self)
        ensures
            copy@ == self@,
    {
        TicketEnvelope {
            ticket: self.ticket.clone(),
            ticket_hash: self.ticket_hash.clone(),
            issued_at_ms: self.issued_at_ms,
        }
    }
}

/// Whether a hello answers an offer: it speaks this protocol version and repeats
/// the offer's share and commitment.
pub open spec fn hello_matches(offer: OfferView, hello: HelloView) -> bool {
    &&& hello.version == PHRASE_PROTOCOL_VERSION
    &&& hello.share_id == offer.share_id
    &&& hello.sender_commitment == offer.sender_commitment
}

/// Whether `hello` is an answer to `offer`.
pub fn matches_receiver_hello(offer: &SenderOffer, hello: &ReceiverHello) -> (matching: bool)
    ensures
        matching == hello_matches(offer@, hello@),
{
    hello.version == PHRASE_PROTOCOL_VERSION && same_id(&hello.share_id, &offer.share_id)
        && same_id(&hello.sender_commitment, &offer.sender_commitment)
}

} // verus!
