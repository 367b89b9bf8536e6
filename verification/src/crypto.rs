//! Identifiers, keys and sealed envelopes.

use vstd::prelude::*;
use vstd::utf8::encode_utf8;

use crate::cipher::{
    open, random_nonce, seal, xchacha20poly1305_open, xchacha20poly1305_seal, MAX_MESSAGE_LEN,
    TAG_LEN,
};
use crate::codec::{decode_envelope, encode_envelope};
use crate::digest::{
    blake3_hash, blake3_keyed_hash, extract_and_expand, hash, hkdf_sha256, keyed_hash,
};
use crate::error::{PhraseError, WireError};
use crate::hex::{hex_text, short_hex};
use crate::pake::{message_of, pake_secret, wipe, PakeSide, PakeState, PakeView};
use crate::proto::{
    EnvelopeView, HelloView, OfferView, ReceiverHello, SenderOffer, TicketEnvelope,
    PHRASE_PROTOCOL_VERSION,
};
use crate::topic::{tracker_topic_hash, TopicId};
use crate::wire::{envelope_wire, exact_envelope_reads_back, read_envelope, sized};

verus! {

/// What sets the hash behind a topic name apart from every other hash.
pub const DOMAIN_TOPIC: &'static str = "sendme/phrase/topic/v1";

/// What sets the hash behind a share identifier apart.
pub const DOMAIN_SHARE: &'static str = "sendme/phrase/share-id/v1";

/// What sets the hash behind a sender's commitment apart.
pub const DOMAIN_SENDER_COMMITMENT: &'static str = "sendme/phrase/sender-commit/v1";

/// What sets the hash behind a receiver's commitment apart.
pub const DOMAIN_RECEIVER_COMMITMENT: &'static str = "sendme/phrase/receiver-commit/v1";

/// What sets the transcript hash and the expansion of a session key apart.
pub const DOMAIN_KDF: &'static str = "sendme/phrase/session-key/v1";

/// What sets the expansion of an acknowledgement key apart.
pub const DOMAIN_ACK: &'static str = "sendme/phrase/ack/v1";

/// The identity of the sender in the key exchange.
pub const ID_A: &'static str = "sendme-phrase-sender";

/// The identity of the receiver in the key exchange.
pub const ID_B: &'static str = "sendme-phrase-receiver";

/// A sender that has made an offer and waits for a receiver's answer.
pub struct SenderPakeState {
    pub state: PakeState,
    pub offer: SenderOffer,
}

/// A receiver that has answered an offer.
pub struct ReceiverPakeState {
    pub state: PakeState,
    pub hello: ReceiverHello,
}

/// The contents of a `SenderPakeState`.
#[verifier::ext_equal]
pub struct SenderPakeView {
    pub party: PakeView,
    pub offer: OfferView,
}

/// The contents of a `ReceiverPakeState`.
#[verifier::ext_equal]
pub struct ReceiverPakeView {
    pub party: PakeView,
    pub hello: HelloView,
}

impl View for SenderPakeState {
    type V = SenderPakeView;

    open spec fn view(&self) -> SenderPakeView {
        SenderPakeView { party: self.state@, offer: self.offer@ }
    }
}

impl View for ReceiverPakeState {
    type V = ReceiverPakeView;

    open spec fn view(&self) -> ReceiverPakeView {
        ReceiverPakeView { party: self.state@, hello: self.hello@ }
    }
}

/// The bytes whose hash names the topic of a phrase.
pub open spec fn topic_input(phrase: Seq<char>) -> Seq<u8> {
    encode_utf8(DOMAIN_TOPIC@) + encode_utf8(phrase)
}

/// The name of the topic on which the holders of a phrase meet.
pub open spec fn topic_name(phrase: Seq<char>) -> Seq<char> {
    hex_text(blake3_hash(topic_input(phrase)))
}

/// The bytes whose hash identifies the share of a ticket.
pub open spec fn share_input(ticket: Seq<char>) -> Seq<u8> {
    encode_utf8(DOMAIN_SHARE@) + encode_utf8(ticket)
}

/// The identifier of the share that a ticket gives access to.
pub open spec fn share_id_of(ticket: Seq<char>) -> Seq<u8> {
    blake3_hash(share_input(ticket))
}

/// What binds a sender to its first message.
pub open spec fn sender_commitment_of(share_id: Seq<u8>, pake_msg_1: Seq<u8>) -> Seq<u8> {
    blake3_hash(encode_utf8(DOMAIN_SENDER_COMMITMENT@) + share_id + pake_msg_1)
}

/// What binds a receiver to its answer to an offer.
pub open spec fn receiver_commitment_of(
    share_id: Seq<u8>,
    sender_commitment: Seq<u8>,
    pake_msg_2: Seq<u8>,
) -> Seq<u8> {
    blake3_hash(
        encode_utf8(DOMAIN_RECEIVER_COMMITMENT@) + share_id + sender_commitment + pake_msg_2,
    )
}

/// The offer of a share by a sender whose first message is `pake_msg_1`.
pub open spec fn offer_for(
    share_id: Seq<u8>,
    pake_msg_1: Seq<u8>,
    created_at_ms: u64,
    expires_at_ms: u64,
) -> OfferView {
    OfferView {
        version: PHRASE_PROTOCOL_VERSION,
        share_id,
        sender_commitment: sender_commitment_of(share_id, pake_msg_1),
        pake_msg_1,
        created_at_ms,
        expires_at_ms,
    }
}

/// The answer to an offer by a receiver whose message is `pake_msg_2`.
pub open spec fn hello_for(offer: OfferView, pake_msg_2: Seq<u8>) -> HelloView {
    HelloView {
        version: PHRASE_PROTOCOL_VERSION,
        share_id: offer.share_id,
        sender_commitment: offer.sender_commitment,
        receiver_commitment: receiver_commitment_of(
            offer.share_id,
            offer.sender_commitment,
            pake_msg_2,
        ),
        pake_msg_2,
    }
}

/// A party that knows `phrase`.
pub open spec fn party_for(side: PakeSide, phrase: Seq<char>, outbound: Seq<u8>) -> PakeView {
    PakeView {
        side,
        password: encode_utf8(phrase),
        id_a: encode_utf8(ID_A@),
        id_b: encode_utf8(ID_B@),
        outbound,
    }
}

/// The sender that knows `phrase`, has drawn the message `pake_msg_1` and offers
/// a share with it.
pub open spec fn sender_for(
    phrase: Seq<char>,
    share_id: Seq<u8>,
    created_at_ms: u64,
    expires_at_ms: u64,
    pake_msg_1: Seq<u8>,
) -> SenderPakeView {
    SenderPakeView {
        party: party_for(PakeSide::A, phrase, pake_msg_1),
        offer: offer_for(share_id, pake_msg_1, created_at_ms, expires_at_ms),
    }
}

/// The receiver that knows `phrase`, has drawn the message `pake_msg_2` and answers
/// an offer with it.
pub open spec fn receiver_for(
    phrase: Seq<char>,
    offer: OfferView,
    pake_msg_2: Seq<u8>,
) -> ReceiverPakeView {
    ReceiverPakeView {
        party: party_for(PakeSide::B, phrase, pake_msg_2),
        hello: hello_for(offer, pake_msg_2),
    }
}

/// All that the two sides said to each other.
pub open spec fn transcript(
    share_id: Seq<u8>,
    sender_commitment: Seq<u8>,
    receiver_commitment: Seq<u8>,
    pake_msg_1: Seq<u8>,
    pake_msg_2: Seq<u8>,
) -> Seq<u8> {
    encode_utf8(DOMAIN_KDF@) + share_id + sender_commitment + receiver_commitment + pake_msg_2
        + pake_msg_1
}

/// The key that a secret gives to an exchange.
pub open spec fn session_key_of(
    secret: Seq<u8>,
    share_id: Seq<u8>,
    sender_commitment: Seq<u8>,
    receiver_commitment: Seq<u8>,
    pake_msg_1: Seq<u8>,
    pake_msg_2: Seq<u8>,
) -> Seq<u8> {
    hkdf_sha256(
        blake3_hash(
            transcript(share_id, sender_commitment, receiver_commitment, pake_msg_1, pake_msg_2),
        ),
        secret,
        encode_utf8(DOMAIN_KDF@),
    )
}

/// The key that a sender gets out of a hello, if the hello holds a message of a
/// receiver.
pub open spec fn sender_key(sender: SenderPakeView, hello: HelloView) -> Option<Seq<u8>> {
    match pake_secret(sender.party, hello.pake_msg_2) {
        Some(secret) => Some(
            session_key_of(
                secret,
                sender.offer.share_id,
                sender.offer.sender_commitment,
                hello.receiver_commitment,
                sender.offer.pake_msg_1,
                hello.pake_msg_2,
            ),
        ),
        None => None,
    }
}

/// The key that a receiver gets out of an offer, if the offer holds a message of a
/// sender.
pub open spec fn receiver_key(receiver: ReceiverPakeView, offer: OfferView) -> Option<Seq<u8>> {
    match pake_secret(receiver.party, offer.pake_msg_1) {
        Some(secret) => Some(
            session_key_of(
                secret,
                offer.share_id,
                offer.sender_commitment,
                receiver.hello.receiver_commitment,
                offer.pake_msg_1,
                receiver.hello.pake_msg_2,
            ),
        ),
        None => None,
    }
}

/// The data that the cipher authenticates beside a ticket envelope: the three
/// identifiers of the exchange, one after the other.
pub open spec fn associated_data(
    share_id: Seq<u8>,
    sender_commitment: Seq<u8>,
    receiver_commitment: Seq<u8>,
) -> Seq<u8> {
    share_id + sender_commitment + receiver_commitment
}

/// Whether the cipher can seal an envelope.
pub open spec fn sealable(envelope: EnvelopeView) -> bool {
    envelope_wire(envelope).len() <= MAX_MESSAGE_LEN
}

/// An envelope sealed for an exchange.
pub open spec fn sealed_envelope(
    session_key: Seq<u8>,
    aad: Seq<u8>,
    nonce: Seq<u8>,
    envelope: EnvelopeView,
) -> Seq<u8> {
    xchacha20poly1305_seal(session_key, nonce, aad, envelope_wire(envelope))
}

/// What a sealed text opens to: an envelope, or why there is none.
pub open spec fn opened_envelope(
    session_key: Seq<u8>,
    aad: Seq<u8>,
    nonce: Seq<u8>,
    ciphertext: Seq<u8>,
) -> Result<EnvelopeView, PhraseError> {
    if ciphertext.len() > MAX_MESSAGE_LEN + TAG_LEN {
        Err(PhraseError::Decrypt)
    } else {
        match xchacha20poly1305_open(session_key, nonce, aad, ciphertext) {
            Some(plaintext) => match read_envelope(plaintext) {
                Ok(envelope) => Ok(envelope),
                Err(error) => Err(PhraseError::Decode(error)),
            },
            None => Err(PhraseError::Decrypt),
        }
    }
}

/// The tag by which a receiver proves that it holds the key of an exchange.
pub open spec fn ack_tag_of(
    session_key: Seq<u8>,
    share_id: Seq<u8>,
    sender_commitment: Seq<u8>,
    receiver_commitment: Seq<u8>,
) -> Seq<u8> {
    blake3_keyed_hash(
        hkdf_sha256(session_key, encode_utf8(DOMAIN_ACK@), encode_utf8(DOMAIN_ACK@)),
        share_id + sender_commitment + receiver_commitment,
    )
}

/// The topic on which the holders of `phrase` meet. Its name is the hash of the
/// phrase in hexadecimal.
pub fn derive_topic_id(phrase: &str) -> (topic: TopicId)
    ensures
        topic.hash@ == tracker_topic_hash(topic_name(phrase@)),
{
    let mut input: Vec<u8> = Vec::new();
    input.extend_from_slice(DOMAIN_TOPIC.as_bytes());
    input.extend_from_slice(phrase.as_bytes());
    assert(input@ =~= topic_input(phrase@));
    let digest: [u8; 32] = hash(input.as_slice());
    assert(digest@.take(32) =~= digest@);
    TopicId::new(short_hex(&digest, 32))
}

/// The identifier of the share behind `ticket`: the hash of the ticket.
pub fn derive_share_id(ticket: &str) -> (share_id: [u8; 32])
    ensures
        share_id@ == share_id_of(ticket@),
{
    let mut input: Vec<u8> = Vec::new();
    input.extend_from_slice(DOMAIN_SHARE.as_bytes());
    input.extend_from_slice(ticket.as_bytes());
    assert(input@ =~= share_input(ticket@));
    hash(input.as_slice())
}

/// The offer of a share by a sender that has drawn `pake_msg_1`.
pub fn sender_offer_for(
    share_id: [u8; 32],
    pake_msg_1: Vec<u8>,
    now_ms: u64,
    expires_at_ms: u64,
) -> (offer: SenderOffer)
    ensures
        offer@ == offer_for(share_id@, pake_msg_1@, now_ms, expires_at_ms),
{
    let mut input: Vec<u8> = Vec::new();
    input.extend_from_slice(DOMAIN_SENDER_COMMITMENT.as_bytes());
    input.extend_from_slice(&share_id);
    input.extend_from_slice(pake_msg_1.as_slice());
    assert(input@ =~= encode_utf8(DOMAIN_SENDER_COMMITMENT@) + share_id@ + pake_msg_1@);
    SenderOffer {
        version: PHRASE_PROTOCOL_VERSION,
        share_id,
        sender_commitment: hash(input.as_slice()),
        pake_msg_1,
        created_at_ms: now_ms,
        expires_at_ms,
    }
}

/// A sender that offers a share to whoever knows `phrase`. Its first message is
/// drawn anew; all else follows from it.
pub fn new_sender_offer(phrase: &str, share_id: [u8; 32], now_ms: u64, expires_at_ms: u64) -> (sender:
    SenderPakeState)
    ensures
        message_of(PakeSide::A, sender@.offer.pake_msg_1),
        sender@ == sender_for(
            phrase@,
            share_id@,
            now_ms,
            expires_at_ms,
            sender@.offer.pake_msg_1,
        ),
{
    let (state, pake_msg_1) = PakeState::start_a(
        phrase.as_bytes(),
        ID_A.as_bytes(),
        ID_B.as_bytes(),
    );
    SenderPakeState { state, offer: sender_offer_for(share_id, pake_msg_1, now_ms, expires_at_ms) }
}

/// What binds a receiver to its answer `pake_msg_2`.
pub fn new_receiver_commitment(
    share_id: [u8; 32],
    sender_commitment: [u8; 32],
    pake_msg_2: &[u8],
) -> (commitment: [u8; 32])
    ensures
        commitment@ == receiver_commitment_of(share_id@, sender_commitment@, pake_msg_2@),
{
    let mut input: Vec<u8> = Vec::new();
    input.extend_from_slice(DOMAIN_RECEIVER_COMMITMENT.as_bytes());
    input.extend_from_slice(&share_id);
    input.extend_from_slice(&sender_commitment);
    input.extend_from_slice(pake_msg_2);
    assert(input@ =~= encode_utf8(DOMAIN_RECEIVER_COMMITMENT@) + share_id@ + sender_commitment@
        + pake_msg_2@);
    hash(input.as_slice())
}

/// The answer to `offer` by a receiver that has drawn `pake_msg_2`.
pub fn receiver_hello_for(offer: &SenderOffer, pake_msg_2: Vec<u8>) -> (hello: ReceiverHello)
    ensures
        hello@ == hello_for(offer@, pake_msg_2@),
{
    let receiver_commitment: [u8; 32] = new_receiver_commitment(
        offer.share_id,
        offer.sender_commitment,
        pake_msg_2.as_slice(),
    );
    ReceiverHello {
        version: PHRASE_PROTOCOL_VERSION,
        share_id: offer.share_id,
        sender_commitment: offer.sender_commitment,
        receiver_commitment,
        pake_msg_2,
    }
}

/// A receiver that knows `phrase` and answers `offer`. Its message is drawn anew;
/// all else follows from it.
pub fn receiver_start_pake(phrase: &str, offer: &SenderOffer) -> (receiver: ReceiverPakeState)
    ensures
        message_of(PakeSide::B, receiver@.hello.pake_msg_2),
        receiver@ == receiver_for(phrase@, offer@, receiver@.hello.pake_msg_2),
{
    let (state, pake_msg_2) = PakeState::start_b(
        phrase.as_bytes(),
        ID_A.as_bytes(),
        ID_B.as_bytes(),
    );
    ReceiverPakeState { state, hello: receiver_hello_for(offer, pake_msg_2) }
}

/// The key of an exchange, from its secret and all that was said in it.
pub fn derive_session_key(
    pake_secret: &[u8],
    share_id: [u8; 32],
    sender_commitment: [u8; 32],
    receiver_commitment: [u8; 32],
    pake_msg_1: &[u8],
    pake_msg_2: &[u8],
) -> (key: Result<[u8; 32], PhraseError>)
    ensures
        key is Ok,
        key->Ok_0@ == session_key_of(
            pake_secret@,
            share_id@,
            sender_commitment@,
            receiver_commitment@,
            pake_msg_1@,
            pake_msg_2@,
        ),
{
    let mut transcript: Vec<u8> = Vec::new();
    transcript.extend_from_slice(DOMAIN_KDF.as_bytes());
    transcript.extend_from_slice(&share_id);
    transcript.extend_from_slice(&sender_commitment);
    transcript.extend_from_slice(&receiver_commitment);
    transcript.extend_from_slice(pake_msg_2);
    transcript.extend_from_slice(pake_msg_1);
    assert(transcript@ =~= encode_utf8(DOMAIN_KDF@) + share_id@ + sender_commitment@
        + receiver_commitment@ + pake_msg_2@ + pake_msg_1@);
    let transcript_hash: [u8; 32] = hash(transcript.as_slice());
    match extract_and_expand(&transcript_hash, pake_secret, DOMAIN_KDF.as_bytes()) {
        Ok(key) => Ok(key),
        Err(_) => Err(PhraseError::KeyExpand),
    }
}

/// The sender's key, from the receiver's hello. The sender's state is used up.
pub fn sender_finish_pake(state: SenderPakeState, hello: &ReceiverHello) -> (key: Result<
    [u8; 32],
    PhraseError,
>)
    ensures
        match sender_key(state@, hello@) {
            Some(expected) => key is Ok && key->Ok_0@ == expected,
            None => key == Err::<[u8; 32], PhraseError>(PhraseError::SenderFinish),
        },
{
    let mut secret: Vec<u8> = match state.state.finish(hello.pake_msg_2.as_slice()) {
        Ok(secret) => secret,
        Err(_) => return Err(PhraseError::SenderFinish),
    };
    let key = derive_session_key(
        secret.as_slice(),
        state.offer.share_id,
        state.offer.sender_commitment,
        hello.receiver_commitment,
        state.offer.pake_msg_1.as_slice(),
        hello.pake_msg_2.as_slice(),
    );
    wipe(&mut secret);
    key
}

/// The receiver's key, from the sender's offer. The receiver's state is used up.
pub fn receiver_finish_pake(state: ReceiverPakeState, offer: &SenderOffer) -> (key: Result<
    [u8; 32],
    PhraseError,
>)
    ensures
        match receiver_key(state@, offer@) {
            Some(expected) => key is Ok && key->Ok_0@ == expected,
            None => key == Err::<[u8; 32], PhraseError>(PhraseError::ReceiverFinish),
        },
{
    let mut secret: Vec<u8> = match state.state.finish(offer.pake_msg_1.as_slice()) {
        Ok(secret) => secret,
        Err(_) => return Err(PhraseError::ReceiverFinish),
    };
    let key = derive_session_key(
        secret.as_slice(),
        offer.share_id,
        offer.sender_commitment,
        state.hello.receiver_commitment,
        offer.pake_msg_1.as_slice(),
        state.hello.pake_msg_2.as_slice(),
    );
    wipe(&mut secret);
    key
}

/// The associated data of an exchange.
pub fn aad_bytes(
    share_id: [u8; 32],
    sender_commitment: [u8; 32],
    receiver_commitment: [u8; 32],
) -> (aad: Vec<u8>)
    ensures
        aad@ == associated_data(share_id@, sender_commitment@, receiver_commitment@),
{
    let mut aad: Vec<u8> = Vec::with_capacity(1 + 32 * 3);
    aad.extend_from_slice(&share_id);
    aad.extend_from_slice(&sender_commitment);
    aad.extend_from_slice(&receiver_commitment);
    assert(aad@ =~= associated_data(share_id@, sender_commitment@, receiver_commitment@));
    aad
}

/// Seals an envelope under a given nonce.
pub fn encrypt_ticket_envelope_with_nonce(
    session_key: [u8; 32],
    share_id: [u8; 32],
    sender_commitment: [u8; 32],
    receiver_commitment: [u8; 32],
    envelope: &TicketEnvelope,
    nonce: [u8; 24],
) -> (r: Result<Vec<u8>, PhraseError>)
    ensures
        sealable(envelope@) ==> {
            let aad = associated_data(share_id@, sender_commitment@, receiver_commitment@);
            &&& r is Ok
            &&& r->Ok_0@ == sealed_envelope(session_key@, aad, nonce@, envelope@)
            &&& r->Ok_0@.len() == envelope_wire(envelope@).len() + TAG_LEN
            &&& opened_envelope(session_key@, aad, nonce@, r->Ok_0@) == Ok::<
                EnvelopeView,
                PhraseError,
            >(envelope@)
        },
        !sealable(envelope@) ==> r == Err::<Vec<u8>, PhraseError>(PhraseError::Encrypt),
{
    let plaintext: Vec<u8> = match encode_envelope(envelope) {
        Ok(bytes) => bytes,
        Err(error) => return Err(error),
    };
    if plaintext.len() as u64 > MAX_MESSAGE_LEN {
        return Err(PhraseError::Encrypt);
    }
    let aad: Vec<u8> = aad_bytes(share_id, sender_commitment, receiver_commitment);
    proof {
        let ticket = encode_utf8(envelope@.ticket);
        let ticket_hash = encode_utf8(envelope@.ticket_hash);
        assert(plaintext@.len() >= sized(ticket).len() + sized(ticket_hash).len());
        exact_envelope_reads_back(envelope@);
    }
    match seal(&session_key, &nonce, aad.as_slice(), plaintext.as_slice()) {
        Ok(ciphertext) => Ok(ciphertext),
        Err(_) => Err(PhraseError::Encrypt),
    }
}

/// Seals an envelope under a nonce that is drawn anew. Gives the nonce and the
/// sealed text, which opens to the envelope.
pub fn encrypt_ticket_envelope(
    session_key: [u8; 32],
    share_id: [u8; 32],
    sender_commitment: [u8; 32],
    receiver_commitment: [u8; 32],
    envelope: &TicketEnvelope,
) -> (r: Result<([u8; 24], Vec<u8>), PhraseError>)
    ensures
        sealable(envelope@) ==> {
            let aad = associated_data(share_id@, sender_commitment@, receiver_commitment@);
            let nonce = r->Ok_0.0@;
            let ciphertext = r->Ok_0.1@;
            &&& r is Ok
            &&& ciphertext == sealed_envelope(session_key@, aad, nonce, envelope@)
            &&& ciphertext.len() == envelope_wire(envelope@).len() + TAG_LEN
            &&& opened_envelope(session_key@, aad, nonce, ciphertext) == Ok::<
                EnvelopeView,
                PhraseError,
            >(envelope@)
        },
        !sealable(envelope@) ==> r == Err::<([u8; 24], Vec<u8>), PhraseError>(PhraseError::Encrypt),
{
    let nonce: [u8; 24] = random_nonce();
    match encrypt_ticket_envelope_with_nonce(
        session_key,
        share_id,
        sender_commitment,
        receiver_commitment,
        envelope,
        nonce,
    ) {
        Ok(ciphertext) => Ok((nonce, ciphertext)),
        Err(error) => Err(error),
    }
}

/// Opens a sealed envelope. A text that opens is the sealed form of what it opens
/// to, and one that is shorter than a tag does not open.
pub fn decrypt_ticket_envelope(
    session_key: [u8; 32],
    share_id: [u8; 32],
    sender_commitment: [u8; 32],
    receiver_commitment: [u8; 32],
    nonce: [u8; 24],
    ciphertext: &[u8],
) -> (r: Result<TicketEnvelope, PhraseError>)
    ensures
        match opened_envelope(
            session_key@,
            associated_data(share_id@, sender_commitment@, receiver_commitment@),
            nonce@,
            ciphertext@,
        ) {
            Ok(envelope) => r is Ok && r->Ok_0@ == envelope,
            Err(error) => r == Err::<TicketEnvelope, PhraseError>(error),
        },
        r is Ok ==> exists|plaintext: Seq<u8>|
            #![trigger read_envelope(plaintext)]
            read_envelope(plaintext) == Ok::<_, WireError>(r->Ok_0@) && ciphertext@ == xchacha20poly1305_seal(
                session_key@,
                nonce@,
                associated_data(share_id@, sender_commitment@, receiver_commitment@),
                plaintext,
            ) && ciphertext@.len() == plaintext.len() + TAG_LEN,
        ciphertext@.len() < TAG_LEN ==> r == Err::<TicketEnvelope, PhraseError>(
            PhraseError::Decrypt,
        ),
{
    if ciphertext.len() as u64 > MAX_MESSAGE_LEN + TAG_LEN {
        return Err(PhraseError::Decrypt);
    }
    let aad: Vec<u8> = aad_bytes(share_id, sender_commitment, receiver_commitment);
    match open(&session_key, &nonce, aad.as_slice(), ciphertext) {
        Ok(plaintext) => decode_envelope(plaintext.as_slice()),
        Err(_) => Err(PhraseError::Decrypt),
    }
}

/// The tag by which the receiver acknowledges a ticket.
pub fn derive_ack_tag(
    session_key: [u8; 32],
    share_id: [u8; 32],
    sender_commitment: [u8; 32],
    receiver_commitment: [u8; 32],
) -> (tag: Result<[u8; 32], PhraseError>)
    ensures
        tag is Ok,
        tag->Ok_0@ == ack_tag_of(
            session_key@,
            share_id@,
            sender_commitment@,
            receiver_commitment@,
        ),
{
    let ack_key: [u8; 32] = match extract_and_expand(
        &session_key,
        DOMAIN_ACK.as_bytes(),
        DOMAIN_ACK.as_bytes(),
    ) {
        Ok(key) => key,
        Err(_) => return Err(PhraseError::AckExpand),
    };
    let mut input: Vec<u8> = Vec::new();
    input.extend_from_slice(&share_id);
    input.extend_from_slice(&sender_commitment);
    input.extend_from_slice(&receiver_commitment);
    assert(input@ =~= share_id@ + sender_commitment@ + receiver_commitment@);
    Ok(keyed_hash(&ack_key, input.as_slice()))
}

} // verus!
