//! What identifiers, keys, tags and sealed envelopes are made of.

use vstd::prelude::*;
use vstd::utf8::encode_utf8;

use crate::cipher::{xchacha20poly1305_open, xchacha20poly1305_seal};
use crate::crypto::{
    ack_tag_of, associated_data, hello_for, offer_for, opened_envelope,
    receiver_commitment_of, receiver_for, receiver_key, sealable, sealed_envelope,
    sender_commitment_of, sender_for, sender_key, session_key_of, share_id_of, share_input,
    topic_input, topic_name, transcript, ReceiverPakeView, SenderPakeView,
};
use crate::digest::{blake3_hash, blake3_keyed_hash, hkdf_sha256};
use crate::error::PhraseError;
use crate::hex::{hex_text, shown};
use crate::pake::{edwards_point, message_of, pake_secret, spake2_secret, PakeSide, PakeView};
use crate::proto::{hello_matches, EnvelopeView, HelloView, OfferView};
use crate::wire::{envelope_wire, read_envelope};

verus! {

proof fn lemma_same_bytes_same_text(a: Seq<char>, b: Seq<char>)
    requires
        encode_utf8(a) == encode_utf8(b),
    ensures
        a == b,
{
    vstd::utf8::encode_utf8_decode_utf8(a);
    vstd::utf8::encode_utf8_decode_utf8(b);
}

/// Each byte stands as two characters of "0123456789abcdef": the one at the place of
/// its high half, then the one at the place of its low half.
pub proof fn each_byte_is_two_digits(bytes: Seq<u8>, i: int)
    requires
        0 <= i < bytes.len(),
    ensures
        hex_text(bytes).len() == 2 * bytes.len(),
        hex_text(bytes)[2 * i] == "0123456789abcdef"@[bytes[i] as int / 16],
        hex_text(bytes)[2 * i + 1] == "0123456789abcdef"@[bytes[i] as int % 16],
{
    reveal_strlit("0123456789abcdef");
    assert((2 * i) / 2 == i && (2 * i) % 2 == 0);
    assert((2 * i + 1) / 2 == i && (2 * i + 1) % 2 == 1);
}

/// As many bytes are shown as are asked for and there are.
pub proof fn no_more_is_shown_than_asked_for(len: nat, take: nat)
    ensures
        shown(len, take) <= len,
        shown(len, take) <= take,
        shown(len, take) == len || shown(len, take) == take,
{
}

/// The whole phrase enters the topic. What is hashed is the domain followed by every
/// byte of the phrase, so different phrases hash different texts; and the topic is
/// named by the hash of just that, in hexadecimal.
pub proof fn the_whole_phrase_enters_the_topic(phrase: Seq<char>, other: Seq<char>)
    ensures
        ({
            let domain = encode_utf8("sendme/phrase/topic/v1"@);
            &&& topic_input(phrase).len() == domain.len() + encode_utf8(phrase).len()
            &&& domain.is_prefix_of(topic_input(phrase))
            &&& topic_input(phrase).skip(domain.len() as int) == encode_utf8(phrase)
        }),
        topic_name(phrase) == hex_text(blake3_hash(topic_input(phrase))),
        phrase != other ==> topic_input(phrase) != topic_input(other),
{
    let domain = encode_utf8("sendme/phrase/topic/v1"@);
    let n = domain.len() as int;
    assert(topic_input(phrase).subrange(0, n) =~= domain);
    assert(topic_input(phrase).skip(n) =~= encode_utf8(phrase));
    assert(topic_input(other).skip(n) =~= encode_utf8(other));
    if topic_input(phrase) == topic_input(other) {
        lemma_same_bytes_same_text(phrase, other);
    }
}

/// The whole ticket enters the share identifier. What is hashed is the domain followed
/// by every byte of the ticket, so different tickets hash different texts.
pub proof fn the_whole_ticket_enters_the_share(ticket: Seq<char>, other: Seq<char>)
    ensures
        ({
            let domain = encode_utf8("sendme/phrase/share-id/v1"@);
            &&& share_input(ticket).len() == domain.len() + encode_utf8(ticket).len()
            &&& domain.is_prefix_of(share_input(ticket))
            &&& share_input(ticket).skip(domain.len() as int) == encode_utf8(ticket)
        }),
        share_id_of(ticket) == blake3_hash(share_input(ticket)),
        ticket != other ==> share_input(ticket) != share_input(other),
{
    let domain = encode_utf8("sendme/phrase/share-id/v1"@);
    let n = domain.len() as int;
    assert(share_input(ticket).subrange(0, n) =~= domain);
    assert(share_input(ticket).skip(n) =~= encode_utf8(ticket));
    assert(share_input(other).skip(n) =~= encode_utf8(other));
    if share_input(ticket) == share_input(other) {
        lemma_same_bytes_same_text(ticket, other);
    }
}

/// A sender's commitment is the hash of the one text that is the domain, the share
/// and the whole first message, in this order.
pub proof fn a_sender_is_bound_to_its_message(
    share_id: Seq<u8>,
    pake_msg_1: Seq<u8>,
    text: Seq<u8>,
)
    requires
        ({
            let n = encode_utf8("sendme/phrase/sender-commit/v1"@).len() as int;
            let k = n + share_id.len();
            &&& text.len() == k + pake_msg_1.len()
            &&& text.subrange(0, n) == encode_utf8("sendme/phrase/sender-commit/v1"@)
            &&& text.subrange(n, k) == share_id
            &&& text.skip(k) == pake_msg_1
        }),
    ensures
        sender_commitment_of(share_id, pake_msg_1) == blake3_hash(text),
{
    let n = encode_utf8("sendme/phrase/sender-commit/v1"@).len() as int;
    let k = n + share_id.len();
    assert(text =~= text.subrange(0, n) + text.subrange(n, k) + text.skip(k));
}

/// A receiver's commitment is the hash of the one text that is the domain, the share,
/// the sender's commitment and the whole answer, in this order.
pub proof fn a_receiver_is_bound_to_its_answer(
    share_id: Seq<u8>,
    sender_commitment: Seq<u8>,
    pake_msg_2: Seq<u8>,
    text: Seq<u8>,
)
    requires
        ({
            let n = encode_utf8("sendme/phrase/receiver-commit/v1"@).len() as int;
            let k = n + share_id.len();
            let l = k + sender_commitment.len();
            &&& text.len() == l + pake_msg_2.len()
            &&& text.subrange(0, n) == encode_utf8("sendme/phrase/receiver-commit/v1"@)
            &&& text.subrange(n, k) == share_id
            &&& text.subrange(k, l) == sender_commitment
            &&& text.skip(l) == pake_msg_2
        }),
    ensures
        receiver_commitment_of(share_id, sender_commitment, pake_msg_2) == blake3_hash(text),
{
    let n = encode_utf8("sendme/phrase/receiver-commit/v1"@).len() as int;
    let k = n + share_id.len();
    let l = k + sender_commitment.len();
    assert(text =~= text.subrange(0, n) + text.subrange(n, k) + text.subrange(k, l) + text.skip(
        l,
    ));
}

/// The fields of an offer and of the answer to it are what they were made from.
pub proof fn offers_and_answers_show_what_they_were_made_from(
    share_id: Seq<u8>,
    pake_msg_1: Seq<u8>,
    created_at_ms: u64,
    expires_at_ms: u64,
    pake_msg_2: Seq<u8>,
)
    ensures
        ({
            let offer = offer_for(share_id, pake_msg_1, created_at_ms, expires_at_ms);
            let hello = hello_for(offer, pake_msg_2);
            &&& offer.version == 1
            &&& offer.share_id == share_id
            &&& offer.sender_commitment == sender_commitment_of(share_id, pake_msg_1)
            &&& offer.pake_msg_1 == pake_msg_1
            &&& offer.created_at_ms == created_at_ms
            &&& offer.expires_at_ms == expires_at_ms
            &&& hello.version == 1
            &&& hello.share_id == share_id
            &&& hello.sender_commitment == sender_commitment_of(share_id, pake_msg_1)
            &&& hello.receiver_commitment == receiver_commitment_of(
                share_id,
                sender_commitment_of(share_id, pake_msg_1),
                pake_msg_2,
            )
            &&& hello.pake_msg_2 == pake_msg_2
        }),
{
}

/// The answer to whatever offer came in repeats its share and its commitment and is
/// bound to both.
pub proof fn an_answer_repeats_the_offer(offer: OfferView, pake_msg_2: Seq<u8>)
    ensures
        hello_for(offer, pake_msg_2).version == 1,
        hello_for(offer, pake_msg_2).share_id == offer.share_id,
        hello_for(offer, pake_msg_2).sender_commitment == offer.sender_commitment,
        hello_for(offer, pake_msg_2).receiver_commitment == receiver_commitment_of(
            offer.share_id,
            offer.sender_commitment,
            pake_msg_2,
        ),
        hello_for(offer, pake_msg_2).pake_msg_2 == pake_msg_2,
{
}

/// A hello is taken for an answer to an offer exactly where it is of version 1 and
/// repeats the share and the commitment of the offer. Nothing else of the two counts.
pub proof fn what_makes_a_hello_an_answer(offer: OfferView, hello: HelloView)
    ensures
        hello_matches(offer, hello) ==> hello.version == 1,
        hello_matches(offer, hello) ==> hello.share_id == offer.share_id,
        hello_matches(offer, hello) ==> hello.sender_commitment == offer.sender_commitment,
        hello.version == 1 && hello.share_id == offer.share_id && hello.sender_commitment
            == offer.sender_commitment ==> hello_matches(offer, hello),
{
}

/// A sender and a receiver bring the whole phrase into the key exchange, under the two
/// identities, the sender as side A and the receiver as side B, and what each sends
/// there is what its message carries.
pub proof fn the_whole_phrase_enters_the_exchange(
    phrase: Seq<char>,
    share_id: Seq<u8>,
    created_at_ms: u64,
    expires_at_ms: u64,
    pake_msg_1: Seq<u8>,
    offer: OfferView,
    pake_msg_2: Seq<u8>,
)
    ensures
        ({
            let sender = sender_for(phrase, share_id, created_at_ms, expires_at_ms, pake_msg_1);
            &&& sender.party.side == PakeSide::A
            &&& sender.party.password == encode_utf8(phrase)
            &&& sender.party.id_a == encode_utf8("sendme-phrase-sender"@)
            &&& sender.party.id_b == encode_utf8("sendme-phrase-receiver"@)
            &&& sender.party.outbound == pake_msg_1
            &&& sender.offer == offer_for(share_id, pake_msg_1, created_at_ms, expires_at_ms)
        }),
        ({
            let receiver = receiver_for(phrase, offer, pake_msg_2);
            &&& receiver.party.side == PakeSide::B
            &&& receiver.party.password == encode_utf8(phrase)
            &&& receiver.party.id_a == encode_utf8("sendme-phrase-sender"@)
            &&& receiver.party.id_b == encode_utf8("sendme-phrase-receiver"@)
            &&& receiver.party.outbound == pake_msg_2
            &&& receiver.hello == hello_for(offer, pake_msg_2)
        }),
{
}

/// A message is one that a side can have sent exactly where it has 33 bytes, begins
/// with the letter of the side, and goes on with a point of the curve.
pub proof fn what_a_side_can_have_sent(message: Seq<u8>)
    ensures
        message_of(PakeSide::A, message) <==> (message.len() == 33 && message[0] == 65
            && edwards_point(message.skip(1))),
        message_of(PakeSide::B, message) <==> (message.len() == 33 && message[0] == 66
            && edwards_point(message.skip(1))),
{
}

/// A party takes exactly the messages that the other side can have sent. The secret is
/// then that of the password, the identities, A's message and B's message, whichever of
/// the two the party sent itself.
pub proof fn what_a_party_gets_out_of_a_message(party: PakeView, inbound: Seq<u8>)
    ensures
        party.side == PakeSide::A ==> {
            &&& pake_secret(party, inbound) is Some <==> message_of(PakeSide::B, inbound)
            &&& message_of(PakeSide::B, inbound) ==> pake_secret(party, inbound)->Some_0
                == spake2_secret(
                party.password,
                party.id_a,
                party.id_b,
                party.outbound,
                inbound,
            )
        },
        party.side == PakeSide::B ==> {
            &&& pake_secret(party, inbound) is Some <==> message_of(PakeSide::A, inbound)
            &&& message_of(PakeSide::A, inbound) ==> pake_secret(party, inbound)->Some_0
                == spake2_secret(
                party.password,
                party.id_a,
                party.id_b,
                inbound,
                party.outbound,
            )
        },
{
}

/// A session key is expanded from the secret under the hash of the one text that is
/// the domain, the share, the sender's commitment, the receiver's commitment, the whole
/// second message and the whole first message, in this order.
pub proof fn a_session_key_covers_the_exchange(
    secret: Seq<u8>,
    share_id: Seq<u8>,
    sender_commitment: Seq<u8>,
    receiver_commitment: Seq<u8>,
    pake_msg_1: Seq<u8>,
    pake_msg_2: Seq<u8>,
    text: Seq<u8>,
)
    requires
        ({
            let n = encode_utf8("sendme/phrase/session-key/v1"@).len() as int;
            let k = n + share_id.len();
            let l = k + sender_commitment.len();
            let m = l + receiver_commitment.len();
            let o = m + pake_msg_2.len();
            &&& text.len() == o + pake_msg_1.len()
            &&& text.subrange(0, n) == encode_utf8("sendme/phrase/session-key/v1"@)
            &&& text.subrange(n, k) == share_id
            &&& text.subrange(k, l) == sender_commitment
            &&& text.subrange(l, m) == receiver_commitment
            &&& text.subrange(m, o) == pake_msg_2
            &&& text.skip(o) == pake_msg_1
        }),
    ensures
        session_key_of(
            secret,
            share_id,
            sender_commitment,
            receiver_commitment,
            pake_msg_1,
            pake_msg_2,
        ) == hkdf_sha256(
            blake3_hash(text),
            secret,
            encode_utf8("sendme/phrase/session-key/v1"@),
        ),
        transcript(share_id, sender_commitment, receiver_commitment, pake_msg_1, pake_msg_2)
            == text,
{
    let n = encode_utf8("sendme/phrase/session-key/v1"@).len() as int;
    let k = n + share_id.len();
    let l = k + sender_commitment.len();
    let m = l + receiver_commitment.len();
    let o = m + pake_msg_2.len();
    assert(text =~= text.subrange(0, n) + text.subrange(n, k) + text.subrange(k, l)
        + text.subrange(l, m) + text.subrange(m, o) + text.skip(o));
}

/// Where identifiers have 32 bytes and exchange messages 33, two exchanges with one
/// transcript are the same in every part.
pub proof fn a_transcript_tells_the_exchange(
    share_a: Seq<u8>,
    sender_a: Seq<u8>,
    receiver_a: Seq<u8>,
    first_a: Seq<u8>,
    second_a: Seq<u8>,
    share_b: Seq<u8>,
    sender_b: Seq<u8>,
    receiver_b: Seq<u8>,
    first_b: Seq<u8>,
    second_b: Seq<u8>,
)
    requires
        share_a.len() == 32,
        share_b.len() == 32,
        sender_a.len() == 32,
        sender_b.len() == 32,
        receiver_a.len() == 32,
        receiver_b.len() == 32,
        second_a.len() == 33,
        second_b.len() == 33,
        transcript(share_a, sender_a, receiver_a, first_a, second_a) == transcript(
            share_b,
            sender_b,
            receiver_b,
            first_b,
            second_b,
        ),
    ensures
        share_a == share_b,
        sender_a == sender_b,
        receiver_a == receiver_b,
        first_a == first_b,
        second_a == second_b,
{
    let n = encode_utf8("sendme/phrase/session-key/v1"@).len() as int;
    let a = transcript(share_a, sender_a, receiver_a, first_a, second_a);
    let b = transcript(share_b, sender_b, receiver_b, first_b, second_b);
    assert(share_a =~= a.subrange(n, n + 32));
    assert(share_b =~= b.subrange(n, n + 32));
    assert(sender_a =~= a.subrange(n + 32, n + 64));
    assert(sender_b =~= b.subrange(n + 32, n + 64));
    assert(receiver_a =~= a.subrange(n + 64, n + 96));
    assert(receiver_b =~= b.subrange(n + 64, n + 96));
    assert(second_a =~= a.subrange(n + 96, n + 129));
    assert(second_b =~= b.subrange(n + 96, n + 129));
    assert(first_a =~= a.skip(n + 129));
    assert(first_b =~= b.skip(n + 129));
}

/// A sender gets a key exactly where the hello carries a message that a receiver can
/// have sent: the key of the secret, of its own offer's share, commitment and message,
/// and of the hello's commitment and message.
pub proof fn what_a_sender_gets_out_of_a_hello(sender: SenderPakeView, hello: HelloView)
    requires
        sender.party.side == PakeSide::A,
    ensures
        sender_key(sender, hello) is Some <==> message_of(PakeSide::B, hello.pake_msg_2),
        message_of(PakeSide::B, hello.pake_msg_2) ==> sender_key(sender, hello)->Some_0
            == session_key_of(
            spake2_secret(
                sender.party.password,
                sender.party.id_a,
                sender.party.id_b,
                sender.party.outbound,
                hello.pake_msg_2,
            ),
            sender.offer.share_id,
            sender.offer.sender_commitment,
            hello.receiver_commitment,
            sender.offer.pake_msg_1,
            hello.pake_msg_2,
        ),
{
}

/// A receiver gets a key exactly where the offer carries a message that a sender can
/// have sent: the key of the secret, of the offer's share, commitment and message, and
/// of its own commitment and message.
pub proof fn what_a_receiver_gets_out_of_an_offer(receiver: ReceiverPakeView, offer: OfferView)
    requires
        receiver.party.side == PakeSide::B,
    ensures
        receiver_key(receiver, offer) is Some <==> message_of(PakeSide::A, offer.pake_msg_1),
        message_of(PakeSide::A, offer.pake_msg_1) ==> receiver_key(receiver, offer)->Some_0
            == session_key_of(
            spake2_secret(
                receiver.party.password,
                receiver.party.id_a,
                receiver.party.id_b,
                offer.pake_msg_1,
                receiver.party.outbound,
            ),
            offer.share_id,
            offer.sender_commitment,
            receiver.hello.receiver_commitment,
            offer.pake_msg_1,
            receiver.hello.pake_msg_2,
        ),
{
}

/// The associated data of an exchange are its three identifiers, each whole and at its
/// place.
pub proof fn associated_data_hold_the_identifiers(
    share_id: Seq<u8>,
    sender_commitment: Seq<u8>,
    receiver_commitment: Seq<u8>,
)
    ensures
        ({
            let aad = associated_data(share_id, sender_commitment, receiver_commitment);
            let k = share_id.len() as int;
            let l = k + sender_commitment.len();
            &&& aad.len() == l + receiver_commitment.len()
            &&& aad.subrange(0, k) == share_id
            &&& aad.subrange(k, l) == sender_commitment
            &&& aad.skip(l) == receiver_commitment
        }),
{
    let aad = associated_data(share_id, sender_commitment, receiver_commitment);
    let k = share_id.len() as int;
    let l = k + sender_commitment.len();
    assert(aad.subrange(0, k) =~= share_id);
    assert(aad.subrange(k, l) =~= sender_commitment);
    assert(aad.skip(l) =~= receiver_commitment);
}

/// The tag of an exchange is the hash, under a key expanded from the session key for
/// this purpose alone, of the one text that is the three identifiers in their order.
pub proof fn a_tag_covers_the_exchange(
    session_key: Seq<u8>,
    share_id: Seq<u8>,
    sender_commitment: Seq<u8>,
    receiver_commitment: Seq<u8>,
    text: Seq<u8>,
)
    requires
        ({
            let k = share_id.len() as int;
            let l = k + sender_commitment.len();
            &&& text.len() == l + receiver_commitment.len()
            &&& text.subrange(0, k) == share_id
            &&& text.subrange(k, l) == sender_commitment
            &&& text.skip(l) == receiver_commitment
        }),
    ensures
        ({
            let domain = encode_utf8("sendme/phrase/ack/v1"@);
            ack_tag_of(session_key, share_id, sender_commitment, receiver_commitment)
                == blake3_keyed_hash(hkdf_sha256(session_key, domain, domain), text)
        }),
{
    let k = share_id.len() as int;
    let l = k + sender_commitment.len();
    assert(text =~= text.subrange(0, k) + text.subrange(k, l) + text.skip(l));
}

/// An envelope can be sealed exactly where its bytes are no more than the cipher takes,
/// and what is sealed, under the given key and nonce and beside the given data, is all
/// of its bytes.
pub proof fn an_envelope_is_sealed_whole(
    session_key: Seq<u8>,
    aad: Seq<u8>,
    nonce: Seq<u8>,
    envelope: EnvelopeView,
)
    ensures
        sealable(envelope) <==> envelope_wire(envelope).len() <= 274_877_906_816,
        sealed_envelope(session_key, aad, nonce, envelope) == xchacha20poly1305_seal(
            session_key,
            nonce,
            aad,
            envelope_wire(envelope),
        ),
{
}

/// A sealed text opens to an envelope exactly where it is authentic and holds the
/// envelope; else the error says whether it was not authentic or what was wrong with
/// what it held. A text beyond what the cipher takes is not authentic.
pub proof fn what_a_sealed_text_opens_to(
    session_key: Seq<u8>,
    aad: Seq<u8>,
    nonce: Seq<u8>,
    ciphertext: Seq<u8>,
    plaintext: Seq<u8>,
)
    ensures
        ciphertext.len() > 274_877_906_832 || xchacha20poly1305_open(
            session_key,
            nonce,
            aad,
            ciphertext,
        ) is None ==> opened_envelope(session_key, aad, nonce, ciphertext) == Err::<
            EnvelopeView,
            PhraseError,
        >(PhraseError::Decrypt),
        ciphertext.len() <= 274_877_906_832 && xchacha20poly1305_open(
            session_key,
            nonce,
            aad,
            ciphertext,
        ) == Some(plaintext) ==> match read_envelope(plaintext) {
            Ok(envelope) => opened_envelope(session_key, aad, nonce, ciphertext) == Ok::<
                EnvelopeView,
                PhraseError,
            >(envelope),
            Err(error) => opened_envelope(session_key, aad, nonce, ciphertext) == Err::<
                EnvelopeView,
                PhraseError,
            >(PhraseError::Decode(error)),
        },
{
}

} // verus!
