//! Messages and envelopes to bytes and back.
//!
//! Numbers, byte strings and texts go through `postcard`; the order of the
//! fields is laid out here.

use vstd::prelude::*;
use vstd::slice::slice_subrange;
use vstd::utf8::encode_utf8;

use crate::error::{PhraseError, WireError};
use crate::proto::{
    PhraseMessage, ReceiverAck, ReceiverHello, SenderOffer, SenderTicket, TicketEnvelope,
};
use crate::wire::{
    ack_wire, envelope_wire, hello_wire, message_wire, offer_wire, read_ack, read_envelope,
    read_fixed, read_head, read_hello, read_message, read_offer, read_sized, read_text, read_ticket,
    read_u32, read_u64, read_u8, sized, ticket_wire, varint,
};

verus! {

/// What `postcard` reports where it cannot write or read a value.
#[verifier::external_type_specification]
#[verifier::external_body]
pub struct ExPostcardError(postcard::Error);

/// `postcard::to_stdvec` on a number of 64 bits writes it as a `varint`, and
/// writing to a growing vector does not fail.
#[verifier::external_body]
fn put_varint(n: u64) -> (r: Result<Vec<u8>, postcard::Error>)
    ensures
        r is Ok,
        r->Ok_0@ == varint(n as nat),
{
    postcard::to_stdvec(&n)
}

/// `postcard::to_stdvec` on a byte string writes it behind its length, and
/// writing to a growing vector does not fail.
#[verifier::external_body]
fn put_bytes(value: &[u8]) -> (r: Result<Vec<u8>, postcard::Error>)
    ensures
        r is Ok,
        r->Ok_0@ == sized(value@),
{
    postcard::to_stdvec(serde_bytes::Bytes::new(value))
}

/// `postcard::to_stdvec` on a text writes its UTF-8 bytes behind their length,
/// and writing to a growing vector does not fail.
#[verifier::external_body]
fn put_text(value: &str) -> (r: Result<Vec<u8>, postcard::Error>)
    ensures
        r is Ok,
        r->Ok_0@ == sized(encode_utf8(value@)),
{
    postcard::to_stdvec(value)
}

/// `postcard::take_from_bytes` for a number of 32 bits: the number and what follows
/// it, or which of `postcard`'s errors came.
#[verifier::external_body]
fn take_u32(bytes: &[u8]) -> (r: Result<(u32, &[u8]), WireError>)
    ensures
        match r {
            Ok((n, rest)) => read_u32(bytes@) == Ok::<_, WireError>((n as nat, rest@)),
            Err(error) => read_u32(bytes@) matches Err(e) && e == error,
        },
{
    match postcard::take_from_bytes::<u32>(bytes) {
        Ok(pair) => Ok(pair),
        Err(postcard::Error::DeserializeUnexpectedEnd) => Err(WireError::UnexpectedEnd),
        Err(postcard::Error::DeserializeBadVarint) => Err(WireError::BadVarint),
        Err(postcard::Error::DeserializeBadUtf8) => Err(WireError::BadUtf8),
        Err(_) => Err(WireError::UnknownVariant),
    }
}

/// `postcard::take_from_bytes` for a number of 64 bits: the number and what follows
/// it, or which of `postcard`'s errors came.
#[verifier::external_body]
fn take_u64(bytes: &[u8]) -> (r: Result<(u64, &[u8]), WireError>)
    ensures
        match r {
            Ok((n, rest)) => read_u64(bytes@) == Ok::<_, WireError>((n as nat, rest@)),
            Err(error) => read_u64(bytes@) matches Err(e) && e == error,
        },
{
    match postcard::take_from_bytes::<u64>(bytes) {
        Ok(pair) => Ok(pair),
        Err(postcard::Error::DeserializeUnexpectedEnd) => Err(WireError::UnexpectedEnd),
        Err(postcard::Error::DeserializeBadVarint) => Err(WireError::BadVarint),
        Err(postcard::Error::DeserializeBadUtf8) => Err(WireError::BadUtf8),
        Err(_) => Err(WireError::UnknownVariant),
    }
}

/// `postcard::take_from_bytes` for a byte string: the string and what follows it, or
/// which of `postcard`'s errors came.
#[verifier::external_body]
fn take_bytes(bytes: &[u8]) -> (r: Result<(Vec<u8>, &[u8]), WireError>)
    ensures
        match r {
            Ok((value, rest)) => read_sized(bytes@) == Ok::<_, WireError>((value@, rest@)),
            Err(error) => read_sized(bytes@) matches Err(e) && e == error,
        },
{
    match postcard::take_from_bytes::<serde_bytes::ByteBuf>(bytes) {
        Ok((value, rest)) => Ok((value.into_vec(), rest)),
        Err(postcard::Error::DeserializeUnexpectedEnd) => Err(WireError::UnexpectedEnd),
        Err(postcard::Error::DeserializeBadVarint) => Err(WireError::BadVarint),
        Err(postcard::Error::DeserializeBadUtf8) => Err(WireError::BadUtf8),
        Err(_) => Err(WireError::UnknownVariant),
    }
}

/// `postcard::take_from_bytes` for a text, which has to be valid UTF-8: the text and
/// what follows it, or which of `postcard`'s errors came.
#[verifier::external_body]
fn take_text(bytes: &[u8]) -> (r: Result<(String, &[u8]), WireError>)
    ensures
        match r {
            Ok((value, rest)) => read_text(bytes@) == Ok::<_, WireError>((value@, rest@)),
            Err(error) => read_text(bytes@) matches Err(e) && e == error,
        },
{
    match postcard::take_from_bytes::<String>(bytes) {
        Ok(pair) => Ok(pair),
        Err(postcard::Error::DeserializeUnexpectedEnd) => Err(WireError::UnexpectedEnd),
        Err(postcard::Error::DeserializeBadVarint) => Err(WireError::BadVarint),
        Err(postcard::Error::DeserializeBadUtf8) => Err(WireError::BadUtf8),
        Err(_) => Err(WireError::UnknownVariant),
    }
}

/// Reads a field of fixed length.
fn take_fixed<const N: usize>(bytes: &[u8]) -> (r: Result<([u8; N], &[u8]), WireError>)
    ensures
        match r {
            Ok((value, rest)) => read_fixed(bytes@, N as nat) == Ok::<_, WireError>((value@, rest@)),
            Err(error) => read_fixed(bytes@, N as nat) matches Err(e) && e == error,
        },
{
    if bytes.len() < N {
        return Err(WireError::UnexpectedEnd);
    }
    let mut value: [u8; N] = [0u8; N];
    let mut i: usize = 0;
    while i < N
        invariant
            i <= N <= bytes.len(),
            forall|j: int| 0 <= j < i ==> value@[j] == bytes@[j],
        decreases N - i,
    {
        value[i] = bytes[i];
        i += 1;
    }
    let rest = slice_subrange(bytes, N, bytes.len());
    assert(value@ =~= bytes@.take(N as int));
    assert(rest@ =~= bytes@.skip(N as int));
    Ok((value, rest))
}

/// Reads one byte.
fn take_u8(bytes: &[u8]) -> (r: Result<(u8, &[u8]), WireError>)
    ensures
        match r {
            Ok((value, rest)) => read_u8(bytes@) == Ok::<_, WireError>((value, rest@)),
            Err(error) => read_u8(bytes@) matches Err(e) && e == error,
        },
{
    if bytes.len() == 0 {
        return Err(WireError::UnexpectedEnd);
    }
    let rest = slice_subrange(bytes, 1, bytes.len());
    assert(rest@ =~= bytes@.skip(1));
    Ok((bytes[0], rest))
}

/// Reads the start that all messages share.
fn take_head(bytes: &[u8]) -> (r: Result<((u8, [u8; 32], [u8; 32]), &[u8]), WireError>)
    ensures
        match r {
            Ok(((version, share_id, sender_commitment), rest)) => read_head(bytes@) == Ok::<_, WireError>(
                ((version, share_id@, sender_commitment@), rest@),
            ),
            Err(error) => read_head(bytes@) matches Err(e) && e == error,
        },
{
    let (version, b1) = take_u8(bytes)?;
    let (share_id, b2) = take_fixed::<32>(b1)?;
    let (sender_commitment, b3) = take_fixed::<32>(b2)?;
    Ok(((version, share_id, sender_commitment), b3))
}

fn decode_offer(bytes: &[u8]) -> (r: Result<SenderOffer, WireError>)
    ensures
        match r {
            Ok(offer) => read_offer(bytes@) == Ok::<_, WireError>(offer@),
            Err(error) => read_offer(bytes@) matches Err(e) && e == error,
        },
{
    let ((version, share_id, sender_commitment), b1) = take_head(bytes)?;
    let (pake_msg_1, b2) = take_bytes(b1)?;
    let (created_at_ms, b3) = take_u64(b2)?;
    let (expires_at_ms, b4) = take_u64(b3)?;
    Ok(
        SenderOffer {
            version,
            share_id,
            sender_commitment,
            pake_msg_1,
            created_at_ms,
            expires_at_ms,
        },
    )
}

fn decode_hello(bytes: &[u8]) -> (r: Result<ReceiverHello, WireError>)
    ensures
        match r {
            Ok(hello) => read_hello(bytes@) == Ok::<_, WireError>(hello@),
            Err(error) => read_hello(bytes@) matches Err(e) && e == error,
        },
{
    let ((version, share_id, sender_commitment), b1) = take_head(bytes)?;
    let (receiver_commitment, b2) = take_fixed::<32>(b1)?;
    let (pake_msg_2, b3) = take_bytes(b2)?;
    Ok(ReceiverHello { version, share_id, sender_commitment, receiver_commitment, pake_msg_2 })
}

fn decode_ticket(bytes: &[u8]) -> (r: Result<SenderTicket, WireError>)
    ensures
        match r {
            Ok(ticket) => read_ticket(bytes@) == Ok::<_, WireError>(ticket@),
            Err(error) => read_ticket(bytes@) matches Err(e) && e == error,
        },
{
    let ((version, share_id, sender_commitment), b1) = take_head(bytes)?;
    let (receiver_commitment, b2) = take_fixed::<32>(b1)?;
    let (nonce, b3) = take_fixed::<24>(b2)?;
    let (ciphertext, b4) = take_bytes(b3)?;
    Ok(
        SenderTicket {
            version,
            share_id,
            sender_commitment,
            receiver_commitment,
            nonce,
            ciphertext,
        },
    )
}

fn decode_ack(bytes: &[u8]) -> (r: Result<ReceiverAck, WireError>)
    ensures
        match r {
            Ok(ack) => read_ack(bytes@) == Ok::<_, WireError>(ack@),
            Err(error) => read_ack(bytes@) matches Err(e) && e == error,
        },
{
    let ((version, share_id, sender_commitment), b1) = take_head(bytes)?;
    let (receiver_commitment, b2) = take_fixed::<32>(b1)?;
    let (ack_tag, b3) = take_fixed::<32>(b2)?;
    Ok(ReceiverAck { version, share_id, sender_commitment, receiver_commitment, ack_tag })
}

/// The message that `bytes` begin with, or `PhraseError::Decode` with what is wrong
/// where they begin with none.
pub fn decode_message(bytes: &[u8]) -> (r: Result<PhraseMessage, PhraseError>)
    ensures
        match read_message(bytes@) {
            Ok(message) => r is Ok && r->Ok_0@ == message,
            Err(error) => r == Err::<PhraseMessage, PhraseError>(PhraseError::Decode(error)),
        },
{
    match take_message(bytes) {
        Ok(message) => Ok(message),
        Err(error) => Err(PhraseError::Decode(error)),
    }
}

fn take_message(bytes: &[u8]) -> (r: Result<PhraseMessage, WireError>)
    ensures
        match r {
            Ok(message) => read_message(bytes@) == Ok::<_, WireError>(message@),
            Err(error) => read_message(bytes@) matches Err(e) && e == error,
        },
{
    let (variant, rest) = take_u32(bytes)?;
    if variant == 0 {
        Ok(PhraseMessage::SenderOffer(decode_offer(rest)?))
    } else if variant == 1 {
        Ok(PhraseMessage::ReceiverHello(decode_hello(rest)?))
    } else if variant == 2 {
        Ok(PhraseMessage::SenderTicket(decode_ticket(rest)?))
    } else if variant == 3 {
        Ok(PhraseMessage::ReceiverAck(decode_ack(rest)?))
    } else {
        Err(WireError::UnknownVariant)
    }
}

fn take_envelope(bytes: &[u8]) -> (r: Result<TicketEnvelope, WireError>)
    ensures
        match r {
            Ok(envelope) => read_envelope(bytes@) == Ok::<_, WireError>(envelope@),
            Err(error) => read_envelope(bytes@) matches Err(e) && e == error,
        },
{
    let (ticket, b1) = take_text(bytes)?;
    let (ticket_hash, b2) = take_text(b1)?;
    let (issued_at_ms, b3) = take_u64(b2)?;
    Ok(TicketEnvelope { ticket, ticket_hash, issued_at_ms })
}

/// The envelope that `bytes` begin with, or `PhraseError::Decode` with what is wrong
/// where they begin with none.
pub fn decode_envelope(bytes: &[u8]) -> (r: Result<TicketEnvelope, PhraseError>)
    ensures
        match read_envelope(bytes@) {
            Ok(envelope) => r is Ok && r->Ok_0@ == envelope,
            Err(error) => r == Err::<TicketEnvelope, PhraseError>(PhraseError::Decode(error)),
        },
{
    match take_envelope(bytes) {
        Ok(envelope) => Ok(envelope),
        Err(error) => Err(PhraseError::Decode(error)),
    }
}

/// Appends what `postcard` wrote.
fn append(out: &mut Vec<u8>, part: Result<Vec<u8>, postcard::Error>) -> (r: Result<(), PhraseError>)
    ensures
        match part {
            Ok(bytes) => r is Ok && final(out)@ == old(out)@ + bytes@,
            Err(_) => r == Err::<(), PhraseError>(PhraseError::Encode),
        },
{
    match part {
        Ok(mut bytes) => {
            out.append(&mut bytes);
            Ok(())
        },
        Err(_) => Err(PhraseError::Encode),
    }
}

/// Writes the number of a variant and the start that all messages share.
fn put_head(
    variant: u64,
    version: u8,
    share_id: &[u8; 32],
    sender_commitment: &[u8; 32],
) -> (r: Result<Vec<u8>, PhraseError>)
    ensures
        r is Ok,
        r->Ok_0@ == varint(variant as nat) + seq![version] + share_id@ + sender_commitment@,
{
    let mut out: Vec<u8> = Vec::new();
    append(&mut out, put_varint(variant))?;
    assert(out@ =~= varint(variant as nat));
    out.push(version);
    assert(out@ =~= varint(variant as nat) + seq![version]);
    out.extend_from_slice(share_id);
    out.extend_from_slice(sender_commitment);
    assert(out@ =~= varint(variant as nat) + seq![version] + share_id@ + sender_commitment@);
    Ok(out)
}

fn encode_offer(offer: &SenderOffer) -> (r: Result<Vec<u8>, PhraseError>)
    ensures
        r is Ok,
        r->Ok_0@ == varint(0) + offer_wire(offer@),
{
    let mut out = put_head(0, offer.version, &offer.share_id, &offer.sender_commitment)?;
    append(&mut out, put_bytes(offer.pake_msg_1.as_slice()))?;
    append(&mut out, put_varint(offer.created_at_ms))?;
    append(&mut out, put_varint(offer.expires_at_ms))?;
    assert(out@ =~= varint(0) + offer_wire(offer@));
    Ok(out)
}

fn encode_hello(hello: &ReceiverHello) -> (r: Result<Vec<u8>, PhraseError>)
    ensures
        r is Ok,
        r->Ok_0@ == varint(1) + hello_wire(hello@),
{
    let mut out = put_head(1, hello.version, &hello.share_id, &hello.sender_commitment)?;
    out.extend_from_slice(&hello.receiver_commitment);
    append(&mut out, put_bytes(hello.pake_msg_2.as_slice()))?;
    assert(out@ =~= varint(1) + hello_wire(hello@));
    Ok(out)
}

fn encode_ticket(ticket: &SenderTicket) -> (r: Result<Vec<u8>, PhraseError>)
    ensures
        r is Ok,
        r->Ok_0@ == varint(2) + ticket_wire(ticket@),
{
    let mut out = put_head(2, ticket.version, &ticket.share_id, &ticket.sender_commitment)?;
    out.extend_from_slice(&ticket.receiver_commitment);
    out.extend_from_slice(&ticket.nonce);
    append(&mut out, put_bytes(ticket.ciphertext.as_slice()))?;
    assert(out@ =~= varint(2) + ticket_wire(ticket@));
    Ok(out)
}

fn encode_ack(ack: &ReceiverAck) -> (r: Result<Vec<u8>, PhraseError>)
    ensures
        r is Ok,
        r->Ok_0@ == varint(3) + ack_wire(ack@),
{
    let mut out = put_head(3, ack.version, &ack.share_id, &ack.sender_commitment)?;
    out.extend_from_slice(&ack.receiver_commitment);
    out.extend_from_slice(&ack.ack_tag);
    assert(out@ =~= varint(3) + ack_wire(ack@));
    Ok(out)
}

/// The bytes of a message. Every message has them.
pub fn encode_message(message: &PhraseMessage) -> (r: Result<Vec<u8>, PhraseError>)
    ensures
        r is Ok,
        r->Ok_0@ == message_wire(message@),
{
    match message {
        PhraseMessage::SenderOffer(offer) => encode_offer(offer),
        PhraseMessage::ReceiverHello(hello) => encode_hello(hello),
        PhraseMessage::SenderTicket(ticket) => encode_ticket(ticket),
        PhraseMessage::ReceiverAck(ack) => encode_ack(ack),
    }
}

/// The bytes of an envelope. Every envelope has them.
pub fn encode_envelope(envelope: &TicketEnvelope) -> (r: Result<Vec<u8>, PhraseError>)
    ensures
        r is Ok,
        r->Ok_0@ == envelope_wire(envelope@),
{
    let mut out: Vec<u8> = Vec::new();
    append(&mut out, put_text(envelope.ticket.as_str()))?;
    append(&mut out, put_text(envelope.ticket_hash.as_str()))?;
    append(&mut out, put_varint(envelope.issued_at_ms))?;
    assert(out@ =~= envelope_wire(envelope@));
    Ok(out)
}

} // verus!
