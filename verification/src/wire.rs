//! The wire format: what the bytes of a message say.
//!
//! A record is its fields, one after the other. A byte and a field of fixed
//! length stand as they are; a number stands in groups of seven bits, the low
//! group first; a byte string or a text stands behind its length. A message
//! stands behind the number of its variant. Bytes behind a record are ignored.

use vstd::prelude::*;
use vstd::utf8::{decode_utf8, encode_utf8, valid_utf8};

use crate::error::WireError;
use crate::proto::{AckView, EnvelopeView, HelloView, MessageView, OfferView, TicketView};

verus! {

/// A number in groups of seven bits, the low group first. The top bit of a byte
/// says that another group follows.
pub open spec fn varint(n: nat) -> Seq<u8>
    decreases n,
{
    if n < 128 {
        seq![n as u8]
    } else {
        seq![(n % 128 + 128) as u8] + varint(n / 128)
    }
}

/// A byte string behind its length.
pub open spec fn sized(bytes: Seq<u8>) -> Seq<u8> {
    varint(bytes.len()) + bytes
}

/// Reads a number of at most `groups` groups off the front of `bytes`; the last
/// of so many groups holds at most `last`. Gives the number and what follows it, or
/// what is wrong with the bytes.
pub open spec fn read_groups(bytes: Seq<u8>, groups: nat, last: u8) -> Result<(nat, Seq<u8>), WireError>
    decreases groups,
{
    if groups == 0 {
        Err(WireError::BadVarint)
    } else if bytes.len() == 0 {
        Err(WireError::UnexpectedEnd)
    } else if bytes[0] < 128 {
        if groups == 1 && bytes[0] > last {
            Err(WireError::BadVarint)
        } else {
            Ok((bytes[0] as nat, bytes.skip(1)))
        }
    } else {
        match read_groups(bytes.skip(1), (groups - 1) as nat, last) {
            Ok((high, rest)) => Ok(((bytes[0] - 128 + 128 * high) as nat, rest)),
            Err(error) => Err(error),
        }
    }
}

/// Reads a number of 32 bits.
pub open spec fn read_u32(bytes: Seq<u8>) -> Result<(nat, Seq<u8>), WireError> {
    read_groups(bytes, 5, 15)
}

/// Reads a number of 64 bits.
pub open spec fn read_u64(bytes: Seq<u8>) -> Result<(nat, Seq<u8>), WireError> {
    read_groups(bytes, 10, 1)
}

/// Reads a length, which is as wide as the machine's addresses.
pub open spec fn read_len(bytes: Seq<u8>) -> Result<(nat, Seq<u8>), WireError> {
    if usize::BITS == 64 {
        read_u64(bytes)
    } else {
        read_u32(bytes)
    }
}

/// Reads `len` bytes.
pub open spec fn read_fixed(bytes: Seq<u8>, len: nat) -> Result<(Seq<u8>, Seq<u8>), WireError> {
    if bytes.len() < len {
        Err(WireError::UnexpectedEnd)
    } else {
        Ok((bytes.take(len as int), bytes.skip(len as int)))
    }
}

/// Reads one byte.
pub open spec fn read_u8(bytes: Seq<u8>) -> Result<(u8, Seq<u8>), WireError> {
    if bytes.len() == 0 {
        Err(WireError::UnexpectedEnd)
    } else {
        Ok((bytes[0], bytes.skip(1)))
    }
}

/// Reads a byte string behind its length.
pub open spec fn read_sized(bytes: Seq<u8>) -> Result<(Seq<u8>, Seq<u8>), WireError> {
    match read_len(bytes) {
        Ok((len, rest)) => read_fixed(rest, len),
        Err(error) => Err(error),
    }
}

/// Reads a text behind its length in bytes.
pub open spec fn read_text(bytes: Seq<u8>) -> Result<(Seq<char>, Seq<u8>), WireError> {
    match read_sized(bytes) {
        Ok((text, rest)) => if valid_utf8(text) {
            Ok((decode_utf8(text), rest))
        } else {
            Err(WireError::BadUtf8)
        },
        Err(error) => Err(error),
    }
}

/// The fields of an offer.
pub open spec fn offer_wire(offer: OfferView) -> Seq<u8> {
    seq![offer.version] + (offer.share_id + (offer.sender_commitment + (sized(offer.pake_msg_1) + (
    varint(offer.created_at_ms as nat) + varint(offer.expires_at_ms as nat)))))
}

/// The fields of a hello.
pub open spec fn hello_wire(hello: HelloView) -> Seq<u8> {
    seq![hello.version] + (hello.share_id + (hello.sender_commitment + (hello.receiver_commitment
        + sized(hello.pake_msg_2))))
}

/// The fields of a ticket.
pub open spec fn ticket_wire(ticket: TicketView) -> Seq<u8> {
    seq![ticket.version] + (ticket.share_id + (ticket.sender_commitment + (
    ticket.receiver_commitment + (ticket.nonce + sized(ticket.ciphertext)))))
}

/// The fields of an acknowledgement.
pub open spec fn ack_wire(ack: AckView) -> Seq<u8> {
    seq![ack.version] + (ack.share_id + (ack.sender_commitment + (ack.receiver_commitment
        + ack.ack_tag)))
}

/// The fields of a ticket envelope.
pub open spec fn envelope_wire(envelope: EnvelopeView) -> Seq<u8> {
    sized(encode_utf8(envelope.ticket)) + (sized(encode_utf8(envelope.ticket_hash)) + varint(
        envelope.issued_at_ms as nat,
    ))
}

/// A message: the number of its variant, then its fields.
pub open spec fn message_wire(message: MessageView) -> Seq<u8> {
    match message {
        MessageView::SenderOffer(offer) => varint(0) + offer_wire(offer),
        MessageView::ReceiverHello(hello) => varint(1) + hello_wire(hello),
        MessageView::SenderTicket(ticket) => varint(2) + ticket_wire(ticket),
        MessageView::ReceiverAck(ack) => varint(3) + ack_wire(ack),
    }
}

/// The start that offer, hello, ticket and acknowledgement share: the version,
/// the share and the sender's commitment.
pub open spec fn read_head(bytes: Seq<u8>) -> Result<((u8, Seq<u8>, Seq<u8>), Seq<u8>), WireError> {
    match read_u8(bytes) {
        Ok((version, b1)) => match read_fixed(b1, 32) {
            Ok((share_id, b2)) => match read_fixed(b2, 32) {
                Ok((sender_commitment, b3)) => Ok(((version, share_id, sender_commitment), b3)),
                Err(error) => Err(error),
            },
            Err(error) => Err(error),
        },
        Err(error) => Err(error),
    }
}

/// The offer that `bytes` begin with.
pub open spec fn read_offer(bytes: Seq<u8>) -> Result<OfferView, WireError> {
    match read_head(bytes) {
        Ok(((version, share_id, sender_commitment), b1)) => match read_sized(b1) {
            Ok((pake_msg_1, b2)) => match read_u64(b2) {
                Ok((created_at_ms, b3)) => match read_u64(b3) {
                    Ok((expires_at_ms, b4)) => Ok(
                        OfferView {
                            version,
                            share_id,
                            sender_commitment,
                            pake_msg_1,
                            created_at_ms: created_at_ms as u64,
                            expires_at_ms: expires_at_ms as u64,
                        },
                    ),
                    Err(error) => Err(error),
                },
                Err(error) => Err(error),
            },
            Err(error) => Err(error),
        },
        Err(error) => Err(error),
    }
}

/// The hello that `bytes` begin with.
pub open spec fn read_hello(bytes: Seq<u8>) -> Result<HelloView, WireError> {
    match read_head(bytes) {
        Ok(((version, share_id, sender_commitment), b1)) => match read_fixed(b1, 32) {
            Ok((receiver_commitment, b2)) => match read_sized(b2) {
                Ok((pake_msg_2, b3)) => Ok(
                    HelloView {
                        version,
                        share_id,
                        sender_commitment,
                        receiver_commitment,
                        pake_msg_2,
                    },
                ),
                Err(error) => Err(error),
            },
            Err(error) => Err(error),
        },
        Err(error) => Err(error),
    }
}

/// The ticket that `bytes` begin with.
pub open spec fn read_ticket(bytes: Seq<u8>) -> Result<TicketView, WireError> {
    match read_head(bytes) {
        Ok(((version, share_id, sender_commitment), b1)) => match read_fixed(b1, 32) {
            Ok((receiver_commitment, b2)) => match read_fixed(b2, 24) {
                Ok((nonce, b3)) => match read_sized(b3) {
                    Ok((ciphertext, b4)) => Ok(
                        TicketView {
                            version,
                            share_id,
                            sender_commitment,
                            receiver_commitment,
                            nonce,
                            ciphertext,
                        },
                    ),
                    Err(error) => Err(error),
                },
                Err(error) => Err(error),
            },
            Err(error) => Err(error),
        },
        Err(error) => Err(error),
    }
}

/// The acknowledgement that `bytes` begin with.
pub open spec fn read_ack(bytes: Seq<u8>) -> Result<AckView, WireError> {
    match read_head(bytes) {
        Ok(((version, share_id, sender_commitment), b1)) => match read_fixed(b1, 32) {
            Ok((receiver_commitment, b2)) => match read_fixed(b2, 32) {
                Ok((ack_tag, b3)) => Ok(
                    AckView { version, share_id, sender_commitment, receiver_commitment, ack_tag },
                ),
                Err(error) => Err(error),
            },
            Err(error) => Err(error),
        },
        Err(error) => Err(error),
    }
}

/// The message that `bytes` begin with, or what is wrong with them where they begin
/// with none.
pub open spec fn read_message(bytes: Seq<u8>) -> Result<MessageView, WireError> {
    match read_u32(bytes) {
        Ok((variant, rest)) => if variant == 0 {
            match read_offer(rest) {
                Ok(offer) => Ok(MessageView::SenderOffer(offer)),
                Err(error) => Err(error),
            }
        } else if variant == 1 {
            match read_hello(rest) {
                Ok(hello) => Ok(MessageView::ReceiverHello(hello)),
                Err(error) => Err(error),
            }
        } else if variant == 2 {
            match read_ticket(rest) {
                Ok(ticket) => Ok(MessageView::SenderTicket(ticket)),
                Err(error) => Err(error),
            }
        } else if variant == 3 {
            match read_ack(rest) {
                Ok(ack) => Ok(MessageView::ReceiverAck(ack)),
                Err(error) => Err(error),
            }
        } else {
            Err(WireError::UnknownVariant)
        },
        Err(error) => Err(error),
    }
}

/// The ticket envelope that `bytes` begin with, or what is wrong with them where
/// they begin with none.
pub open spec fn read_envelope(bytes: Seq<u8>) -> Result<EnvelopeView, WireError> {
    match read_text(bytes) {
        Ok((ticket, b1)) => match read_text(b1) {
            Ok((ticket_hash, b2)) => match read_u64(b2) {
                Ok((issued_at_ms, b3)) => Ok(
                    EnvelopeView { ticket, ticket_hash, issued_at_ms: issued_at_ms as u64 },
                ),
                Err(error) => Err(error),
            },
            Err(error) => Err(error),
        },
        Err(error) => Err(error),
    }
}

/// Whether the parts of a message whose length varies fit the machine's memory,
/// as those of every value that a program holds do.
pub open spec fn fits(message: MessageView) -> bool {
    match message {
        MessageView::SenderOffer(offer) => offer.pake_msg_1.len() <= usize::MAX,
        MessageView::ReceiverHello(hello) => hello.pake_msg_2.len() <= usize::MAX,
        MessageView::SenderTicket(ticket) => ticket.ciphertext.len() <= usize::MAX,
        MessageView::ReceiverAck(ack) => true,
    }
}

/// Whether the texts of an envelope fit the machine's memory.
pub open spec fn envelope_fits(envelope: EnvelopeView) -> bool {
    &&& encode_utf8(envelope.ticket).len() <= usize::MAX
    &&& encode_utf8(envelope.ticket_hash).len() <= usize::MAX
}

/// How many numbers `groups` groups hold where the last holds at most `last`.
spec fn group_span(groups: nat, last: u8) -> nat
    decreases groups,
{
    if groups == 0 {
        0
    } else if groups == 1 {
        last as nat + 1
    } else {
        128 * group_span((groups - 1) as nat, last)
    }
}

proof fn lemma_group_spans()
    ensures
        group_span(5, 15) == 0x1_0000_0000,
        group_span(10, 1) == 0x1_0000_0000_0000_0000,
{
    reveal_with_fuel(group_span, 11);
}

proof fn lemma_groups_read_back(n: nat, rest: Seq<u8>, groups: nat, last: u8)
    requires
        n < group_span(groups, last),
        last < 128,
    ensures
        read_groups(varint(n) + rest, groups, last) == Ok::<_, WireError>((n, rest)),
    decreases groups,
{
    let bytes = varint(n) + rest;
    if n < 128 {
        assert(bytes.skip(1) =~= rest);
    } else {
        if groups > 1 {
            lemma_groups_read_back(n / 128, rest, (groups - 1) as nat, last);
        }
        assert(bytes.skip(1) =~= varint(n / 128) + rest);
    }
}

proof fn lemma_groups_bounded(bytes: Seq<u8>, groups: nat, last: u8)
    requires
        last < 128,
    ensures
        read_groups(bytes, groups, last) matches Ok((n, rest)) ==> n < group_span(groups, last),
    decreases groups,
{
    reveal_with_fuel(read_groups, 2);
    if groups > 1 && bytes.len() > 0 {
        lemma_groups_bounded(bytes.skip(1), (groups - 1) as nat, last);
        lemma_span_positive((groups - 1) as nat, last);
    }
}

proof fn lemma_span_positive(groups: nat, last: u8)
    requires
        groups > 0,
    ensures
        group_span(groups, last) > 0,
    decreases groups,
{
    if groups > 1 {
        lemma_span_positive((groups - 1) as nat, last);
    }
}

/// Every number that is read fits the width it is read at.
pub proof fn numbers_fit(bytes: Seq<u8>)
    ensures
        read_u32(bytes) matches Ok((n, rest)) ==> n <= u32::MAX,
        read_u64(bytes) matches Ok((n, rest)) ==> n <= u64::MAX,
        read_len(bytes) matches Ok((n, rest)) ==> n <= usize::MAX,
{
    lemma_group_spans();
    lemma_groups_bounded(bytes, 5, 15);
    lemma_groups_bounded(bytes, 10, 1);
}

/// A number that was written is read back, whatever follows it.
pub proof fn numbers_read_back(n: nat, rest: Seq<u8>)
    ensures
        n <= u32::MAX ==> read_u32(varint(n) + rest) == Ok::<_, WireError>((n, rest)),
        n <= u64::MAX ==> read_u64(varint(n) + rest) == Ok::<_, WireError>((n, rest)),
        n <= usize::MAX ==> read_len(varint(n) + rest) == Ok::<_, WireError>((n, rest)),
{
    lemma_group_spans();
    if n <= u32::MAX {
        lemma_groups_read_back(n, rest, 5, 15);
    }
    if n <= u64::MAX {
        lemma_groups_read_back(n, rest, 10, 1);
    }
}

/// A byte string that was written is read back, whatever follows it.
pub proof fn sized_reads_back(bytes: Seq<u8>, rest: Seq<u8>)
    requires
        bytes.len() <= usize::MAX,
    ensures
        read_sized(sized(bytes) + rest) == Ok::<_, WireError>((bytes, rest)),
{
    numbers_read_back(bytes.len(), bytes + rest);
    assert(sized(bytes) + rest =~= varint(bytes.len()) + (bytes + rest));
    assert((bytes + rest).take(bytes.len() as int) =~= bytes);
    assert((bytes + rest).skip(bytes.len() as int) =~= rest);
}

/// A text that was written is read back, whatever follows it.
pub proof fn text_reads_back(text: Seq<char>, rest: Seq<u8>)
    requires
        encode_utf8(text).len() <= usize::MAX,
    ensures
        read_text(sized(encode_utf8(text)) + rest) == Ok::<_, WireError>((text, rest)),
{
    sized_reads_back(encode_utf8(text), rest);
    vstd::utf8::encode_utf8_valid_utf8(text);
    vstd::utf8::encode_utf8_decode_utf8(text);
}

proof fn lemma_regroup(a: Seq<u8>, b: Seq<u8>, c: Seq<u8>)
    ensures
        (a + b) + c == a + (b + c),
{
    assert((a + b) + c =~= a + (b + c));
}

proof fn lemma_fixed_reads_back(bytes: Seq<u8>, rest: Seq<u8>)
    ensures
        read_fixed(bytes + rest, bytes.len()) == Ok::<_, WireError>((bytes, rest)),
{
    assert((bytes + rest).take(bytes.len() as int) =~= bytes);
    assert((bytes + rest).skip(bytes.len() as int) =~= rest);
}

proof fn lemma_head_reads_back(
    version: u8,
    share_id: Seq<u8>,
    sender_commitment: Seq<u8>,
    rest: Seq<u8>,
)
    requires
        share_id.len() == 32,
        sender_commitment.len() == 32,
    ensures
        read_head(seq![version] + (share_id + (sender_commitment + rest))) == Ok::<_, WireError>(
            ((version, share_id, sender_commitment), rest),
        ),
{
    let b1 = share_id + (sender_commitment + rest);
    assert((seq![version] + b1).skip(1) =~= b1);
    lemma_fixed_reads_back(share_id, sender_commitment + rest);
    lemma_fixed_reads_back(sender_commitment, rest);
}

proof fn lemma_offer_reads_back(offer: OfferView, rest: Seq<u8>)
    requires
        offer.wf(),
        offer.pake_msg_1.len() <= usize::MAX,
    ensures
        read_offer(offer_wire(offer) + rest) == Ok::<_, WireError>(offer),
{
    let b4 = varint(offer.expires_at_ms as nat) + rest;
    let b3 = varint(offer.created_at_ms as nat) + b4;
    let b2 = sized(offer.pake_msg_1) + b3;
    lemma_head_reads_back(offer.version, offer.share_id, offer.sender_commitment, b2);
    sized_reads_back(offer.pake_msg_1, b3);
    numbers_read_back(offer.created_at_ms as nat, b4);
    numbers_read_back(offer.expires_at_ms as nat, rest);
    let times = varint(offer.created_at_ms as nat) + varint(offer.expires_at_ms as nat);
    let w3 = sized(offer.pake_msg_1) + times;
    let w2 = offer.sender_commitment + w3;
    let w1 = offer.share_id + w2;
    lemma_regroup(seq![offer.version], w1, rest);
    lemma_regroup(offer.share_id, w2, rest);
    lemma_regroup(offer.sender_commitment, w3, rest);
    lemma_regroup(sized(offer.pake_msg_1), times, rest);
    lemma_regroup(varint(offer.created_at_ms as nat), varint(offer.expires_at_ms as nat), rest);
}

proof fn lemma_hello_reads_back(hello: HelloView, rest: Seq<u8>)
    requires
        hello.wf(),
        hello.pake_msg_2.len() <= usize::MAX,
    ensures
        read_hello(hello_wire(hello) + rest) == Ok::<_, WireError>(hello),
{
    let b2 = sized(hello.pake_msg_2) + rest;
    let b1 = hello.receiver_commitment + b2;
    lemma_head_reads_back(hello.version, hello.share_id, hello.sender_commitment, b1);
    lemma_fixed_reads_back(hello.receiver_commitment, b2);
    sized_reads_back(hello.pake_msg_2, rest);
    let w3 = hello.receiver_commitment + sized(hello.pake_msg_2);
    let w2 = hello.sender_commitment + w3;
    let w1 = hello.share_id + w2;
    lemma_regroup(seq![hello.version], w1, rest);
    lemma_regroup(hello.share_id, w2, rest);
    lemma_regroup(hello.sender_commitment, w3, rest);
    lemma_regroup(hello.receiver_commitment, sized(hello.pake_msg_2), rest);
}

proof fn lemma_ticket_reads_back(ticket: TicketView, rest: Seq<u8>)
    requires
        ticket.wf(),
        ticket.ciphertext.len() <= usize::MAX,
    ensures
        read_ticket(ticket_wire(ticket) + rest) == Ok::<_, WireError>(ticket),
{
    let b3 = sized(ticket.ciphertext) + rest;
    let b2 = ticket.nonce + b3;
    let b1 = ticket.receiver_commitment + b2;
    lemma_head_reads_back(ticket.version, ticket.share_id, ticket.sender_commitment, b1);
    lemma_fixed_reads_back(ticket.receiver_commitment, b2);
    lemma_fixed_reads_back(ticket.nonce, b3);
    sized_reads_back(ticket.ciphertext, rest);
    let w4 = ticket.nonce + sized(ticket.ciphertext);
    let w3 = ticket.receiver_commitment + w4;
    let w2 = ticket.sender_commitment + w3;
    let w1 = ticket.share_id + w2;
    lemma_regroup(seq![ticket.version], w1, rest);
    lemma_regroup(ticket.share_id, w2, rest);
    lemma_regroup(ticket.sender_commitment, w3, rest);
    lemma_regroup(ticket.receiver_commitment, w4, rest);
    lemma_regroup(ticket.nonce, sized(ticket.ciphertext), rest);
}

proof fn lemma_ack_reads_back(ack: AckView, rest: Seq<u8>)
    requires
        ack.wf(),
    ensures
        read_ack(ack_wire(ack) + rest) == Ok::<_, WireError>(ack),
{
    let b2 = ack.ack_tag + rest;
    let b1 = ack.receiver_commitment + b2;
    lemma_head_reads_back(ack.version, ack.share_id, ack.sender_commitment, b1);
    lemma_fixed_reads_back(ack.receiver_commitment, b2);
    lemma_fixed_reads_back(ack.ack_tag, rest);
    let w3 = ack.receiver_commitment + ack.ack_tag;
    let w2 = ack.sender_commitment + w3;
    let w1 = ack.share_id + w2;
    lemma_regroup(seq![ack.version], w1, rest);
    lemma_regroup(ack.share_id, w2, rest);
    lemma_regroup(ack.sender_commitment, w3, rest);
    lemma_regroup(ack.receiver_commitment, ack.ack_tag, rest);
}

/// A message that was written is read back, whatever follows it.
pub proof fn message_reads_back(message: MessageView, rest: Seq<u8>)
    requires
        message.wf(),
        fits(message),
    ensures
        read_message(message_wire(message) + rest) == Ok::<_, WireError>(message),
{
    match message {
        MessageView::SenderOffer(offer) => {
            numbers_read_back(0, offer_wire(offer) + rest);
            lemma_offer_reads_back(offer, rest);
            lemma_regroup(varint(0), offer_wire(offer), rest);
        },
        MessageView::ReceiverHello(hello) => {
            numbers_read_back(1, hello_wire(hello) + rest);
            lemma_hello_reads_back(hello, rest);
            lemma_regroup(varint(1), hello_wire(hello), rest);
        },
        MessageView::SenderTicket(ticket) => {
            numbers_read_back(2, ticket_wire(ticket) + rest);
            lemma_ticket_reads_back(ticket, rest);
            lemma_regroup(varint(2), ticket_wire(ticket), rest);
        },
        MessageView::ReceiverAck(ack) => {
            numbers_read_back(3, ack_wire(ack) + rest);
            lemma_ack_reads_back(ack, rest);
            lemma_regroup(varint(3), ack_wire(ack), rest);
        },
    }
}

/// The bytes of a message without anything behind them are read back too.
pub proof fn exact_message_reads_back(message: MessageView)
    requires
        message.wf(),
        fits(message),
    ensures
        read_message(message_wire(message)) == Ok::<_, WireError>(message),
{
    message_reads_back(message, Seq::<u8>::empty());
    assert(message_wire(message) + Seq::<u8>::empty() =~= message_wire(message));
}

/// Two different messages never have the same bytes, and the bytes of one never
/// begin those of another.
pub proof fn messages_differ_on_the_wire(a: MessageView, b: MessageView)
    requires
        a.wf(),
        b.wf(),
        fits(a),
        fits(b),
        a != b,
    ensures
        message_wire(a) != message_wire(b),
        !message_wire(a).is_prefix_of(message_wire(b)),
{
    exact_message_reads_back(a);
    exact_message_reads_back(b);
    let (wire_a, wire_b) = (message_wire(a), message_wire(b));
    if wire_a.is_prefix_of(wire_b) {
        let rest = wire_b.skip(wire_a.len() as int);
        message_reads_back(a, rest);
        assert(wire_a + rest =~= wire_b);
    }
}

/// What is read from the wire is a message whose fixed fields have their length.
pub proof fn read_messages_are_well_formed(bytes: Seq<u8>)
    ensures
        read_message(bytes) matches Ok(message) ==> message.wf(),
{
}

/// An envelope that was written is read back, whatever follows it.
pub proof fn envelope_reads_back(envelope: EnvelopeView, rest: Seq<u8>)
    requires
        envelope_fits(envelope),
    ensures
        read_envelope(envelope_wire(envelope) + rest) == Ok::<_, WireError>(envelope),
{
    let b2 = varint(envelope.issued_at_ms as nat) + rest;
    let b1 = sized(encode_utf8(envelope.ticket_hash)) + b2;
    text_reads_back(envelope.ticket, b1);
    text_reads_back(envelope.ticket_hash, b2);
    numbers_read_back(envelope.issued_at_ms as nat, rest);
    let hash = sized(encode_utf8(envelope.ticket_hash));
    let issued = varint(envelope.issued_at_ms as nat);
    lemma_regroup(sized(encode_utf8(envelope.ticket)), hash + issued, rest);
    lemma_regroup(hash, issued, rest);
}

/// The bytes of an envelope without anything behind them are read back too.
pub proof fn exact_envelope_reads_back(envelope: EnvelopeView)
    requires
        envelope_fits(envelope),
    ensures
        read_envelope(envelope_wire(envelope)) == Ok::<_, WireError>(envelope),
{
    envelope_reads_back(envelope, Seq::<u8>::empty());
    assert(envelope_wire(envelope) + Seq::<u8>::empty() =~= envelope_wire(envelope));
}

} // verus!
