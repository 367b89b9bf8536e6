//! Where the fields of a message stand in its bytes, for writing and for reading.

use vstd::prelude::*;
use vstd::utf8::{decode_utf8, encode_utf8, valid_utf8};

use crate::error::WireError;
use crate::proto::{AckView, EnvelopeView, HelloView, MessageView, OfferView, TicketView};
use crate::wire::{
    envelope_wire, message_wire, numbers_fit, read_envelope, read_groups, read_len, read_message,
    read_sized, read_text, read_u32, read_u64, sized, varint,
};

verus! {

/// The number that groups of seven bits stand for, the low group first.
pub open spec fn groups_value(groups: Seq<u8>) -> nat
    decreases groups.len(),
{
    if groups.len() == 0 {
        0
    } else {
        (groups[0] as nat) % 128 + 128 * groups_value(groups.skip(1))
    }
}

/// Whether bytes are the groups of one number: all but the last have the top bit set.
pub open spec fn one_number(groups: Seq<u8>) -> bool {
    &&& groups.len() > 0
    &&& groups.last() < 128
    &&& forall|i: int| 0 <= i < groups.len() - 1 ==> groups[i] >= 128
}

/// A number is written as groups that stand for it, with no group of nothing at the end.
pub proof fn a_number_is_written_in_groups(n: nat)
    ensures
        one_number(varint(n)),
        groups_value(varint(n)) == n,
        varint(n).len() > 1 ==> varint(n).last() > 0,
    decreases n,
{
    reveal_with_fuel(groups_value, 2);
    if n >= 128 {
        a_number_is_written_in_groups(n / 128);
        let tail = varint(n / 128);
        assert(varint(n).skip(1) =~= tail);
        assert(varint(n).last() == tail.last());
        assert forall|i: int| 0 <= i < varint(n).len() - 1 implies varint(n)[i] >= 128 by {
            if i > 0 {
                assert(varint(n)[i] == tail[i - 1]);
            }
        }
    } else {
        assert(varint(n).skip(1) =~= Seq::<u8>::empty());
    }
}

proof fn lemma_groups_are_read(groups: Seq<u8>, rest: Seq<u8>, most: nat, last: u8)
    requires
        one_number(groups),
    ensures
        read_groups(groups + rest, most, last) == if groups.len() < most || (groups.len() == most
            && groups.last() <= last) {
            Ok::<(nat, Seq<u8>), WireError>((groups_value(groups), rest))
        } else {
            Err(WireError::BadVarint)
        },
    decreases groups.len(),
{
    let bytes = groups + rest;
    reveal_with_fuel(groups_value, 2);
    if most > 0 {
        if groups.len() == 1 {
            assert(groups.skip(1) =~= Seq::<u8>::empty());
            assert(bytes.skip(1) =~= rest);
            assert(groups[0] == groups.last());
        } else {
            let tail = groups.skip(1);
            assert(bytes.skip(1) =~= tail + rest);
            assert(tail.last() == groups.last());
            assert forall|i: int| 0 <= i < tail.len() - 1 implies tail[i] >= 128 by {
                assert(tail[i] == groups[i + 1]);
            }
            lemma_groups_are_read(tail, rest, (most - 1) as nat, last);
        }
    }
}

proof fn lemma_open_groups_are_refused(bytes: Seq<u8>, most: nat, last: u8)
    requires
        forall|i: int| 0 <= i < bytes.len() ==> bytes[i] >= 128,
    ensures
        read_groups(bytes, most, last) == if bytes.len() < most {
            Err::<(nat, Seq<u8>), WireError>(WireError::UnexpectedEnd)
        } else {
            Err(WireError::BadVarint)
        },
    decreases bytes.len(),
{
    if most > 0 && bytes.len() > 0 {
        lemma_open_groups_are_refused(bytes.skip(1), (most - 1) as nat, last);
    }
}

/// Whatever follows them, the groups of a number are read as the number that they stand
/// for, superfluous groups or not, as long as they are no more than its width has room
/// for: 5 groups with at most 4 bits in the last for 32 bits, 10 groups with at most 1 bit
/// in the last for 64 bits.
pub proof fn a_number_is_read_from_its_groups(groups: Seq<u8>, rest: Seq<u8>)
    requires
        one_number(groups),
    ensures
        read_u32(groups + rest) == if groups.len() < 5 || (groups.len() == 5 && groups.last()
            <= 15) {
            Ok::<(nat, Seq<u8>), WireError>((groups_value(groups), rest))
        } else {
            Err(WireError::BadVarint)
        },
        read_u64(groups + rest) == if groups.len() < 10 || (groups.len() == 10 && groups.last()
            <= 1) {
            Ok::<(nat, Seq<u8>), WireError>((groups_value(groups), rest))
        } else {
            Err(WireError::BadVarint)
        },
        read_len(groups + rest) == if usize::BITS == 64 {
            read_u64(groups + rest)
        } else {
            read_u32(groups + rest)
        },
{
    lemma_groups_are_read(groups, rest, 5, 15);
    lemma_groups_are_read(groups, rest, 10, 1);
}

/// Bytes in which no group is the last are no number: they end too early, or they have too
/// many groups already.
pub proof fn a_number_without_end_is_refused(bytes: Seq<u8>)
    requires
        forall|i: int| 0 <= i < bytes.len() ==> bytes[i] >= 128,
    ensures
        read_u32(bytes) == if bytes.len() < 5 {
            Err::<(nat, Seq<u8>), WireError>(WireError::UnexpectedEnd)
        } else {
            Err(WireError::BadVarint)
        },
        read_u64(bytes) == if bytes.len() < 10 {
            Err::<(nat, Seq<u8>), WireError>(WireError::UnexpectedEnd)
        } else {
            Err(WireError::BadVarint)
        },
{
    lemma_open_groups_are_refused(bytes, 5, 15);
    lemma_open_groups_are_refused(bytes, 10, 1);
}

/// A byte string is written as its length and then itself; and behind a length, as many
/// bytes are read as it says, the rest being left, or none where there are fewer. A text
/// is such a string of valid UTF-8.
pub proof fn a_string_stands_behind_its_length(bytes: Seq<u8>, len: nat, data: Seq<u8>)
    requires
        read_len(bytes) == Ok::<(nat, Seq<u8>), WireError>((len, data)),
    ensures
        sized(data).len() == varint(data.len()).len() + data.len(),
        varint(data.len()).is_prefix_of(sized(data)),
        sized(data).skip(varint(data.len()).len() as int) == data,
        data.len() < len ==> read_sized(bytes) == Err::<(Seq<u8>, Seq<u8>), WireError>(
            WireError::UnexpectedEnd,
        ),
        data.len() < len ==> read_text(bytes) == Err::<(Seq<char>, Seq<u8>), WireError>(
            WireError::UnexpectedEnd,
        ),
        data.len() >= len ==> {
            let head = data.subrange(0, len as int);
            let tail = data.subrange(len as int, data.len() as int);
            &&& read_sized(bytes) == Ok::<(Seq<u8>, Seq<u8>), WireError>((head, tail))
            &&& valid_utf8(head) ==> read_text(bytes) == Ok::<(Seq<char>, Seq<u8>), WireError>(
                (decode_utf8(head), tail),
            )
            &&& !valid_utf8(head) ==> read_text(bytes) == Err::<(Seq<char>, Seq<u8>), WireError>(
                WireError::BadUtf8,
            )
        },
{
    let n = varint(data.len()).len() as int;
    assert(sized(data).subrange(0, n) =~= varint(data.len()));
    assert(sized(data).skip(n) =~= data);
}

/// Where no length can be read, no string can, for the same reason.
pub proof fn without_a_length_there_is_no_string(bytes: Seq<u8>, error: WireError)
    requires
        read_len(bytes) == Err::<(nat, Seq<u8>), WireError>(error),
    ensures
        read_sized(bytes) == Err::<(Seq<u8>, Seq<u8>), WireError>(error),
        read_text(bytes) == Err::<(Seq<char>, Seq<u8>), WireError>(error),
{
}

/// An offer is written as variant 0: the version in one byte, the share and the
/// commitment in 32 bytes each, the exchange message behind its length, and the two
/// times.
pub proof fn offer_bytes_hold_the_offer(offer: OfferView)
    requires
        offer.share_id.len() == 32,
        offer.sender_commitment.len() == 32,
    ensures
        ({
            let bytes = message_wire(MessageView::SenderOffer(offer));
            let times = varint(offer.created_at_ms as nat) + varint(offer.expires_at_ms as nat);
            let len = varint(offer.pake_msg_1.len());
            &&& bytes[0] == 0
            &&& bytes[1] == offer.version
            &&& bytes.subrange(2, 34) == offer.share_id
            &&& bytes.subrange(34, 66) == offer.sender_commitment
            &&& bytes.skip(66) == len + offer.pake_msg_1 + times
        }),
{
    let bytes = message_wire(MessageView::SenderOffer(offer));
    let times = varint(offer.created_at_ms as nat) + varint(offer.expires_at_ms as nat);
    let len = varint(offer.pake_msg_1.len());
    assert(varint(0) =~= seq![0u8]);
    assert(bytes.subrange(2, 34) =~= offer.share_id);
    assert(bytes.subrange(34, 66) =~= offer.sender_commitment);
    assert(bytes.skip(66) =~= len + offer.pake_msg_1 + times);
}

/// A hello is written as variant 1: the version in one byte, the share and the two
/// commitments in 32 bytes each, and the exchange message behind its length.
pub proof fn hello_bytes_hold_the_hello(hello: HelloView)
    requires
        hello.share_id.len() == 32,
        hello.sender_commitment.len() == 32,
        hello.receiver_commitment.len() == 32,
    ensures
        ({
            let bytes = message_wire(MessageView::ReceiverHello(hello));
            &&& bytes[0] == 1
            &&& bytes[1] == hello.version
            &&& bytes.subrange(2, 34) == hello.share_id
            &&& bytes.subrange(34, 66) == hello.sender_commitment
            &&& bytes.subrange(66, 98) == hello.receiver_commitment
            &&& bytes.skip(98) == varint(hello.pake_msg_2.len()) + hello.pake_msg_2
        }),
{
    let bytes = message_wire(MessageView::ReceiverHello(hello));
    assert(varint(1) =~= seq![1u8]);
    assert(bytes.subrange(2, 34) =~= hello.share_id);
    assert(bytes.subrange(34, 66) =~= hello.sender_commitment);
    assert(bytes.subrange(66, 98) =~= hello.receiver_commitment);
    assert(bytes.skip(98) =~= varint(hello.pake_msg_2.len()) + hello.pake_msg_2);
}

/// A ticket is written as variant 2: the version in one byte, the share and the two
/// commitments in 32 bytes each, the nonce in 24 bytes, and the sealed text behind its
/// length.
pub proof fn ticket_bytes_hold_the_ticket(ticket: TicketView)
    requires
        ticket.share_id.len() == 32,
        ticket.sender_commitment.len() == 32,
        ticket.receiver_commitment.len() == 32,
        ticket.nonce.len() == 24,
    ensures
        ({
            let bytes = message_wire(MessageView::SenderTicket(ticket));
            &&& bytes[0] == 2
            &&& bytes[1] == ticket.version
            &&& bytes.subrange(2, 34) == ticket.share_id
            &&& bytes.subrange(34, 66) == ticket.sender_commitment
            &&& bytes.subrange(66, 98) == ticket.receiver_commitment
            &&& bytes.subrange(98, 122) == ticket.nonce
            &&& bytes.skip(122) == varint(ticket.ciphertext.len()) + ticket.ciphertext
        }),
{
    let bytes = message_wire(MessageView::SenderTicket(ticket));
    assert(varint(2) =~= seq![2u8]);
    assert(bytes.subrange(2, 34) =~= ticket.share_id);
    assert(bytes.subrange(34, 66) =~= ticket.sender_commitment);
    assert(bytes.subrange(66, 98) =~= ticket.receiver_commitment);
    assert(bytes.subrange(98, 122) =~= ticket.nonce);
    assert(bytes.skip(122) =~= varint(ticket.ciphertext.len()) + ticket.ciphertext);
}

/// An acknowledgement is written as variant 3: the version in one byte, the share,
/// the two commitments and the tag in 32 bytes each, and nothing more.
pub proof fn ack_bytes_hold_the_ack(ack: AckView)
    requires
        ack.share_id.len() == 32,
        ack.sender_commitment.len() == 32,
        ack.receiver_commitment.len() == 32,
        ack.ack_tag.len() == 32,
    ensures
        ({
            let bytes = message_wire(MessageView::ReceiverAck(ack));
            &&& bytes.len() == 130
            &&& bytes[0] == 3
            &&& bytes[1] == ack.version
            &&& bytes.subrange(2, 34) == ack.share_id
            &&& bytes.subrange(34, 66) == ack.sender_commitment
            &&& bytes.subrange(66, 98) == ack.receiver_commitment
            &&& bytes.subrange(98, 130) == ack.ack_tag
        }),
{
    let bytes = message_wire(MessageView::ReceiverAck(ack));
    assert(varint(3) =~= seq![3u8]);
    assert(bytes.subrange(2, 34) =~= ack.share_id);
    assert(bytes.subrange(34, 66) =~= ack.sender_commitment);
    assert(bytes.subrange(66, 98) =~= ack.receiver_commitment);
    assert(bytes.subrange(98, 130) =~= ack.ack_tag);
}

/// An envelope is written as the ticket and its hash, each as all its UTF-8 bytes
/// behind their number, and then the time.
pub proof fn envelope_bytes_hold_the_envelope(envelope: EnvelopeView)
    ensures
        ({
            let bytes = envelope_wire(envelope);
            let ticket = encode_utf8(envelope.ticket);
            let ticket_hash = encode_utf8(envelope.ticket_hash);
            let t = varint(ticket.len()).len() as int;
            let h = t + ticket.len();
            let u = h + varint(ticket_hash.len()).len();
            let i = u + ticket_hash.len();
            &&& bytes.len() == i + varint(envelope.issued_at_ms as nat).len()
            &&& bytes.subrange(0, t) == varint(ticket.len())
            &&& bytes.subrange(t, h) == ticket
            &&& bytes.subrange(h, u) == varint(ticket_hash.len())
            &&& bytes.subrange(u, i) == ticket_hash
            &&& bytes.skip(i) == varint(envelope.issued_at_ms as nat)
        }),
{
    let bytes = envelope_wire(envelope);
    let ticket = encode_utf8(envelope.ticket);
    let ticket_hash = encode_utf8(envelope.ticket_hash);
    let t = varint(ticket.len()).len() as int;
    let h = t + ticket.len();
    let u = h + varint(ticket_hash.len()).len();
    let i = u + ticket_hash.len();
    assert(bytes.subrange(0, t) =~= varint(ticket.len()));
    assert(bytes.subrange(t, h) =~= ticket);
    assert(bytes.subrange(h, u) =~= varint(ticket_hash.len()));
    assert(bytes.subrange(u, i) =~= ticket_hash);
    assert(bytes.skip(i) =~= varint(envelope.issued_at_ms as nat));
}

/// Bytes that do not begin with a number are no message, for the reason that they are
/// no number; and there are four variants.
pub proof fn a_message_begins_with_its_variant(bytes: Seq<u8>)
    ensures
        match read_u32(bytes) {
            Err(error) => read_message(bytes) == Err::<MessageView, WireError>(error),
            Ok((variant, rest)) => {
                &&& variant > 3 ==> read_message(bytes) == Err::<MessageView, WireError>(
                    WireError::UnknownVariant,
                )
                &&& read_message(bytes) matches Ok(message) ==> match message {
                    MessageView::SenderOffer(_) => variant == 0,
                    MessageView::ReceiverHello(_) => variant == 1,
                    MessageView::SenderTicket(_) => variant == 2,
                    MessageView::ReceiverAck(_) => variant == 3,
                }
            },
        },
{
}

proof fn lemma_head_positions(rest: Seq<u8>)
    ensures
        rest.len() >= 65 ==> {
            &&& rest.skip(1).take(32) == rest.subrange(1, 33)
            &&& rest.skip(1).skip(32).take(32) == rest.subrange(33, 65)
            &&& rest.skip(1).skip(32).skip(32) == rest.skip(65)
        },
        rest.len() >= 97 ==> {
            &&& rest.skip(65).take(32) == rest.subrange(65, 97)
            &&& rest.skip(65).skip(32) == rest.skip(97)
        },
        rest.len() >= 129 ==> rest.skip(97).take(32) == rest.subrange(97, 129),
        rest.len() >= 121 ==> {
            &&& rest.skip(97).take(24) == rest.subrange(97, 121)
            &&& rest.skip(97).skip(24) == rest.skip(121)
        },
{
    if rest.len() >= 65 {
        assert(rest.skip(1).take(32) =~= rest.subrange(1, 33));
        assert(rest.skip(1).skip(32).take(32) =~= rest.subrange(33, 65));
        assert(rest.skip(1).skip(32).skip(32) =~= rest.skip(65));
    }
    if rest.len() >= 97 {
        assert(rest.skip(65).take(32) =~= rest.subrange(65, 97));
        assert(rest.skip(65).skip(32) =~= rest.skip(97));
    }
    if rest.len() >= 129 {
        assert(rest.skip(97).take(32) =~= rest.subrange(97, 129));
    }
    if rest.len() >= 121 {
        assert(rest.skip(97).take(24) =~= rest.subrange(97, 121));
        assert(rest.skip(97).skip(24) =~= rest.skip(121));
    }
}

/// Whatever bytes follow variant 0, an offer is read off their places, and the first
/// field that is amiss says what is wrong.
pub proof fn an_offer_is_read_off_its_places(bytes: Seq<u8>, rest: Seq<u8>)
    requires
        read_u32(bytes) == Ok::<(nat, Seq<u8>), WireError>((0, rest)),
    ensures
        if rest.len() < 65 {
            read_message(bytes) == Err::<MessageView, WireError>(WireError::UnexpectedEnd)
        } else {
            match read_sized(rest.skip(65)) {
                Err(error) => read_message(bytes) == Err::<MessageView, WireError>(error),
                Ok((pake_msg_1, b2)) => match read_u64(b2) {
                    Err(error) => read_message(bytes) == Err::<MessageView, WireError>(error),
                    Ok((created, b3)) => match read_u64(b3) {
                        Err(error) => read_message(bytes) == Err::<MessageView, WireError>(error),
                        Ok((expires, b4)) => {
                            &&& read_message(bytes) is Ok
                            &&& read_message(bytes)->Ok_0 is SenderOffer
                            &&& {
                                let offer = read_message(bytes)->Ok_0->SenderOffer_0;
                                &&& offer.version == rest[0]
                                &&& offer.share_id == rest.subrange(1, 33)
                                &&& offer.sender_commitment == rest.subrange(33, 65)
                                &&& offer.pake_msg_1 == pake_msg_1
                                &&& offer.created_at_ms == created
                                &&& offer.expires_at_ms == expires
                            }
                        },
                    },
                },
            }
        },
{
    lemma_head_positions(rest);
    if rest.len() >= 65 {
        if let Ok((pake_msg_1, b2)) = read_sized(rest.skip(65)) {
            numbers_fit(b2);
            if let Ok((created, b3)) = read_u64(b2) {
                numbers_fit(b3);
            }
        }
    }
}

/// Whatever bytes follow variant 1, a hello is read off their places.
pub proof fn a_hello_is_read_off_its_places(bytes: Seq<u8>, rest: Seq<u8>)
    requires
        read_u32(bytes) == Ok::<(nat, Seq<u8>), WireError>((1, rest)),
    ensures
        if rest.len() < 97 {
            read_message(bytes) == Err::<MessageView, WireError>(WireError::UnexpectedEnd)
        } else {
            match read_sized(rest.skip(97)) {
                Err(error) => read_message(bytes) == Err::<MessageView, WireError>(error),
                Ok((pake_msg_2, b2)) => {
                    &&& read_message(bytes) is Ok
                    &&& read_message(bytes)->Ok_0 is ReceiverHello
                    &&& {
                        let hello = read_message(bytes)->Ok_0->ReceiverHello_0;
                        &&& hello.version == rest[0]
                        &&& hello.share_id == rest.subrange(1, 33)
                        &&& hello.sender_commitment == rest.subrange(33, 65)
                        &&& hello.receiver_commitment == rest.subrange(65, 97)
                        &&& hello.pake_msg_2 == pake_msg_2
                    }
                },
            }
        },
{
    lemma_head_positions(rest);
}

/// Whatever bytes follow variant 2, a ticket is read off their places.
pub proof fn a_ticket_is_read_off_its_places(bytes: Seq<u8>, rest: Seq<u8>)
    requires
        read_u32(bytes) == Ok::<(nat, Seq<u8>), WireError>((2, rest)),
    ensures
        if rest.len() < 121 {
            read_message(bytes) == Err::<MessageView, WireError>(WireError::UnexpectedEnd)
        } else {
            match read_sized(rest.skip(121)) {
                Err(error) => read_message(bytes) == Err::<MessageView, WireError>(error),
                Ok((ciphertext, b2)) => {
                    &&& read_message(bytes) is Ok
                    &&& read_message(bytes)->Ok_0 is SenderTicket
                    &&& {
                        let ticket = read_message(bytes)->Ok_0->SenderTicket_0;
                        &&& ticket.version == rest[0]
                        &&& ticket.share_id == rest.subrange(1, 33)
                        &&& ticket.sender_commitment == rest.subrange(33, 65)
                        &&& ticket.receiver_commitment == rest.subrange(65, 97)
                        &&& ticket.nonce == rest.subrange(97, 121)
                        &&& ticket.ciphertext == ciphertext
                    }
                },
            }
        },
{
    lemma_head_positions(rest);
}

/// Whatever bytes follow variant 3, an acknowledgement is read off their places.
pub proof fn an_ack_is_read_off_its_places(bytes: Seq<u8>, rest: Seq<u8>)
    requires
        read_u32(bytes) == Ok::<(nat, Seq<u8>), WireError>((3, rest)),
    ensures
        if rest.len() < 129 {
            read_message(bytes) == Err::<MessageView, WireError>(WireError::UnexpectedEnd)
        } else {
            &&& read_message(bytes) is Ok
            &&& read_message(bytes)->Ok_0 is ReceiverAck
            &&& {
                let ack = read_message(bytes)->Ok_0->ReceiverAck_0;
                &&& ack.version == rest[0]
                &&& ack.share_id == rest.subrange(1, 33)
                &&& ack.sender_commitment == rest.subrange(33, 65)
                &&& ack.receiver_commitment == rest.subrange(65, 97)
                &&& ack.ack_tag == rest.subrange(97, 129)
            }
        },
{
    lemma_head_positions(rest);
}

/// An envelope is two texts and a number, in this order, whatever follows them; the
/// first of them that is amiss says what is wrong.
pub proof fn an_envelope_is_read_part_by_part(bytes: Seq<u8>)
    ensures
        match read_text(bytes) {
            Err(error) => read_envelope(bytes) == Err::<EnvelopeView, WireError>(error),
            Ok((ticket, b1)) => match read_text(b1) {
                Err(error) => read_envelope(bytes) == Err::<EnvelopeView, WireError>(error),
                Ok((ticket_hash, b2)) => match read_u64(b2) {
                    Err(error) => read_envelope(bytes) == Err::<EnvelopeView, WireError>(error),
                    Ok((issued_at_ms, b3)) => {
                        &&& read_envelope(bytes) is Ok
                        &&& read_envelope(bytes)->Ok_0.ticket == ticket
                        &&& read_envelope(bytes)->Ok_0.ticket_hash == ticket_hash
                        &&& read_envelope(bytes)->Ok_0.issued_at_ms == issued_at_ms
                    },
                },
            },
        },
{
    if let Ok((ticket, b1)) = read_text(bytes) {
        if let Ok((ticket_hash, b2)) = read_text(b1) {
            numbers_fit(b2);
        }
    }
}

} // verus!
