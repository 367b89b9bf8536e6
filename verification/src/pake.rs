//! SPAKE2 over the Ed25519 group.

use spake2::{Ed25519Group, Identity, Password, Spake2};
use vstd::prelude::*;
use zeroize::Zeroize;

verus! {

/// Which side of the exchange a party plays.
#[derive(Debug, Clone, Copy, PartialEq, Eq, Structural)]
pub enum PakeSide {
    A,
    B,
}

/// The byte that starts a message of side A, the letter A.
pub const MESSAGE_OF_A: u8 = 65;

/// The byte that starts a message of side B, the letter B.
pub const MESSAGE_OF_B: u8 = 66;

/// What is known of a party that has started the exchange.
#[verifier::ext_equal]
pub struct PakeView {
    pub side: PakeSide,
    pub password: Seq<u8>,
    pub id_a: Seq<u8>,
    pub id_b: Seq<u8>,
    /// The message that the party sends.
    pub outbound: Seq<u8>,
}

/// A party that has started the exchange and holds its secret. Verus does not take
/// the type of `spake2` itself, which is generic over a trait of that crate.
#[verifier::external_body]
pub struct PakeState {
    inner: Spake2<Ed25519Group>,
}

/// What is known of the party behind a state.
pub uninterp spec fn pake_view(state: PakeState) -> PakeView;

/// Whether 32 bytes are the compressed form of a point of the curve.
pub uninterp spec fn edwards_point(bytes: Seq<u8>) -> bool;

/// The secret that two parties share who know the same password and identities,
/// and of whom A sent `message_a` and B sent `message_b`.
pub uninterp spec fn spake2_secret(
    password: Seq<u8>,
    id_a: Seq<u8>,
    id_b: Seq<u8>,
    message_a: Seq<u8>,
    message_b: Seq<u8>,
) -> Seq<u8>;

impl View for PakeState {
    type V = PakeView;

    open spec fn view(&self) -> PakeView {
        pake_view(*self)
    }
}

/// The byte that starts the messages of a side.
pub open spec fn first_byte(side: PakeSide) -> u8 {
    match side {
        PakeSide::A => MESSAGE_OF_A,
        PakeSide::B => MESSAGE_OF_B,
    }
}

/// The side that `side` talks to.
pub open spec fn other_side(side: PakeSide) -> PakeSide {
    match side {
        PakeSide::A => PakeSide::B,
        PakeSide::B => PakeSide::A,
    }
}

/// Whether `message` is one that a party on side `side` can have sent: a byte for
/// the side and a point of the curve.
pub open spec fn message_of(side: PakeSide, message: Seq<u8>) -> bool {
    &&& message.len() == 33
    &&& message[0] == first_byte(side)
    &&& edwards_point(message.skip(1))
}

/// What a party gets out of the other side's message: the shared secret, or
/// nothing where the message cannot come from the other side.
pub open spec fn pake_secret(party: PakeView, inbound: Seq<u8>) -> Option<Seq<u8>> {
    if message_of(other_side(party.side), inbound) {
        Some(
            match party.side {
                PakeSide::A => spake2_secret(
                    party.password,
                    party.id_a,
                    party.id_b,
                    party.outbound,
                    inbound,
                ),
                PakeSide::B => spake2_secret(
                    party.password,
                    party.id_a,
                    party.id_b,
                    inbound,
                    party.outbound,
                ),
            },
        )
    } else {
        None
    }
}

/// What `spake2` reports where it refuses the other side's message.
#[verifier::external_type_specification]
#[verifier::external_body]
pub struct ExPakeError(spake2::Error);

impl PakeState {
    /// `Spake2::start_a`: a party on side A with a secret drawn anew, and the
    /// message that it sends.
    #[verifier::external_body]
    pub(crate) fn start_a(password: &[u8], id_a: &[u8], id_b: &[u8]) -> (started: (
        PakeState,
        Vec<u8>,
    ))
        ensures
            started.1@.len() == 33,
            started.1@[0] == MESSAGE_OF_A,
            edwards_point(started.1@.skip(1)),
            pake_view(started.0) == (PakeView {
                side: PakeSide::A,
                password: password@,
                id_a: id_a@,
                id_b: id_b@,
                outbound: started.1@,
            }),
    {
        let (inner, message) = Spake2::<Ed25519Group>::start_a(
            &Password::new(password),
            &Identity::new(id_a),
            &Identity::new(id_b),
        );
        (PakeState { inner }, message)
    }

    /// `Spake2::start_b`: a party on side B with a secret drawn anew, and the
    /// message that it sends.
    #[verifier::external_body]
    pub(crate) fn start_b(password: &[u8], id_a: &[u8], id_b: &[u8]) -> (started: (
        PakeState,
        Vec<u8>,
    ))
        ensures
            started.1@.len() == 33,
            started.1@[0] == MESSAGE_OF_B,
            edwards_point(started.1@.skip(1)),
            pake_view(started.0) == (PakeView {
                side: PakeSide::B,
                password: password@,
                id_a: id_a@,
                id_b: id_b@,
                outbound: started.1@,
            }),
    {
        let (inner, message) = Spake2::<Ed25519Group>::start_b(
            &Password::new(password),
            &Identity::new(id_a),
            &Identity::new(id_b),
        );
        (PakeState { inner }, message)
    }

    /// `Spake2::finish`: refuses a message that does not have the form of the other
    /// side's, and else gives the shared secret. A party's own message fixes the
    /// secret number behind it, so what both parties know and the two messages
    /// determine the shared secret.
    #[verifier::external_body]
    pub(crate) fn finish(self, inbound: &[u8]) -> (secret: Result<Vec<u8>, spake2::Error>)
        ensures
            secret is Ok <==> (inbound@.len() == 33 && inbound@[0] == first_byte(
                other_side(pake_view(self).side),
            ) && edwards_point(inbound@.skip(1))),
            secret is Ok ==> secret->Ok_0@ == match pake_view(self).side {
                PakeSide::A => spake2_secret(
                    pake_view(self).password,
                    pake_view(self).id_a,
                    pake_view(self).id_b,
                    pake_view(self).outbound,
                    inbound@,
                ),
                PakeSide::B => spake2_secret(
                    pake_view(self).password,
                    pake_view(self).id_a,
                    pake_view(self).id_b,
                    inbound@,
                    pake_view(self).outbound,
                ),
            },
    {
        self.inner.finish(inbound)
    }
}

/// `Zeroize::zeroize` on a vector overwrites what it holds and leaves it empty.
#[verifier::external_body]
pub(crate) fn wipe(secret: &mut Vec<u8>)
    ensures
        final(secret)@ == Seq::<u8>::empty(),
{
    secret.zeroize();
}

/// Two parties who know the same password and identities, and of whom each has
/// the message that the other sent, share one secret.
pub proof fn parties_share_a_secret(a: PakeView, b: PakeView)
    requires
        a.side == PakeSide::A,
        b.side == PakeSide::B,
        message_of(PakeSide::A, a.outbound),
        message_of(PakeSide::B, b.outbound),
        a.password == b.password,
        a.id_a == b.id_a,
        a.id_b == b.id_b,
    ensures
        pake_secret(a, b.outbound) is Some,
        pake_secret(a, b.outbound) == pake_secret(b, a.outbound),
{
}

} // verus!
