//! What can go wrong in a handoff.

use vstd::prelude::*;

verus! {

/// What is wrong with bytes that do not hold a value in its wire format.
#[derive(Debug, Clone, Copy, PartialEq, Eq, Structural)]
pub enum WireError {
    /// The bytes end before the value does.
    UnexpectedEnd,
    /// A number has too many groups, or is too large for its width.
    BadVarint,
    /// A text is not valid UTF-8.
    BadUtf8,
    /// There is no message of this variant.
    UnknownVariant,
}

/// The text that `WireError::message` gives for each error.
pub open spec fn wire_error_text(error: WireError) -> Seq<char> {
    match error {
        WireError::UnexpectedEnd => "Hit the end of buffer, expected more data"@,
        WireError::BadVarint =>
            "Found a varint that didn't terminate. Is the usize too big for this platform?"@,
        WireError::BadUtf8 => "Tried to parse invalid utf-8"@,
        WireError::UnknownVariant => "Serde Deserialization Error"@,
    }
}

impl WireError {
    /// The error in the words of `postcard`.
    pub fn message(&self) -> (text: &'static str)
        ensures
            text@ == wire_error_text(*self),
    {
        match self {
            WireError::UnexpectedEnd => "Hit the end of buffer, expected more data",
            WireError::BadVarint =>
                "Found a varint that didn't terminate. Is the usize too big for this platform?",
            WireError::BadUtf8 => "Tried to parse invalid utf-8",
            WireError::UnknownVariant => "Serde Deserialization Error",
        }
    }
}

/// Why a handoff, or one step of it, failed.
#[derive(Debug, Clone, Copy, PartialEq, Eq, Structural)]
pub enum PhraseError {
    /// The sender's side of the key exchange refused the receiver's message.
    SenderFinish,
    /// The receiver's side of the key exchange refused the sender's message.
    ReceiverFinish,
    /// The session key could not be expanded.
    KeyExpand,
    /// The key of the acknowledgement tag could not be expanded.
    AckExpand,
    /// The ticket envelope is too long for the cipher.
    Encrypt,
    /// The sealed ticket envelope is not authentic.
    Decrypt,
    /// A value could not be brought into its wire format.
    Encode,
    /// Bytes do not hold a value in its wire format.
    Decode(WireError),
    /// The gossip stream ended.
    GossipClosed,
    /// No receiver took the ticket in time.
    HandoffTimeout,
    /// No sender handed out a ticket in time.
    ResolveTimeout,
    /// The system clock stands before the Unix epoch.
    ClockBeforeEpoch,
}

/// The text that `PhraseError::message` gives for each error.
pub open spec fn error_text(error: PhraseError) -> Seq<char> {
    match error {
        PhraseError::SenderFinish => "SPAKE2 sender finish failed"@,
        PhraseError::ReceiverFinish => "SPAKE2 receiver finish failed"@,
        PhraseError::KeyExpand => "hkdf expand failed"@,
        PhraseError::AckExpand => "ack hkdf expand failed"@,
        PhraseError::Encrypt => "encrypt envelope failed"@,
        PhraseError::Decrypt => "decrypt ticket envelope failed"@,
        PhraseError::Encode => "encode failed"@,
        PhraseError::Decode(error) => wire_error_text(error),
        PhraseError::GossipClosed => "gossip receiver closed"@,
        PhraseError::HandoffTimeout => "phrase handoff timeout"@,
        PhraseError::ResolveTimeout => "phrase resolve timeout"@,
        PhraseError::ClockBeforeEpoch => "system time before unix epoch"@,
    }
}

impl PhraseError {
    /// The error as a line for a log or a user.
    pub fn message(&self) -> (text: &'static str)
        ensures
            text@ == error_text(*self),
    {
        match self {
            PhraseError::SenderFinish => "SPAKE2 sender finish failed",
            PhraseError::ReceiverFinish => "SPAKE2 receiver finish failed",
            PhraseError::KeyExpand => "hkdf expand failed",
            PhraseError::AckExpand => "ack hkdf expand failed",
            PhraseError::Encrypt => "encrypt envelope failed",
            PhraseError::Decrypt => "decrypt ticket envelope failed",
            PhraseError::Encode => "encode failed",
            PhraseError::Decode(error) => error.message(),
            PhraseError::GossipClosed => "gossip receiver closed",
            PhraseError::HandoffTimeout => "phrase handoff timeout",
            PhraseError::ResolveTimeout => "phrase resolve timeout",
            PhraseError::ClockBeforeEpoch => "system time before unix epoch",
        }
    }
}

} // verus!
