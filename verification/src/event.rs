//! What a side of a handoff waits for beside its timers.

use vstd::prelude::*;

verus! {

/// What the gossip topic delivered, or that the time is up.
pub enum GossipEvent {
    /// The bytes of a message.
    Message(Vec<u8>),
    /// News of the topic that carry no message.
    Notice,
    /// A failure that the stream survives.
    StreamError,
    /// The end of the stream.
    Closed,
    /// The end of the time for the handoff.
    Deadline,
}

/// The contents of a `GossipEvent`.
#[verifier::ext_equal]
pub enum GossipEventView {
    Message(Seq<u8>),
    Notice,
    StreamError,
    Closed,
    Deadline,
}

impl View for GossipEvent {
    type V = GossipEventView;

    open spec fn view(&self) -> GossipEventView {
        match self {
            GossipEvent::Message(bytes) => GossipEventView::Message(bytes@),
            GossipEvent::Notice => GossipEventView::Notice,
            GossipEvent::StreamError => GossipEventView::StreamError,
            GossipEvent::Closed => GossipEventView::Closed,
            GossipEvent::Deadline => GossipEventView::Deadline,
        }
    }
}

} // verus!
