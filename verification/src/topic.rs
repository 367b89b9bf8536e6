//! The gossip topic on which the two sides meet.

use vstd::prelude::*;

verus! {

/// The identifier of a gossip topic.
#[derive(Debug, Clone, Copy, PartialEq, Eq)]
pub struct TopicId {
    pub hash: [u8; 32],
}

/// The identifier that the topic tracker gives to a topic of some name.
pub uninterp spec fn tracker_topic_hash(name: Seq<char>) -> Seq<u8>;

/// `distributed_topic_tracker::TopicId::new` and `hash`: the identifier depends on
/// the name alone.
#[verifier::external_body]
fn tracker_hash(name: String) -> (hash: [u8; 32])
    ensures
        hash@ == tracker_topic_hash(name@),
{
    distributed_topic_tracker::TopicId::new(name).hash()
}

impl TopicId {
    /// The identifier of the topic called `name`.
    pub fn new(name: String) -> (topic: TopicId)
        ensures
            topic.hash@ == tracker_topic_hash(name@),
    {
        TopicId { hash: tracker_hash(name) }
    }

    /// The bytes of the identifier.
    pub fn hash(&self) -> (hash: [u8; 32])
        ensures
            hash@ == self.hash@,
    {
        self.hash
    }
}

} // verus!
