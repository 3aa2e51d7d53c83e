//! Inbound events: the snapshot of a remote message taken when it arrives.
use vstd::prelude::*;

verus! {

/// The account that wrote a message.
pub struct Author {
    pub name: String,
    pub id: u64,
    pub is_bot: bool,
}

/// An immutable snapshot of a remote message at arrival time.
pub struct InboundEvent {
    pub content: String,
    pub author: Author,
    /// The author's role ids; present only for messages from a group context.
    pub role_ids: Option<Vec<u64>>,
    pub channel_id: u64,
    pub event_id: u64,
    pub timestamp: String,
    /// Whether the message came from a real user: no webhook origin and no
    /// bot account.
    pub is_own: bool,
}

/// The "real user" heuristic: a message is one's own when it has no webhook
/// origin and its author is not a bot account.
pub open spec fn own_spec(has_webhook: bool, author_is_bot: bool) -> bool {
    !has_webhook && !author_is_bot
}

/// Computes the "real user" flag of a message.
pub fn is_own(has_webhook: bool, author_is_bot: bool) -> (r: bool)
    ensures
        r == own_spec(has_webhook, author_is_bot),
{
    !has_webhook && !author_is_bot
}

impl InboundEvent {
    /// Normalizes a delivered remote message into an event: every field is
    /// kept as delivered, the role list only when the message carries group
    /// membership, and `is_own` is computed from the webhook origin and the
    /// author's bot flag.
    pub fn from_remote(
        content: String,
        author: Author,
        role_ids: Option<Vec<u64>>,
        channel_id: u64,
        event_id: u64,
        timestamp: String,
        webhook_id: Option<u64>,
    ) -> (r: InboundEvent)
        ensures
            r.content == content,
            r.author == author,
            r.role_ids == role_ids,
            r.channel_id == channel_id,
            r.event_id == event_id,
            r.timestamp == timestamp,
            r.is_own == own_spec(webhook_id.is_some(), author.is_bot),
    {
        let own = is_own(webhook_id.is_some(), author.is_bot);
        InboundEvent { content, author, role_ids, channel_id, event_id, timestamp, is_own: own }
    }
}

} // verus!
