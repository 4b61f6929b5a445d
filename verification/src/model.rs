//! The parts of a discord message that the bot's logic reads.
use vstd::prelude::*;

verus! {

/// A message of a channel's history, as the handlers see it.
pub struct DiscordMessage {
    /// The message's snowflake id.
    pub id: u64,
    /// The author's user id.
    pub author_id: u64,
    /// Whether the author is a bot account.
    pub author_is_bot: bool,
    /// Whether the message was sent in a private (direct message) channel.
    pub is_private: bool,
    /// The message's timestamp, as discord renders it (RFC 3339).
    pub timestamp: String,
    /// The message's text.
    pub content: String,
}

impl DiscordMessage {
    /// A copy of the message.
    pub fn duplicate(&self) -> (m: DiscordMessage)
        ensures
            m == *self,
    {
        DiscordMessage {
            id: self.id,
            author_id: self.author_id,
            author_is_bot: self.author_is_bot,
            is_private: self.is_private,
            timestamp: self.timestamp.clone(),
            content: self.content.clone(),
        }
    }
}

/// Whether the user `id` is among a message's mentions.
pub fn mentions_user(mentions: &Vec<u64>, id: u64) -> (b: bool)
    ensures
        b == mentions@.contains(id),
{
    let mut i: usize = 0;
    while i < mentions.len()
        invariant
            i <= mentions.len(),
            forall|j: int| 0 <= j < i ==> mentions@[j] != id,
        decreases mentions.len() - i,
    {
        if mentions[i] == id {
            assert(mentions@[i as int] == id);
            return true;
        }
        i = i + 1;
    }
    false
}

} // verus!
