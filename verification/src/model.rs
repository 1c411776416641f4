use vstd::prelude::*;

verus! {

/// An identifier for a channel.
#[derive(Clone, Copy, Debug, PartialEq, Eq, Structural)]
pub struct ChannelId(pub u64);

/// An identifier for a message.
#[derive(Clone, Copy, Debug, PartialEq, Eq, Structural)]
pub struct MessageId(pub u64);

/// An identifier for a server (a guild).
#[derive(Clone, Copy, Debug, PartialEq, Eq, Structural)]
pub struct ServerId(pub u64);

/// An identifier for a user.
#[derive(Clone, Copy, Debug, PartialEq, Eq, Structural)]
pub struct UserId(pub u64);

/// An identifier for a role.
#[derive(Clone, Copy, Debug, PartialEq, Eq, Structural)]
pub struct RoleId(pub u64);

/// An identifier for a custom emoji.
#[derive(Clone, Copy, Debug, PartialEq, Eq, Structural)]
pub struct EmojiId(pub u64);

/// Argument to `get_messages` to specify the desired message retrieval.
#[derive(Clone, Copy, Debug, PartialEq, Eq, Structural)]
pub enum GetMessages {
    /// Get the N most recent messages.
    MostRecent,
    /// Get the first N messages before the specified message.
    Before(MessageId),
    /// Get the first N messages after the specified message.
    After(MessageId),
    /// Get N/2 messages before, N/2 messages after, and the specified message.
    Around(MessageId),
}

/// An emoji used in a reaction: a custom emoji of a server, or a unicode one.
#[derive(Debug, PartialEq)]
pub enum ReactionEmoji {
    Custom { name: String, id: EmojiId },
    Unicode(String),
}

/// The target of a channel permission overwrite.
#[derive(Clone, Copy, Debug, PartialEq, Eq, Structural)]
pub enum PermissionOverwriteType {
    Member(UserId),
    Role(RoleId),
}

/// A channel permission overwrite: the target and the permission bits that
/// it allows and denies.
#[derive(Clone, Copy, Debug, PartialEq, Eq, Structural)]
pub struct PermissionOverwrite {
    pub kind: PermissionOverwriteType,
    pub allow: u64,
    pub deny: u64,
}

/// The kind of a public channel, as far as editing distinguishes it.
#[derive(Clone, Copy, Debug, PartialEq, Eq, Structural)]
pub enum PublicChannelKind {
    Text,
    Voice,
    Other,
}

/// What editing a channel reads of the channel's current state.
#[allow(inconsistent_fields)]
#[derive(Debug, PartialEq)]
pub enum ChannelSummary {
    Private,
    Public {
        name: String,
        position: i64,
        kind: PublicChannelKind,
        topic: Option<String>,
        bitrate: Option<u64>,
        user_limit: Option<u64>,
    },
    Group { name: Option<String> },
    Category,
    News,
    Store,
}

} // verus!
