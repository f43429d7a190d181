//! The chat database: one vector per table, its view, and its invariant.

use vstd::prelude::*;
use crate::tables::{AgentCapabilityOverride, AgentCapabilityOverrideV, AgentCleanupJob, AgentCleanupJobV,
    AgentConfig, AgentConfigV, AgentCredential, AgentCredentialV, AgentSpawnLimit, AgentSpawnLimitV, AuditLogEntry,
    AuditLogEntryV, AutoModRule, AutoModRuleV, Bookmark, BookmarkV, ChannelCategory, ChannelCategoryV,
    ChannelOverride, ChannelOverrideV, ChatServer, ChatServerV, ChatUser, ChatUserV, Draft, DraftV,
    EphemeralCleanupJob, EphemeralCleanupJobV, ForumPostTag, ForumPostTagV, ForumTag, ForumTagV, MemberRole,
    MemberRoleV, MemberTimeout, MemberTimeoutV, Message, MessageAttachment, MessageAttachmentV, MessageEdit,
    MessageEditRoomIndex, MessageEditRoomIndexV, MessageEditV, MessageV, NotificationSetting, NotificationSettingV,
    PinnedMessage, PinnedMessageV, Poll, PollV, PollVote, PollVoteV, Reaction, ReactionRoomIndex,
    ReactionRoomIndexV, ReactionV, ReadPosition, ReadPositionV, Room, RoomInvitation, RoomInvitationV, RoomMember,
    RoomMemberV, RoomV, ScheduledDeliveryJob, ScheduledDeliveryJobV, ScheduledMessage, ScheduledMessageV,
    ServerEmoji, ServerEmojiV, ServerInvite, ServerInviteV, ServerMember, ServerMemberV, ServerRole, ServerRoleV,
    StarredChannel, StarredChannelV, Sticker, StickerV, SystemConfig, SystemConfigV, TimeoutExpiryJob,
    TimeoutExpiryJobV, TypingExpiryJob, TypingExpiryJobV, TypingIndicator, TypingIndicatorV, UserBlock, UserBlockV,
    UserIdentityLink, UserIdentityLinkV, UserProfile, UserProfileV, Webhook, WebhookMessage, WebhookMessageV,
    WebhookV};
use crate::store::{rows, unique_keys};

verus! {

/// All tables of the chat service.
pub struct ChatDb {
    pub chat_users: Vec<ChatUser>,
    pub agent_credentials: Vec<AgentCredential>,
    pub agent_spawn_limits: Vec<AgentSpawnLimit>,
    pub agent_configs: Vec<AgentConfig>,
    pub agent_capability_overrides: Vec<AgentCapabilityOverride>,
    pub user_identity_links: Vec<UserIdentityLink>,
    pub rooms: Vec<Room>,
    pub room_members: Vec<RoomMember>,
    pub messages: Vec<Message>,
    pub chat_servers: Vec<ChatServer>,
    pub server_members: Vec<ServerMember>,
    pub channel_categories: Vec<ChannelCategory>,
    pub server_roles: Vec<ServerRole>,
    pub member_roles: Vec<MemberRole>,
    pub channel_overrides: Vec<ChannelOverride>,
    pub system_config: Vec<SystemConfig>,
    pub typing_indicators: Vec<TypingIndicator>,
    pub typing_expiry_jobs: Vec<TypingExpiryJob>,
    pub agent_cleanup_jobs: Vec<AgentCleanupJob>,
    pub reactions: Vec<Reaction>,
    pub reaction_room_index: Vec<ReactionRoomIndex>,
    pub message_edits: Vec<MessageEdit>,
    pub message_edit_room_index: Vec<MessageEditRoomIndex>,
    pub pinned_messages: Vec<PinnedMessage>,
    pub message_attachments: Vec<MessageAttachment>,
    pub bookmarks: Vec<Bookmark>,
    pub read_positions: Vec<ReadPosition>,
    pub polls: Vec<Poll>,
    pub poll_votes: Vec<PollVote>,
    pub scheduled_messages: Vec<ScheduledMessage>,
    pub drafts: Vec<Draft>,
    pub room_invitations: Vec<RoomInvitation>,
    pub webhooks: Vec<Webhook>,
    pub audit_log: Vec<AuditLogEntry>,
    pub member_timeouts: Vec<MemberTimeout>,
    pub timeout_expiry_jobs: Vec<TimeoutExpiryJob>,
    pub ephemeral_cleanup_jobs: Vec<EphemeralCleanupJob>,
    pub scheduled_delivery_jobs: Vec<ScheduledDeliveryJob>,
    pub user_blocks: Vec<UserBlock>,
    pub notification_settings: Vec<NotificationSetting>,
    pub server_emojis: Vec<ServerEmoji>,
    pub server_invites: Vec<ServerInvite>,
    pub forum_tags: Vec<ForumTag>,
    pub forum_post_tags: Vec<ForumPostTag>,
    pub auto_mod_rules: Vec<AutoModRule>,
    pub stickers: Vec<Sticker>,
    pub starred_channels: Vec<StarredChannel>,
    pub user_profiles: Vec<UserProfile>,
    pub webhook_messages: Vec<WebhookMessage>,
}

/// View of the database: the row views of every table.
#[verifier::ext_equal]
pub struct ChatDbV {
    pub chat_users: Seq<ChatUserV>,
    pub agent_credentials: Seq<AgentCredentialV>,
    pub agent_spawn_limits: Seq<AgentSpawnLimitV>,
    pub agent_configs: Seq<AgentConfigV>,
    pub agent_capability_overrides: Seq<AgentCapabilityOverrideV>,
    pub user_identity_links: Seq<UserIdentityLinkV>,
    pub rooms: Seq<RoomV>,
    pub room_members: Seq<RoomMemberV>,
    pub messages: Seq<MessageV>,
    pub chat_servers: Seq<ChatServerV>,
    pub server_members: Seq<ServerMemberV>,
    pub channel_categories: Seq<ChannelCategoryV>,
    pub server_roles: Seq<ServerRoleV>,
    pub member_roles: Seq<MemberRoleV>,
    pub channel_overrides: Seq<ChannelOverrideV>,
    pub system_config: Seq<SystemConfigV>,
    pub typing_indicators: Seq<TypingIndicatorV>,
    pub typing_expiry_jobs: Seq<TypingExpiryJobV>,
    pub agent_cleanup_jobs: Seq<AgentCleanupJobV>,
    pub reactions: Seq<ReactionV>,
    pub reaction_room_index: Seq<ReactionRoomIndexV>,
    pub message_edits: Seq<MessageEditV>,
    pub message_edit_room_index: Seq<MessageEditRoomIndexV>,
    pub pinned_messages: Seq<PinnedMessageV>,
    pub message_attachments: Seq<MessageAttachmentV>,
    pub bookmarks: Seq<BookmarkV>,
    pub read_positions: Seq<ReadPositionV>,
    pub polls: Seq<PollV>,
    pub poll_votes: Seq<PollVoteV>,
    pub scheduled_messages: Seq<ScheduledMessageV>,
    pub drafts: Seq<DraftV>,
    pub room_invitations: Seq<RoomInvitationV>,
    pub webhooks: Seq<WebhookV>,
    pub audit_log: Seq<AuditLogEntryV>,
    pub member_timeouts: Seq<MemberTimeoutV>,
    pub timeout_expiry_jobs: Seq<TimeoutExpiryJobV>,
    pub ephemeral_cleanup_jobs: Seq<EphemeralCleanupJobV>,
    pub scheduled_delivery_jobs: Seq<ScheduledDeliveryJobV>,
    pub user_blocks: Seq<UserBlockV>,
    pub notification_settings: Seq<NotificationSettingV>,
    pub server_emojis: Seq<ServerEmojiV>,
    pub server_invites: Seq<ServerInviteV>,
    pub forum_tags: Seq<ForumTagV>,
    pub forum_post_tags: Seq<ForumPostTagV>,
    pub auto_mod_rules: Seq<AutoModRuleV>,
    pub stickers: Seq<StickerV>,
    pub starred_channels: Seq<StarredChannelV>,
    pub user_profiles: Seq<UserProfileV>,
    pub webhook_messages: Seq<WebhookMessageV>,
}

impl View for ChatDb {
    type V = ChatDbV;

    open spec fn view(&self) -> ChatDbV {
        ChatDbV {
            chat_users: rows(self.chat_users@),
            agent_credentials: rows(self.agent_credentials@),
            agent_spawn_limits: rows(self.agent_spawn_limits@),
            agent_configs: rows(self.agent_configs@),
            agent_capability_overrides: rows(self.agent_capability_overrides@),
            user_identity_links: rows(self.user_identity_links@),
            rooms: rows(self.rooms@),
            room_members: rows(self.room_members@),
            messages: rows(self.messages@),
            chat_servers: rows(self.chat_servers@),
            server_members: rows(self.server_members@),
            channel_categories: rows(self.channel_categories@),
            server_roles: rows(self.server_roles@),
            member_roles: rows(self.member_roles@),
            channel_overrides: rows(self.channel_overrides@),
            system_config: rows(self.system_config@),
            typing_indicators: rows(self.typing_indicators@),
            typing_expiry_jobs: rows(self.typing_expiry_jobs@),
            agent_cleanup_jobs: rows(self.agent_cleanup_jobs@),
            reactions: rows(self.reactions@),
            reaction_room_index: rows(self.reaction_room_index@),
            message_edits: rows(self.message_edits@),
            message_edit_room_index: rows(self.message_edit_room_index@),
            pinned_messages: rows(self.pinned_messages@),
            message_attachments: rows(self.message_attachments@),
            bookmarks: rows(self.bookmarks@),
            read_positions: rows(self.read_positions@),
            polls: rows(self.polls@),
            poll_votes: rows(self.poll_votes@),
            scheduled_messages: rows(self.scheduled_messages@),
            drafts: rows(self.drafts@),
            room_invitations: rows(self.room_invitations@),
            webhooks: rows(self.webhooks@),
            audit_log: rows(self.audit_log@),
            member_timeouts: rows(self.member_timeouts@),
            timeout_expiry_jobs: rows(self.timeout_expiry_jobs@),
            ephemeral_cleanup_jobs: rows(self.ephemeral_cleanup_jobs@),
            scheduled_delivery_jobs: rows(self.scheduled_delivery_jobs@),
            user_blocks: rows(self.user_blocks@),
            notification_settings: rows(self.notification_settings@),
            server_emojis: rows(self.server_emojis@),
            server_invites: rows(self.server_invites@),
            forum_tags: rows(self.forum_tags@),
            forum_post_tags: rows(self.forum_post_tags@),
            auto_mod_rules: rows(self.auto_mod_rules@),
            stickers: rows(self.stickers@),
            starred_channels: rows(self.starred_channels@),
            user_profiles: rows(self.user_profiles@),
            webhook_messages: rows(self.webhook_messages@),
        }
    }
}

impl ChatDbV {
    /// Every keyed table has unique primary keys.
    pub open spec fn wf(self) -> bool {
        &&& unique_keys(self.chat_users)
        &&& unique_keys(self.agent_credentials)
        &&& unique_keys(self.agent_spawn_limits)
        &&& unique_keys(self.agent_configs)
        &&& unique_keys(self.agent_capability_overrides)
        &&& unique_keys(self.user_identity_links)
        &&& unique_keys(self.rooms)
        &&& unique_keys(self.room_members)
        &&& unique_keys(self.messages)
        &&& unique_keys(self.chat_servers)
        &&& unique_keys(self.server_members)
        &&& unique_keys(self.channel_categories)
        &&& unique_keys(self.server_roles)
        &&& unique_keys(self.member_roles)
        &&& unique_keys(self.channel_overrides)
        &&& unique_keys(self.system_config)
        &&& unique_keys(self.typing_indicators)
        &&& unique_keys(self.reactions)
        &&& unique_keys(self.reaction_room_index)
        &&& unique_keys(self.message_edits)
        &&& unique_keys(self.message_edit_room_index)
        &&& unique_keys(self.pinned_messages)
        &&& unique_keys(self.message_attachments)
        &&& unique_keys(self.bookmarks)
        &&& unique_keys(self.read_positions)
        &&& unique_keys(self.polls)
        &&& unique_keys(self.poll_votes)
        &&& unique_keys(self.scheduled_messages)
        &&& unique_keys(self.drafts)
        &&& unique_keys(self.room_invitations)
        &&& unique_keys(self.webhooks)
        &&& unique_keys(self.audit_log)
        &&& unique_keys(self.member_timeouts)
        &&& unique_keys(self.user_blocks)
        &&& unique_keys(self.notification_settings)
        &&& unique_keys(self.server_emojis)
        &&& unique_keys(self.server_invites)
        &&& unique_keys(self.forum_tags)
        &&& unique_keys(self.forum_post_tags)
        &&& unique_keys(self.auto_mod_rules)
        &&& unique_keys(self.stickers)
        &&& unique_keys(self.starred_channels)
        &&& unique_keys(self.user_profiles)
        &&& unique_keys(self.webhook_messages)
    }
}

impl ChatDb {
    /// An empty database.
    pub fn new() -> (db: ChatDb)
        ensures
            db@.wf(),
            db@.chat_users.len() == 0,
            db@.agent_credentials.len() == 0,
            db@.agent_spawn_limits.len() == 0,
            db@.agent_configs.len() == 0,
            db@.agent_capability_overrides.len() == 0,
            db@.user_identity_links.len() == 0,
            db@.rooms.len() == 0,
            db@.room_members.len() == 0,
            db@.messages.len() == 0,
            db@.chat_servers.len() == 0,
            db@.server_members.len() == 0,
            db@.channel_categories.len() == 0,
            db@.server_roles.len() == 0,
            db@.member_roles.len() == 0,
            db@.channel_overrides.len() == 0,
            db@.system_config.len() == 0,
            db@.typing_indicators.len() == 0,
            db@.typing_expiry_jobs.len() == 0,
            db@.agent_cleanup_jobs.len() == 0,
            db@.reactions.len() == 0,
            db@.reaction_room_index.len() == 0,
            db@.message_edits.len() == 0,
            db@.message_edit_room_index.len() == 0,
            db@.pinned_messages.len() == 0,
            db@.message_attachments.len() == 0,
            db@.bookmarks.len() == 0,
            db@.read_positions.len() == 0,
            db@.polls.len() == 0,
            db@.poll_votes.len() == 0,
            db@.scheduled_messages.len() == 0,
            db@.drafts.len() == 0,
            db@.room_invitations.len() == 0,
            db@.webhooks.len() == 0,
            db@.audit_log.len() == 0,
            db@.member_timeouts.len() == 0,
            db@.timeout_expiry_jobs.len() == 0,
            db@.ephemeral_cleanup_jobs.len() == 0,
            db@.scheduled_delivery_jobs.len() == 0,
            db@.user_blocks.len() == 0,
            db@.notification_settings.len() == 0,
            db@.server_emojis.len() == 0,
            db@.server_invites.len() == 0,
            db@.forum_tags.len() == 0,
            db@.forum_post_tags.len() == 0,
            db@.auto_mod_rules.len() == 0,
            db@.stickers.len() == 0,
            db@.starred_channels.len() == 0,
            db@.user_profiles.len() == 0,
            db@.webhook_messages.len() == 0,
    {
        let db = ChatDb {
            chat_users: Vec::new(),
            agent_credentials: Vec::new(),
            agent_spawn_limits: Vec::new(),
            agent_configs: Vec::new(),
            agent_capability_overrides: Vec::new(),
            user_identity_links: Vec::new(),
            rooms: Vec::new(),
            room_members: Vec::new(),
            messages: Vec::new(),
            chat_servers: Vec::new(),
            server_members: Vec::new(),
            channel_categories: Vec::new(),
            server_roles: Vec::new(),
            member_roles: Vec::new(),
            channel_overrides: Vec::new(),
            system_config: Vec::new(),
            typing_indicators: Vec::new(),
            typing_expiry_jobs: Vec::new(),
            agent_cleanup_jobs: Vec::new(),
            reactions: Vec::new(),
            reaction_room_index: Vec::new(),
            message_edits: Vec::new(),
            message_edit_room_index: Vec::new(),
            pinned_messages: Vec::new(),
            message_attachments: Vec::new(),
            bookmarks: Vec::new(),
            read_positions: Vec::new(),
            polls: Vec::new(),
            poll_votes: Vec::new(),
            scheduled_messages: Vec::new(),
            drafts: Vec::new(),
            room_invitations: Vec::new(),
            webhooks: Vec::new(),
            audit_log: Vec::new(),
            member_timeouts: Vec::new(),
            timeout_expiry_jobs: Vec::new(),
            ephemeral_cleanup_jobs: Vec::new(),
            scheduled_delivery_jobs: Vec::new(),
            user_blocks: Vec::new(),
            notification_settings: Vec::new(),
            server_emojis: Vec::new(),
            server_invites: Vec::new(),
            forum_tags: Vec::new(),
            forum_post_tags: Vec::new(),
            auto_mod_rules: Vec::new(),
            stickers: Vec::new(),
            starred_channels: Vec::new(),
            user_profiles: Vec::new(),
            webhook_messages: Vec::new(),
        };
        proof {
            assert(db@.chat_users =~= Seq::<ChatUserV>::empty());
            assert(db@.agent_credentials =~= Seq::<AgentCredentialV>::empty());
            assert(db@.agent_spawn_limits =~= Seq::<AgentSpawnLimitV>::empty());
            assert(db@.agent_configs =~= Seq::<AgentConfigV>::empty());
            assert(db@.agent_capability_overrides =~= Seq::<AgentCapabilityOverrideV>::empty());
            assert(db@.user_identity_links =~= Seq::<UserIdentityLinkV>::empty());
            assert(db@.rooms =~= Seq::<RoomV>::empty());
            assert(db@.room_members =~= Seq::<RoomMemberV>::empty());
            assert(db@.messages =~= Seq::<MessageV>::empty());
            assert(db@.chat_servers =~= Seq::<ChatServerV>::empty());
            assert(db@.server_members =~= Seq::<ServerMemberV>::empty());
            assert(db@.channel_categories =~= Seq::<ChannelCategoryV>::empty());
            assert(db@.server_roles =~= Seq::<ServerRoleV>::empty());
            assert(db@.member_roles =~= Seq::<MemberRoleV>::empty());
            assert(db@.channel_overrides =~= Seq::<ChannelOverrideV>::empty());
            assert(db@.system_config =~= Seq::<SystemConfigV>::empty());
            assert(db@.typing_indicators =~= Seq::<TypingIndicatorV>::empty());
            assert(db@.typing_expiry_jobs =~= Seq::<TypingExpiryJobV>::empty());
            assert(db@.agent_cleanup_jobs =~= Seq::<AgentCleanupJobV>::empty());
            assert(db@.reactions =~= Seq::<ReactionV>::empty());
            assert(db@.reaction_room_index =~= Seq::<ReactionRoomIndexV>::empty());
            assert(db@.message_edits =~= Seq::<MessageEditV>::empty());
            assert(db@.message_edit_room_index =~= Seq::<MessageEditRoomIndexV>::empty());
            assert(db@.pinned_messages =~= Seq::<PinnedMessageV>::empty());
            assert(db@.message_attachments =~= Seq::<MessageAttachmentV>::empty());
            assert(db@.bookmarks =~= Seq::<BookmarkV>::empty());
            assert(db@.read_positions =~= Seq::<ReadPositionV>::empty());
            assert(db@.polls =~= Seq::<PollV>::empty());
            assert(db@.poll_votes =~= Seq::<PollVoteV>::empty());
            assert(db@.scheduled_messages =~= Seq::<ScheduledMessageV>::empty());
            assert(db@.drafts =~= Seq::<DraftV>::empty());
            assert(db@.room_invitations =~= Seq::<RoomInvitationV>::empty());
            assert(db@.webhooks =~= Seq::<WebhookV>::empty());
            assert(db@.audit_log =~= Seq::<AuditLogEntryV>::empty());
            assert(db@.member_timeouts =~= Seq::<MemberTimeoutV>::empty());
            assert(db@.timeout_expiry_jobs =~= Seq::<TimeoutExpiryJobV>::empty());
            assert(db@.ephemeral_cleanup_jobs =~= Seq::<EphemeralCleanupJobV>::empty());
            assert(db@.scheduled_delivery_jobs =~= Seq::<ScheduledDeliveryJobV>::empty());
            assert(db@.user_blocks =~= Seq::<UserBlockV>::empty());
            assert(db@.notification_settings =~= Seq::<NotificationSettingV>::empty());
            assert(db@.server_emojis =~= Seq::<ServerEmojiV>::empty());
            assert(db@.server_invites =~= Seq::<ServerInviteV>::empty());
            assert(db@.forum_tags =~= Seq::<ForumTagV>::empty());
            assert(db@.forum_post_tags =~= Seq::<ForumPostTagV>::empty());
            assert(db@.auto_mod_rules =~= Seq::<AutoModRuleV>::empty());
            assert(db@.stickers =~= Seq::<StickerV>::empty());
            assert(db@.starred_channels =~= Seq::<StarredChannelV>::empty());
            assert(db@.user_profiles =~= Seq::<UserProfileV>::empty());
            assert(db@.webhook_messages =~= Seq::<WebhookMessageV>::empty());
        }
        db
    }
}

} // verus!
