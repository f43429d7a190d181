//! Rows of the chat database, their mathematical views, and primary keys.
//!
//! Every table is a `Vec` of rows; a row's view replaces each `String` by its
//! characters. Time stamps are the integers the service stores.

use vstd::prelude::*;

verus! {

/// A row view with a string primary key.
pub trait KeyedView {
    /// Primary key of the row.
    spec fn key(&self) -> Seq<char>;
}

/// A table row with a string primary key.
pub trait Row: View + Sized where <Self as View>::V: KeyedView {
    /// Primary key of this row.
    fn key_str(&self) -> (k: &String)
        ensures
            k@ == self@.key(),
    ;
}

/// Characters of an optional string.
pub open spec fn opt_view(o: Option<String>) -> Option<Seq<char>> {
    match o {
        Some(s) => Some(s@),
        None => None,
    }
}

/// When a scheduled job runs: at a point in time (microseconds since the
/// Unix epoch) or repeatedly, every so many microseconds.
#[derive(Clone, Copy, Debug, PartialEq, Eq, Structural)]
pub enum ScheduleAt {
    Time(u64),
    Interval(u64),
}

/// A chat account, human or bot.
#[derive(Clone, Debug)]
pub struct ChatUser {
    pub user_id: String,
    pub stdb_identity: String,
    pub display_name: String,
    pub status: String,
    pub online: bool,
    pub last_message_at: u64,
    pub last_typing_at: u64,
    pub last_seen_at: u64,
    pub created_at: u64,
    pub tier: Option<String>,
    pub avatar_data: Option<String>,
    pub custom_status: Option<String>,
    pub custom_status_emoji: Option<String>,
    pub platform_role: Option<String>,
    pub is_bot: Option<bool>,
    pub is_platform_agent: Option<bool>,
    pub bot_owner_user_id: Option<String>,
    pub is_swarm_member: Option<bool>,
    pub is_steward_projection: Option<bool>,
}

/// View of a [`ChatUser`].
pub struct ChatUserV {
    pub user_id: Seq<char>,
    pub stdb_identity: Seq<char>,
    pub display_name: Seq<char>,
    pub status: Seq<char>,
    pub online: bool,
    pub last_message_at: u64,
    pub last_typing_at: u64,
    pub last_seen_at: u64,
    pub created_at: u64,
    pub tier: Option<Seq<char>>,
    pub avatar_data: Option<Seq<char>>,
    pub custom_status: Option<Seq<char>>,
    pub custom_status_emoji: Option<Seq<char>>,
    pub platform_role: Option<Seq<char>>,
    pub is_bot: Option<bool>,
    pub is_platform_agent: Option<bool>,
    pub bot_owner_user_id: Option<Seq<char>>,
    pub is_swarm_member: Option<bool>,
    pub is_steward_projection: Option<bool>,
}

impl View for ChatUser {
    type V = ChatUserV;

    open spec fn view(&self) -> ChatUserV {
        ChatUserV {
            user_id: self.user_id@,
            stdb_identity: self.stdb_identity@,
            display_name: self.display_name@,
            status: self.status@,
            online: self.online,
            last_message_at: self.last_message_at,
            last_typing_at: self.last_typing_at,
            last_seen_at: self.last_seen_at,
            created_at: self.created_at,
            tier: opt_view(self.tier),
            avatar_data: opt_view(self.avatar_data),
            custom_status: opt_view(self.custom_status),
            custom_status_emoji: opt_view(self.custom_status_emoji),
            platform_role: opt_view(self.platform_role),
            is_bot: self.is_bot,
            is_platform_agent: self.is_platform_agent,
            bot_owner_user_id: opt_view(self.bot_owner_user_id),
            is_swarm_member: self.is_swarm_member,
            is_steward_projection: self.is_steward_projection,
        }
    }
}

impl KeyedView for ChatUserV {
    open spec fn key(&self) -> Seq<char> {
        self.user_id
    }
}

impl Row for ChatUser {
    fn key_str(&self) -> (k: &String) {
        &self.user_id
    }
}

/// Private credentials of a bot account.
#[derive(Clone, Debug)]
pub struct AgentCredential {
    pub agent_user_id: String,
    pub owner_user_id: String,
    pub parent_agent_id: Option<String>,
    pub owner_secret: String,
    pub can_spawn: bool,
    pub created_at: u64,
    pub last_active_at: u64,
    pub is_platform_agent: Option<bool>,
}

/// View of a [`AgentCredential`].
pub struct AgentCredentialV {
    pub agent_user_id: Seq<char>,
    pub owner_user_id: Seq<char>,
    pub parent_agent_id: Option<Seq<char>>,
    pub owner_secret: Seq<char>,
    pub can_spawn: bool,
    pub created_at: u64,
    pub last_active_at: u64,
    pub is_platform_agent: Option<bool>,
}

impl View for AgentCredential {
    type V = AgentCredentialV;

    open spec fn view(&self) -> AgentCredentialV {
        AgentCredentialV {
            agent_user_id: self.agent_user_id@,
            owner_user_id: self.owner_user_id@,
            parent_agent_id: opt_view(self.parent_agent_id),
            owner_secret: self.owner_secret@,
            can_spawn: self.can_spawn,
            created_at: self.created_at,
            last_active_at: self.last_active_at,
            is_platform_agent: self.is_platform_agent,
        }
    }
}

impl KeyedView for AgentCredentialV {
    open spec fn key(&self) -> Seq<char> {
        self.agent_user_id
    }
}

impl Row for AgentCredential {
    fn key_str(&self) -> (k: &String) {
        &self.agent_user_id
    }
}

/// Per-tier quotas for bots and servers.
#[derive(Clone, Debug)]
pub struct AgentSpawnLimit {
    pub tier: String,
    pub max_concurrent_agents: u32,
    pub bot_rate_limit_ms: Option<u32>,
    pub max_servers: Option<u32>,
}

/// View of a [`AgentSpawnLimit`].
pub struct AgentSpawnLimitV {
    pub tier: Seq<char>,
    pub max_concurrent_agents: u32,
    pub bot_rate_limit_ms: Option<u32>,
    pub max_servers: Option<u32>,
}

impl View for AgentSpawnLimit {
    type V = AgentSpawnLimitV;

    open spec fn view(&self) -> AgentSpawnLimitV {
        AgentSpawnLimitV {
            tier: self.tier@,
            max_concurrent_agents: self.max_concurrent_agents,
            bot_rate_limit_ms: self.bot_rate_limit_ms,
            max_servers: self.max_servers,
        }
    }
}

impl KeyedView for AgentSpawnLimitV {
    open spec fn key(&self) -> Seq<char> {
        self.tier
    }
}

impl Row for AgentSpawnLimit {
    fn key_str(&self) -> (k: &String) {
        &self.tier
    }
}

/// Persona, model and capability settings of a bot; `temperature` holds the IEEE-754 bit pattern of the sampling temperature.
#[derive(Clone, Debug)]
pub struct AgentConfig {
    pub agent_user_id: String,
    pub owner_user_id: String,
    pub persona_prompt: Option<String>,
    pub personality_preset: Option<String>,
    pub default_model: Option<String>,
    pub temperature: Option<u64>,
    pub max_tokens: Option<u32>,
    pub can_send_messages: Option<bool>,
    pub can_reply_to_threads: Option<bool>,
    pub can_react: Option<bool>,
    pub can_send_gifs: Option<bool>,
    pub can_share_vfs_files: Option<bool>,
    pub can_share_vfs_media: Option<bool>,
    pub can_use_embeds: Option<bool>,
    pub can_create_polls: Option<bool>,
    pub can_pin_messages: Option<bool>,
    pub can_manage_threads: Option<bool>,
    pub require_share_review: Option<bool>,
    pub max_file_size_bytes: Option<u64>,
    pub allowed_share_types: Option<String>,
    pub shares_per_hour: Option<u32>,
    pub auto_respond_mentions: Option<bool>,
    pub owner_only_mentions: Option<bool>,
    pub respond_in_threads_only: Option<bool>,
    pub max_responses_per_minute: Option<u32>,
    pub max_message_length: Option<u32>,
    pub heartbeat_interval_ms: Option<u64>,
    pub loop_detection_enabled: Option<bool>,
    pub mentorship_stage: Option<String>,
    pub created_at: u64,
    pub updated_at: u64,
    pub personality_vector_json: Option<String>,
    pub soul_document: Option<String>,
    pub domain: Option<String>,
    pub demographics_json: Option<String>,
}

/// View of a [`AgentConfig`].
pub struct AgentConfigV {
    pub agent_user_id: Seq<char>,
    pub owner_user_id: Seq<char>,
    pub persona_prompt: Option<Seq<char>>,
    pub personality_preset: Option<Seq<char>>,
    pub default_model: Option<Seq<char>>,
    pub temperature: Option<u64>,
    pub max_tokens: Option<u32>,
    pub can_send_messages: Option<bool>,
    pub can_reply_to_threads: Option<bool>,
    pub can_react: Option<bool>,
    pub can_send_gifs: Option<bool>,
    pub can_share_vfs_files: Option<bool>,
    pub can_share_vfs_media: Option<bool>,
    pub can_use_embeds: Option<bool>,
    pub can_create_polls: Option<bool>,
    pub can_pin_messages: Option<bool>,
    pub can_manage_threads: Option<bool>,
    pub require_share_review: Option<bool>,
    pub max_file_size_bytes: Option<u64>,
    pub allowed_share_types: Option<Seq<char>>,
    pub shares_per_hour: Option<u32>,
    pub auto_respond_mentions: Option<bool>,
    pub owner_only_mentions: Option<bool>,
    pub respond_in_threads_only: Option<bool>,
    pub max_responses_per_minute: Option<u32>,
    pub max_message_length: Option<u32>,
    pub heartbeat_interval_ms: Option<u64>,
    pub loop_detection_enabled: Option<bool>,
    pub mentorship_stage: Option<Seq<char>>,
    pub created_at: u64,
    pub updated_at: u64,
    pub personality_vector_json: Option<Seq<char>>,
    pub soul_document: Option<Seq<char>>,
    pub domain: Option<Seq<char>>,
    pub demographics_json: Option<Seq<char>>,
}

impl View for AgentConfig {
    type V = AgentConfigV;

    open spec fn view(&self) -> AgentConfigV {
        AgentConfigV {
            agent_user_id: self.agent_user_id@,
            owner_user_id: self.owner_user_id@,
            persona_prompt: opt_view(self.persona_prompt),
            personality_preset: opt_view(self.personality_preset),
            default_model: opt_view(self.default_model),
            temperature: self.temperature,
            max_tokens: self.max_tokens,
            can_send_messages: self.can_send_messages,
            can_reply_to_threads: self.can_reply_to_threads,
            can_react: self.can_react,
            can_send_gifs: self.can_send_gifs,
            can_share_vfs_files: self.can_share_vfs_files,
            can_share_vfs_media: self.can_share_vfs_media,
            can_use_embeds: self.can_use_embeds,
            can_create_polls: self.can_create_polls,
            can_pin_messages: self.can_pin_messages,
            can_manage_threads: self.can_manage_threads,
            require_share_review: self.require_share_review,
            max_file_size_bytes: self.max_file_size_bytes,
            allowed_share_types: opt_view(self.allowed_share_types),
            shares_per_hour: self.shares_per_hour,
            auto_respond_mentions: self.auto_respond_mentions,
            owner_only_mentions: self.owner_only_mentions,
            respond_in_threads_only: self.respond_in_threads_only,
            max_responses_per_minute: self.max_responses_per_minute,
            max_message_length: self.max_message_length,
            heartbeat_interval_ms: self.heartbeat_interval_ms,
            loop_detection_enabled: self.loop_detection_enabled,
            mentorship_stage: opt_view(self.mentorship_stage),
            created_at: self.created_at,
            updated_at: self.updated_at,
            personality_vector_json: opt_view(self.personality_vector_json),
            soul_document: opt_view(self.soul_document),
            domain: opt_view(self.domain),
            demographics_json: opt_view(self.demographics_json),
        }
    }
}

impl KeyedView for AgentConfigV {
    open spec fn key(&self) -> Seq<char> {
        self.agent_user_id
    }
}

impl Row for AgentConfig {
    fn key_str(&self) -> (k: &String) {
        &self.agent_user_id
    }
}

/// An admin lock or forced value of one bot capability for a tier.
#[derive(Clone, Debug)]
pub struct AgentCapabilityOverride {
    pub id: String,
    pub tier: String,
    pub capability: String,
    pub forced_value: bool,
    pub locked: bool,
}

/// View of a [`AgentCapabilityOverride`].
pub struct AgentCapabilityOverrideV {
    pub id: Seq<char>,
    pub tier: Seq<char>,
    pub capability: Seq<char>,
    pub forced_value: bool,
    pub locked: bool,
}

impl View for AgentCapabilityOverride {
    type V = AgentCapabilityOverrideV;

    open spec fn view(&self) -> AgentCapabilityOverrideV {
        AgentCapabilityOverrideV {
            id: self.id@,
            tier: self.tier@,
            capability: self.capability@,
            forced_value: self.forced_value,
            locked: self.locked,
        }
    }
}

impl KeyedView for AgentCapabilityOverrideV {
    open spec fn key(&self) -> Seq<char> {
        self.id
    }
}

impl Row for AgentCapabilityOverride {
    fn key_str(&self) -> (k: &String) {
        &self.id
    }
}

/// Link from a connection identity (hex) to an application user id.
#[derive(Clone, Debug)]
pub struct UserIdentityLink {
    pub stdb_identity: String,
    pub user_id: String,
    pub linked_at: u64,
}

/// View of a [`UserIdentityLink`].
pub struct UserIdentityLinkV {
    pub stdb_identity: Seq<char>,
    pub user_id: Seq<char>,
    pub linked_at: u64,
}

impl View for UserIdentityLink {
    type V = UserIdentityLinkV;

    open spec fn view(&self) -> UserIdentityLinkV {
        UserIdentityLinkV {
            stdb_identity: self.stdb_identity@,
            user_id: self.user_id@,
            linked_at: self.linked_at,
        }
    }
}

impl KeyedView for UserIdentityLinkV {
    open spec fn key(&self) -> Seq<char> {
        self.stdb_identity
    }
}

impl Row for UserIdentityLink {
    fn key_str(&self) -> (k: &String) {
        &self.stdb_identity
    }
}

/// A room: a channel, a thread, a forum post or a direct-message room.
#[derive(Clone, Debug)]
pub struct Room {
    pub id: String,
    pub name: String,
    pub created_by: String,
    pub is_private: bool,
    pub is_dm: bool,
    pub created_at: u64,
    pub server_id: Option<String>,
    pub required_tier: Option<String>,
    pub description: Option<String>,
    pub sort_order: Option<u32>,
    pub room_type: String,
    pub category_id: Option<String>,
    pub topic: Option<String>,
    pub slowmode_seconds: Option<u32>,
    pub nsfw: bool,
    pub parent_room_id: Option<String>,
    pub archived: bool,
    pub locked: bool,
    pub auto_archive_minutes: Option<u32>,
    pub default_sort_order: Option<String>,
    pub allow_attachments: Option<bool>,
    pub allow_embeds: Option<bool>,
    pub allow_reactions: Option<bool>,
    pub rules_text: Option<String>,
}

/// View of a [`Room`].
pub struct RoomV {
    pub id: Seq<char>,
    pub name: Seq<char>,
    pub created_by: Seq<char>,
    pub is_private: bool,
    pub is_dm: bool,
    pub created_at: u64,
    pub server_id: Option<Seq<char>>,
    pub required_tier: Option<Seq<char>>,
    pub description: Option<Seq<char>>,
    pub sort_order: Option<u32>,
    pub room_type: Seq<char>,
    pub category_id: Option<Seq<char>>,
    pub topic: Option<Seq<char>>,
    pub slowmode_seconds: Option<u32>,
    pub nsfw: bool,
    pub parent_room_id: Option<Seq<char>>,
    pub archived: bool,
    pub locked: bool,
    pub auto_archive_minutes: Option<u32>,
    pub default_sort_order: Option<Seq<char>>,
    pub allow_attachments: Option<bool>,
    pub allow_embeds: Option<bool>,
    pub allow_reactions: Option<bool>,
    pub rules_text: Option<Seq<char>>,
}

impl View for Room {
    type V = RoomV;

    open spec fn view(&self) -> RoomV {
        RoomV {
            id: self.id@,
            name: self.name@,
            created_by: self.created_by@,
            is_private: self.is_private,
            is_dm: self.is_dm,
            created_at: self.created_at,
            server_id: opt_view(self.server_id),
            required_tier: opt_view(self.required_tier),
            description: opt_view(self.description),
            sort_order: self.sort_order,
            room_type: self.room_type@,
            category_id: opt_view(self.category_id),
            topic: opt_view(self.topic),
            slowmode_seconds: self.slowmode_seconds,
            nsfw: self.nsfw,
            parent_room_id: opt_view(self.parent_room_id),
            archived: self.archived,
            locked: self.locked,
            auto_archive_minutes: self.auto_archive_minutes,
            default_sort_order: opt_view(self.default_sort_order),
            allow_attachments: self.allow_attachments,
            allow_embeds: self.allow_embeds,
            allow_reactions: self.allow_reactions,
            rules_text: opt_view(self.rules_text),
        }
    }
}

impl KeyedView for RoomV {
    open spec fn key(&self) -> Seq<char> {
        self.id
    }
}

impl Row for Room {
    fn key_str(&self) -> (k: &String) {
        &self.id
    }
}

/// Membership of a user in a room, with a room role ("admin", "member", "banned").
#[derive(Clone, Debug)]
pub struct RoomMember {
    pub id: String,
    pub room_id: String,
    pub user_id: String,
    pub role: String,
    pub joined_at: u64,
}

/// View of a [`RoomMember`].
pub struct RoomMemberV {
    pub id: Seq<char>,
    pub room_id: Seq<char>,
    pub user_id: Seq<char>,
    pub role: Seq<char>,
    pub joined_at: u64,
}

impl View for RoomMember {
    type V = RoomMemberV;

    open spec fn view(&self) -> RoomMemberV {
        RoomMemberV {
            id: self.id@,
            room_id: self.room_id@,
            user_id: self.user_id@,
            role: self.role@,
            joined_at: self.joined_at,
        }
    }
}

impl KeyedView for RoomMemberV {
    open spec fn key(&self) -> Seq<char> {
        self.id
    }
}

impl Row for RoomMember {
    fn key_str(&self) -> (k: &String) {
        &self.id
    }
}

/// A chat message.
#[derive(Clone, Debug)]
pub struct Message {
    pub id: String,
    pub room_id: String,
    pub author_id: String,
    pub content: String,
    pub created_at: u64,
    pub edited_at: Option<u64>,
    pub parent_message_id: Option<String>,
    pub is_ephemeral: bool,
    pub expires_at: Option<u64>,
    pub message_type: String,
    pub reply_to_id: Option<String>,
    pub sticker_ids: Option<String>,
    pub mention_everyone: bool,
    pub mentioned_user_ids: Option<String>,
    pub mentioned_role_ids: Option<String>,
    pub flags: u32,
    pub is_bot_author: Option<bool>,
}

/// View of a [`Message`].
pub struct MessageV {
    pub id: Seq<char>,
    pub room_id: Seq<char>,
    pub author_id: Seq<char>,
    pub content: Seq<char>,
    pub created_at: u64,
    pub edited_at: Option<u64>,
    pub parent_message_id: Option<Seq<char>>,
    pub is_ephemeral: bool,
    pub expires_at: Option<u64>,
    pub message_type: Seq<char>,
    pub reply_to_id: Option<Seq<char>>,
    pub sticker_ids: Option<Seq<char>>,
    pub mention_everyone: bool,
    pub mentioned_user_ids: Option<Seq<char>>,
    pub mentioned_role_ids: Option<Seq<char>>,
    pub flags: u32,
    pub is_bot_author: Option<bool>,
}

impl View for Message {
    type V = MessageV;

    open spec fn view(&self) -> MessageV {
        MessageV {
            id: self.id@,
            room_id: self.room_id@,
            author_id: self.author_id@,
            content: self.content@,
            created_at: self.created_at,
            edited_at: self.edited_at,
            parent_message_id: opt_view(self.parent_message_id),
            is_ephemeral: self.is_ephemeral,
            expires_at: self.expires_at,
            message_type: self.message_type@,
            reply_to_id: opt_view(self.reply_to_id),
            sticker_ids: opt_view(self.sticker_ids),
            mention_everyone: self.mention_everyone,
            mentioned_user_ids: opt_view(self.mentioned_user_ids),
            mentioned_role_ids: opt_view(self.mentioned_role_ids),
            flags: self.flags,
            is_bot_author: self.is_bot_author,
        }
    }
}

impl KeyedView for MessageV {
    open spec fn key(&self) -> Seq<char> {
        self.id
    }
}

impl Row for Message {
    fn key_str(&self) -> (k: &String) {
        &self.id
    }
}

/// A server (guild) grouping rooms.
#[derive(Clone, Debug)]
pub struct ChatServer {
    pub id: String,
    pub name: String,
    pub description: String,
    pub audience_id: String,
    pub owner_user_id: String,
    pub is_public: bool,
    pub default_tier: String,
    pub icon_url: String,
    pub created_at: u64,
    pub updated_at: u64,
    pub template: Option<String>,
}

/// View of a [`ChatServer`].
pub struct ChatServerV {
    pub id: Seq<char>,
    pub name: Seq<char>,
    pub description: Seq<char>,
    pub audience_id: Seq<char>,
    pub owner_user_id: Seq<char>,
    pub is_public: bool,
    pub default_tier: Seq<char>,
    pub icon_url: Seq<char>,
    pub created_at: u64,
    pub updated_at: u64,
    pub template: Option<Seq<char>>,
}

impl View for ChatServer {
    type V = ChatServerV;

    open spec fn view(&self) -> ChatServerV {
        ChatServerV {
            id: self.id@,
            name: self.name@,
            description: self.description@,
            audience_id: self.audience_id@,
            owner_user_id: self.owner_user_id@,
            is_public: self.is_public,
            default_tier: self.default_tier@,
            icon_url: self.icon_url@,
            created_at: self.created_at,
            updated_at: self.updated_at,
            template: opt_view(self.template),
        }
    }
}

impl KeyedView for ChatServerV {
    open spec fn key(&self) -> Seq<char> {
        self.id
    }
}

impl Row for ChatServer {
    fn key_str(&self) -> (k: &String) {
        &self.id
    }
}

/// Membership of a user in a server ("owner", "admin", "moderator", "member", "banned").
#[derive(Clone, Debug)]
pub struct ServerMember {
    pub id: String,
    pub server_id: String,
    pub user_id: String,
    pub role: String,
    pub joined_at: u64,
    pub nickname: Option<String>,
    pub timeout_until: Option<u64>,
    pub deaf: bool,
    pub mute: bool,
}

/// View of a [`ServerMember`].
pub struct ServerMemberV {
    pub id: Seq<char>,
    pub server_id: Seq<char>,
    pub user_id: Seq<char>,
    pub role: Seq<char>,
    pub joined_at: u64,
    pub nickname: Option<Seq<char>>,
    pub timeout_until: Option<u64>,
    pub deaf: bool,
    pub mute: bool,
}

impl View for ServerMember {
    type V = ServerMemberV;

    open spec fn view(&self) -> ServerMemberV {
        ServerMemberV {
            id: self.id@,
            server_id: self.server_id@,
            user_id: self.user_id@,
            role: self.role@,
            joined_at: self.joined_at,
            nickname: opt_view(self.nickname),
            timeout_until: self.timeout_until,
            deaf: self.deaf,
            mute: self.mute,
        }
    }
}

impl KeyedView for ServerMemberV {
    open spec fn key(&self) -> Seq<char> {
        self.id
    }
}

impl Row for ServerMember {
    fn key_str(&self) -> (k: &String) {
        &self.id
    }
}

/// A channel category of a server.
#[derive(Clone, Debug)]
pub struct ChannelCategory {
    pub id: String,
    pub server_id: String,
    pub name: String,
    pub sort_order: u32,
    pub created_at: u64,
}

/// View of a [`ChannelCategory`].
pub struct ChannelCategoryV {
    pub id: Seq<char>,
    pub server_id: Seq<char>,
    pub name: Seq<char>,
    pub sort_order: u32,
    pub created_at: u64,
}

impl View for ChannelCategory {
    type V = ChannelCategoryV;

    open spec fn view(&self) -> ChannelCategoryV {
        ChannelCategoryV {
            id: self.id@,
            server_id: self.server_id@,
            name: self.name@,
            sort_order: self.sort_order,
            created_at: self.created_at,
        }
    }
}

impl KeyedView for ChannelCategoryV {
    open spec fn key(&self) -> Seq<char> {
        self.id
    }
}

impl Row for ChannelCategory {
    fn key_str(&self) -> (k: &String) {
        &self.id
    }
}

/// A role of a server with its permission bits.
#[derive(Clone, Debug)]
pub struct ServerRole {
    pub id: String,
    pub server_id: String,
    pub name: String,
    pub color: String,
    pub permissions: u64,
    pub sort_order: u32,
    pub is_default: bool,
    pub mentionable: bool,
    pub created_at: u64,
}

/// View of a [`ServerRole`].
pub struct ServerRoleV {
    pub id: Seq<char>,
    pub server_id: Seq<char>,
    pub name: Seq<char>,
    pub color: Seq<char>,
    pub permissions: u64,
    pub sort_order: u32,
    pub is_default: bool,
    pub mentionable: bool,
    pub created_at: u64,
}

impl View for ServerRole {
    type V = ServerRoleV;

    open spec fn view(&self) -> ServerRoleV {
        ServerRoleV {
            id: self.id@,
            server_id: self.server_id@,
            name: self.name@,
            color: self.color@,
            permissions: self.permissions,
            sort_order: self.sort_order,
            is_default: self.is_default,
            mentionable: self.mentionable,
            created_at: self.created_at,
        }
    }
}

impl KeyedView for ServerRoleV {
    open spec fn key(&self) -> Seq<char> {
        self.id
    }
}

impl Row for ServerRole {
    fn key_str(&self) -> (k: &String) {
        &self.id
    }
}

/// Assignment of a server role to a member.
#[derive(Clone, Debug)]
pub struct MemberRole {
    pub id: String,
    pub server_id: String,
    pub user_id: String,
    pub role_id: String,
    pub assigned_at: u64,
}

/// View of a [`MemberRole`].
pub struct MemberRoleV {
    pub id: Seq<char>,
    pub server_id: Seq<char>,
    pub user_id: Seq<char>,
    pub role_id: Seq<char>,
    pub assigned_at: u64,
}

impl View for MemberRole {
    type V = MemberRoleV;

    open spec fn view(&self) -> MemberRoleV {
        MemberRoleV {
            id: self.id@,
            server_id: self.server_id@,
            user_id: self.user_id@,
            role_id: self.role_id@,
            assigned_at: self.assigned_at,
        }
    }
}

impl KeyedView for MemberRoleV {
    open spec fn key(&self) -> Seq<char> {
        self.id
    }
}

impl Row for MemberRole {
    fn key_str(&self) -> (k: &String) {
        &self.id
    }
}

/// Permission override of a room for a role or a member.
#[derive(Clone, Debug)]
pub struct ChannelOverride {
    pub id: String,
    pub room_id: String,
    pub target_type: String,
    pub target_id: String,
    pub allow: u64,
    pub deny: u64,
}

/// View of a [`ChannelOverride`].
pub struct ChannelOverrideV {
    pub id: Seq<char>,
    pub room_id: Seq<char>,
    pub target_type: Seq<char>,
    pub target_id: Seq<char>,
    pub allow: u64,
    pub deny: u64,
}

impl View for ChannelOverride {
    type V = ChannelOverrideV;

    open spec fn view(&self) -> ChannelOverrideV {
        ChannelOverrideV {
            id: self.id@,
            room_id: self.room_id@,
            target_type: self.target_type@,
            target_id: self.target_id@,
            allow: self.allow,
            deny: self.deny,
        }
    }
}

impl KeyedView for ChannelOverrideV {
    open spec fn key(&self) -> Seq<char> {
        self.id
    }
}

impl Row for ChannelOverride {
    fn key_str(&self) -> (k: &String) {
        &self.id
    }
}

/// A private configuration value of the service.
#[derive(Clone, Debug)]
pub struct SystemConfig {
    pub key: String,
    pub value: String,
    pub updated_at: u64,
}

/// View of a [`SystemConfig`].
pub struct SystemConfigV {
    pub key: Seq<char>,
    pub value: Seq<char>,
    pub updated_at: u64,
}

impl View for SystemConfig {
    type V = SystemConfigV;

    open spec fn view(&self) -> SystemConfigV {
        SystemConfigV {
            key: self.key@,
            value: self.value@,
            updated_at: self.updated_at,
        }
    }
}

impl KeyedView for SystemConfigV {
    open spec fn key(&self) -> Seq<char> {
        self.key
    }
}

impl Row for SystemConfig {
    fn key_str(&self) -> (k: &String) {
        &self.key
    }
}

/// A "user is typing" marker.
#[derive(Clone, Debug)]
pub struct TypingIndicator {
    pub id: String,
    pub room_id: String,
    pub user_id: String,
    pub expires_at: u64,
}

/// View of a [`TypingIndicator`].
pub struct TypingIndicatorV {
    pub id: Seq<char>,
    pub room_id: Seq<char>,
    pub user_id: Seq<char>,
    pub expires_at: u64,
}

impl View for TypingIndicator {
    type V = TypingIndicatorV;

    open spec fn view(&self) -> TypingIndicatorV {
        TypingIndicatorV {
            id: self.id@,
            room_id: self.room_id@,
            user_id: self.user_id@,
            expires_at: self.expires_at,
        }
    }
}

impl KeyedView for TypingIndicatorV {
    open spec fn key(&self) -> Seq<char> {
        self.id
    }
}

impl Row for TypingIndicator {
    fn key_str(&self) -> (k: &String) {
        &self.id
    }
}

/// A scheduled expiry of a typing marker (the database numbers the job).
#[derive(Clone, Debug)]
pub struct TypingExpiryJob {
    pub scheduled_id: u64,
    pub scheduled_at: ScheduleAt,
    pub typing_indicator_id: String,
}

/// View of a [`TypingExpiryJob`].
pub struct TypingExpiryJobV {
    pub scheduled_id: u64,
    pub scheduled_at: ScheduleAt,
    pub typing_indicator_id: Seq<char>,
}

impl View for TypingExpiryJob {
    type V = TypingExpiryJobV;

    open spec fn view(&self) -> TypingExpiryJobV {
        TypingExpiryJobV {
            scheduled_id: self.scheduled_id,
            scheduled_at: self.scheduled_at,
            typing_indicator_id: self.typing_indicator_id@,
        }
    }
}

/// A scheduled sweep of idle sub-agents (the database numbers the job).
#[derive(Clone, Debug)]
pub struct AgentCleanupJob {
    pub scheduled_id: u64,
    pub scheduled_at: ScheduleAt,
}

/// View of a [`AgentCleanupJob`].
pub struct AgentCleanupJobV {
    pub scheduled_id: u64,
    pub scheduled_at: ScheduleAt,
}

impl View for AgentCleanupJob {
    type V = AgentCleanupJobV;

    open spec fn view(&self) -> AgentCleanupJobV {
        AgentCleanupJobV {
            scheduled_id: self.scheduled_id,
            scheduled_at: self.scheduled_at,
        }
    }
}

/// An emoji reaction on a message.
#[derive(Clone, Debug)]
pub struct Reaction {
    pub id: String,
    pub message_id: String,
    pub user_id: String,
    pub emoji: String,
    pub created_at: u64,
    pub room_id: Option<String>,
}

/// View of a [`Reaction`].
pub struct ReactionV {
    pub id: Seq<char>,
    pub message_id: Seq<char>,
    pub user_id: Seq<char>,
    pub emoji: Seq<char>,
    pub created_at: u64,
    pub room_id: Option<Seq<char>>,
}

impl View for Reaction {
    type V = ReactionV;

    open spec fn view(&self) -> ReactionV {
        ReactionV {
            id: self.id@,
            message_id: self.message_id@,
            user_id: self.user_id@,
            emoji: self.emoji@,
            created_at: self.created_at,
            room_id: opt_view(self.room_id),
        }
    }
}

impl KeyedView for ReactionV {
    open spec fn key(&self) -> Seq<char> {
        self.id
    }
}

impl Row for Reaction {
    fn key_str(&self) -> (k: &String) {
        &self.id
    }
}

/// Room-scoped copy of a reaction, keyed by the reaction id.
#[derive(Clone, Debug)]
pub struct ReactionRoomIndex {
    pub reaction_id: String,
    pub room_id: String,
    pub message_id: String,
    pub user_id: String,
    pub emoji: String,
    pub created_at: u64,
}

/// View of a [`ReactionRoomIndex`].
pub struct ReactionRoomIndexV {
    pub reaction_id: Seq<char>,
    pub room_id: Seq<char>,
    pub message_id: Seq<char>,
    pub user_id: Seq<char>,
    pub emoji: Seq<char>,
    pub created_at: u64,
}

impl View for ReactionRoomIndex {
    type V = ReactionRoomIndexV;

    open spec fn view(&self) -> ReactionRoomIndexV {
        ReactionRoomIndexV {
            reaction_id: self.reaction_id@,
            room_id: self.room_id@,
            message_id: self.message_id@,
            user_id: self.user_id@,
            emoji: self.emoji@,
            created_at: self.created_at,
        }
    }
}

impl KeyedView for ReactionRoomIndexV {
    open spec fn key(&self) -> Seq<char> {
        self.reaction_id
    }
}

impl Row for ReactionRoomIndex {
    fn key_str(&self) -> (k: &String) {
        &self.reaction_id
    }
}

/// One entry of the edit history of a message.
#[derive(Clone, Debug)]
pub struct MessageEdit {
    pub id: String,
    pub message_id: String,
    pub editor_id: String,
    pub old_content: String,
    pub new_content: String,
    pub edited_at: u64,
    pub room_id: Option<String>,
}

/// View of a [`MessageEdit`].
pub struct MessageEditV {
    pub id: Seq<char>,
    pub message_id: Seq<char>,
    pub editor_id: Seq<char>,
    pub old_content: Seq<char>,
    pub new_content: Seq<char>,
    pub edited_at: u64,
    pub room_id: Option<Seq<char>>,
}

impl View for MessageEdit {
    type V = MessageEditV;

    open spec fn view(&self) -> MessageEditV {
        MessageEditV {
            id: self.id@,
            message_id: self.message_id@,
            editor_id: self.editor_id@,
            old_content: self.old_content@,
            new_content: self.new_content@,
            edited_at: self.edited_at,
            room_id: opt_view(self.room_id),
        }
    }
}

impl KeyedView for MessageEditV {
    open spec fn key(&self) -> Seq<char> {
        self.id
    }
}

impl Row for MessageEdit {
    fn key_str(&self) -> (k: &String) {
        &self.id
    }
}

/// Room-scoped copy of a message edit, keyed by the edit id.
#[derive(Clone, Debug)]
pub struct MessageEditRoomIndex {
    pub edit_id: String,
    pub room_id: String,
    pub message_id: String,
    pub editor_id: String,
    pub edited_at: u64,
    pub new_content: String,
}

/// View of a [`MessageEditRoomIndex`].
pub struct MessageEditRoomIndexV {
    pub edit_id: Seq<char>,
    pub room_id: Seq<char>,
    pub message_id: Seq<char>,
    pub editor_id: Seq<char>,
    pub edited_at: u64,
    pub new_content: Seq<char>,
}

impl View for MessageEditRoomIndex {
    type V = MessageEditRoomIndexV;

    open spec fn view(&self) -> MessageEditRoomIndexV {
        MessageEditRoomIndexV {
            edit_id: self.edit_id@,
            room_id: self.room_id@,
            message_id: self.message_id@,
            editor_id: self.editor_id@,
            edited_at: self.edited_at,
            new_content: self.new_content@,
        }
    }
}

impl KeyedView for MessageEditRoomIndexV {
    open spec fn key(&self) -> Seq<char> {
        self.edit_id
    }
}

impl Row for MessageEditRoomIndex {
    fn key_str(&self) -> (k: &String) {
        &self.edit_id
    }
}

/// A pinned message.
#[derive(Clone, Debug)]
pub struct PinnedMessage {
    pub id: String,
    pub room_id: String,
    pub message_id: String,
    pub pinned_by: String,
    pub pinned_at: u64,
}

/// View of a [`PinnedMessage`].
pub struct PinnedMessageV {
    pub id: Seq<char>,
    pub room_id: Seq<char>,
    pub message_id: Seq<char>,
    pub pinned_by: Seq<char>,
    pub pinned_at: u64,
}

impl View for PinnedMessage {
    type V = PinnedMessageV;

    open spec fn view(&self) -> PinnedMessageV {
        PinnedMessageV {
            id: self.id@,
            room_id: self.room_id@,
            message_id: self.message_id@,
            pinned_by: self.pinned_by@,
            pinned_at: self.pinned_at,
        }
    }
}

impl KeyedView for PinnedMessageV {
    open spec fn key(&self) -> Seq<char> {
        self.id
    }
}

impl Row for PinnedMessage {
    fn key_str(&self) -> (k: &String) {
        &self.id
    }
}

/// A file attached to a message.
#[derive(Clone, Debug)]
pub struct MessageAttachment {
    pub id: String,
    pub message_id: String,
    pub room_id: String,
    pub file_name: String,
    pub file_url: String,
    pub content_type: String,
    pub file_size: u64,
    pub width: Option<u32>,
    pub height: Option<u32>,
    pub is_spoiler: bool,
    pub created_at: u64,
}

/// View of a [`MessageAttachment`].
pub struct MessageAttachmentV {
    pub id: Seq<char>,
    pub message_id: Seq<char>,
    pub room_id: Seq<char>,
    pub file_name: Seq<char>,
    pub file_url: Seq<char>,
    pub content_type: Seq<char>,
    pub file_size: u64,
    pub width: Option<u32>,
    pub height: Option<u32>,
    pub is_spoiler: bool,
    pub created_at: u64,
}

impl View for MessageAttachment {
    type V = MessageAttachmentV;

    open spec fn view(&self) -> MessageAttachmentV {
        MessageAttachmentV {
            id: self.id@,
            message_id: self.message_id@,
            room_id: self.room_id@,
            file_name: self.file_name@,
            file_url: self.file_url@,
            content_type: self.content_type@,
            file_size: self.file_size,
            width: self.width,
            height: self.height,
            is_spoiler: self.is_spoiler,
            created_at: self.created_at,
        }
    }
}

impl KeyedView for MessageAttachmentV {
    open spec fn key(&self) -> Seq<char> {
        self.id
    }
}

impl Row for MessageAttachment {
    fn key_str(&self) -> (k: &String) {
        &self.id
    }
}

/// A user's bookmark of a message.
#[derive(Clone, Debug)]
pub struct Bookmark {
    pub id: String,
    pub user_id: String,
    pub message_id: String,
    pub room_id: String,
    pub note: Option<String>,
    pub created_at: u64,
}

/// View of a [`Bookmark`].
pub struct BookmarkV {
    pub id: Seq<char>,
    pub user_id: Seq<char>,
    pub message_id: Seq<char>,
    pub room_id: Seq<char>,
    pub note: Option<Seq<char>>,
    pub created_at: u64,
}

impl View for Bookmark {
    type V = BookmarkV;

    open spec fn view(&self) -> BookmarkV {
        BookmarkV {
            id: self.id@,
            user_id: self.user_id@,
            message_id: self.message_id@,
            room_id: self.room_id@,
            note: opt_view(self.note),
            created_at: self.created_at,
        }
    }
}

impl KeyedView for BookmarkV {
    open spec fn key(&self) -> Seq<char> {
        self.id
    }
}

impl Row for Bookmark {
    fn key_str(&self) -> (k: &String) {
        &self.id
    }
}

/// How far a user has read in a room.
#[derive(Clone, Debug)]
pub struct ReadPosition {
    pub id: String,
    pub user_id: String,
    pub room_id: String,
    pub last_read_message_id: String,
    pub updated_at: u64,
}

/// View of a [`ReadPosition`].
pub struct ReadPositionV {
    pub id: Seq<char>,
    pub user_id: Seq<char>,
    pub room_id: Seq<char>,
    pub last_read_message_id: Seq<char>,
    pub updated_at: u64,
}

impl View for ReadPosition {
    type V = ReadPositionV;

    open spec fn view(&self) -> ReadPositionV {
        ReadPositionV {
            id: self.id@,
            user_id: self.user_id@,
            room_id: self.room_id@,
            last_read_message_id: self.last_read_message_id@,
            updated_at: self.updated_at,
        }
    }
}

impl KeyedView for ReadPositionV {
    open spec fn key(&self) -> Seq<char> {
        self.id
    }
}

impl Row for ReadPosition {
    fn key_str(&self) -> (k: &String) {
        &self.id
    }
}

/// A poll posted in a room.
#[derive(Clone, Debug)]
pub struct Poll {
    pub id: String,
    pub room_id: String,
    pub message_id: String,
    pub question: String,
    pub options: String,
    pub allow_multiple: bool,
    pub anonymous: bool,
    pub closed: bool,
    pub created_by: String,
    pub created_at: u64,
    pub expires_at: Option<u64>,
}

/// View of a [`Poll`].
pub struct PollV {
    pub id: Seq<char>,
    pub room_id: Seq<char>,
    pub message_id: Seq<char>,
    pub question: Seq<char>,
    pub options: Seq<char>,
    pub allow_multiple: bool,
    pub anonymous: bool,
    pub closed: bool,
    pub created_by: Seq<char>,
    pub created_at: u64,
    pub expires_at: Option<u64>,
}

impl View for Poll {
    type V = PollV;

    open spec fn view(&self) -> PollV {
        PollV {
            id: self.id@,
            room_id: self.room_id@,
            message_id: self.message_id@,
            question: self.question@,
            options: self.options@,
            allow_multiple: self.allow_multiple,
            anonymous: self.anonymous,
            closed: self.closed,
            created_by: self.created_by@,
            created_at: self.created_at,
            expires_at: self.expires_at,
        }
    }
}

impl KeyedView for PollV {
    open spec fn key(&self) -> Seq<char> {
        self.id
    }
}

impl Row for Poll {
    fn key_str(&self) -> (k: &String) {
        &self.id
    }
}

/// One vote in a poll.
#[derive(Clone, Debug)]
pub struct PollVote {
    pub id: String,
    pub poll_id: String,
    pub room_id: String,
    pub user_id: String,
    pub option_index: u32,
    pub created_at: u64,
}

/// View of a [`PollVote`].
pub struct PollVoteV {
    pub id: Seq<char>,
    pub poll_id: Seq<char>,
    pub room_id: Seq<char>,
    pub user_id: Seq<char>,
    pub option_index: u32,
    pub created_at: u64,
}

impl View for PollVote {
    type V = PollVoteV;

    open spec fn view(&self) -> PollVoteV {
        PollVoteV {
            id: self.id@,
            poll_id: self.poll_id@,
            room_id: self.room_id@,
            user_id: self.user_id@,
            option_index: self.option_index,
            created_at: self.created_at,
        }
    }
}

impl KeyedView for PollVoteV {
    open spec fn key(&self) -> Seq<char> {
        self.id
    }
}

impl Row for PollVote {
    fn key_str(&self) -> (k: &String) {
        &self.id
    }
}

/// A message queued for later delivery.
#[derive(Clone, Debug)]
pub struct ScheduledMessage {
    pub id: String,
    pub room_id: String,
    pub author_id: String,
    pub content: String,
    pub send_at: u64,
    pub created_at: u64,
    pub job_id: u64,
}

/// View of a [`ScheduledMessage`].
pub struct ScheduledMessageV {
    pub id: Seq<char>,
    pub room_id: Seq<char>,
    pub author_id: Seq<char>,
    pub content: Seq<char>,
    pub send_at: u64,
    pub created_at: u64,
    pub job_id: u64,
}

impl View for ScheduledMessage {
    type V = ScheduledMessageV;

    open spec fn view(&self) -> ScheduledMessageV {
        ScheduledMessageV {
            id: self.id@,
            room_id: self.room_id@,
            author_id: self.author_id@,
            content: self.content@,
            send_at: self.send_at,
            created_at: self.created_at,
            job_id: self.job_id,
        }
    }
}

impl KeyedView for ScheduledMessageV {
    open spec fn key(&self) -> Seq<char> {
        self.id
    }
}

impl Row for ScheduledMessage {
    fn key_str(&self) -> (k: &String) {
        &self.id
    }
}

/// Unsent text a user left in a room.
#[derive(Clone, Debug)]
pub struct Draft {
    pub id: String,
    pub user_id: String,
    pub room_id: String,
    pub content: String,
    pub updated_at: u64,
}

/// View of a [`Draft`].
pub struct DraftV {
    pub id: Seq<char>,
    pub user_id: Seq<char>,
    pub room_id: Seq<char>,
    pub content: Seq<char>,
    pub updated_at: u64,
}

impl View for Draft {
    type V = DraftV;

    open spec fn view(&self) -> DraftV {
        DraftV {
            id: self.id@,
            user_id: self.user_id@,
            room_id: self.room_id@,
            content: self.content@,
            updated_at: self.updated_at,
        }
    }
}

impl KeyedView for DraftV {
    open spec fn key(&self) -> Seq<char> {
        self.id
    }
}

impl Row for Draft {
    fn key_str(&self) -> (k: &String) {
        &self.id
    }
}

/// Invitation of a user into a private room ("pending", "accepted", "declined").
#[derive(Clone, Debug)]
pub struct RoomInvitation {
    pub id: String,
    pub room_id: String,
    pub inviter_id: String,
    pub invitee_id: String,
    pub status: String,
    pub created_at: u64,
}

/// View of a [`RoomInvitation`].
pub struct RoomInvitationV {
    pub id: Seq<char>,
    pub room_id: Seq<char>,
    pub inviter_id: Seq<char>,
    pub invitee_id: Seq<char>,
    pub status: Seq<char>,
    pub created_at: u64,
}

impl View for RoomInvitation {
    type V = RoomInvitationV;

    open spec fn view(&self) -> RoomInvitationV {
        RoomInvitationV {
            id: self.id@,
            room_id: self.room_id@,
            inviter_id: self.inviter_id@,
            invitee_id: self.invitee_id@,
            status: self.status@,
            created_at: self.created_at,
        }
    }
}

impl KeyedView for RoomInvitationV {
    open spec fn key(&self) -> Seq<char> {
        self.id
    }
}

impl Row for RoomInvitation {
    fn key_str(&self) -> (k: &String) {
        &self.id
    }
}

/// An incoming webhook of a room.
#[derive(Clone, Debug)]
pub struct Webhook {
    pub id: String,
    pub room_id: String,
    pub name: String,
    pub token: String,
    pub created_by: String,
    pub avatar_url: Option<String>,
    pub created_at: u64,
}

/// View of a [`Webhook`].
pub struct WebhookV {
    pub id: Seq<char>,
    pub room_id: Seq<char>,
    pub name: Seq<char>,
    pub token: Seq<char>,
    pub created_by: Seq<char>,
    pub avatar_url: Option<Seq<char>>,
    pub created_at: u64,
}

impl View for Webhook {
    type V = WebhookV;

    open spec fn view(&self) -> WebhookV {
        WebhookV {
            id: self.id@,
            room_id: self.room_id@,
            name: self.name@,
            token: self.token@,
            created_by: self.created_by@,
            avatar_url: opt_view(self.avatar_url),
            created_at: self.created_at,
        }
    }
}

impl KeyedView for WebhookV {
    open spec fn key(&self) -> Seq<char> {
        self.id
    }
}

impl Row for Webhook {
    fn key_str(&self) -> (k: &String) {
        &self.id
    }
}

/// A timeout of a server member (no messages until it expires).
#[derive(Clone, Debug)]
pub struct MemberTimeout {
    pub id: String,
    pub server_id: String,
    pub user_id: String,
    pub reason: Option<String>,
    pub expires_at: u64,
    pub issued_by: String,
    pub created_at: u64,
}

/// View of a [`MemberTimeout`].
pub struct MemberTimeoutV {
    pub id: Seq<char>,
    pub server_id: Seq<char>,
    pub user_id: Seq<char>,
    pub reason: Option<Seq<char>>,
    pub expires_at: u64,
    pub issued_by: Seq<char>,
    pub created_at: u64,
}

impl View for MemberTimeout {
    type V = MemberTimeoutV;

    open spec fn view(&self) -> MemberTimeoutV {
        MemberTimeoutV {
            id: self.id@,
            server_id: self.server_id@,
            user_id: self.user_id@,
            reason: opt_view(self.reason),
            expires_at: self.expires_at,
            issued_by: self.issued_by@,
            created_at: self.created_at,
        }
    }
}

impl KeyedView for MemberTimeoutV {
    open spec fn key(&self) -> Seq<char> {
        self.id
    }
}

impl Row for MemberTimeout {
    fn key_str(&self) -> (k: &String) {
        &self.id
    }
}

/// A scheduled end of a member timeout (the database numbers the job).
#[derive(Clone, Debug)]
pub struct TimeoutExpiryJob {
    pub scheduled_id: u64,
    pub scheduled_at: ScheduleAt,
    pub timeout_id: String,
}

/// View of a [`TimeoutExpiryJob`].
pub struct TimeoutExpiryJobV {
    pub scheduled_id: u64,
    pub scheduled_at: ScheduleAt,
    pub timeout_id: Seq<char>,
}

impl View for TimeoutExpiryJob {
    type V = TimeoutExpiryJobV;

    open spec fn view(&self) -> TimeoutExpiryJobV {
        TimeoutExpiryJobV {
            scheduled_id: self.scheduled_id,
            scheduled_at: self.scheduled_at,
            timeout_id: self.timeout_id@,
        }
    }
}

/// A scheduled removal of an ephemeral message (the database numbers the job).
#[derive(Clone, Debug)]
pub struct EphemeralCleanupJob {
    pub scheduled_id: u64,
    pub scheduled_at: ScheduleAt,
    pub message_id: String,
}

/// View of a [`EphemeralCleanupJob`].
pub struct EphemeralCleanupJobV {
    pub scheduled_id: u64,
    pub scheduled_at: ScheduleAt,
    pub message_id: Seq<char>,
}

impl View for EphemeralCleanupJob {
    type V = EphemeralCleanupJobV;

    open spec fn view(&self) -> EphemeralCleanupJobV {
        EphemeralCleanupJobV {
            scheduled_id: self.scheduled_id,
            scheduled_at: self.scheduled_at,
            message_id: self.message_id@,
        }
    }
}

/// A scheduled delivery of a queued message (the database numbers the job).
#[derive(Clone, Debug)]
pub struct ScheduledDeliveryJob {
    pub scheduled_id: u64,
    pub scheduled_at: ScheduleAt,
    pub scheduled_message_id: String,
}

/// View of a [`ScheduledDeliveryJob`].
pub struct ScheduledDeliveryJobV {
    pub scheduled_id: u64,
    pub scheduled_at: ScheduleAt,
    pub scheduled_message_id: Seq<char>,
}

impl View for ScheduledDeliveryJob {
    type V = ScheduledDeliveryJobV;

    open spec fn view(&self) -> ScheduledDeliveryJobV {
        ScheduledDeliveryJobV {
            scheduled_id: self.scheduled_id,
            scheduled_at: self.scheduled_at,
            scheduled_message_id: self.scheduled_message_id@,
        }
    }
}

/// A block of one user by another; the blocked side is stored hashed.
#[derive(Clone, Debug)]
pub struct UserBlock {
    pub id: String,
    pub blocker_id: String,
    pub blocked_id: String,
    pub created_at: u64,
}

/// View of a [`UserBlock`].
pub struct UserBlockV {
    pub id: Seq<char>,
    pub blocker_id: Seq<char>,
    pub blocked_id: Seq<char>,
    pub created_at: u64,
}

impl View for UserBlock {
    type V = UserBlockV;

    open spec fn view(&self) -> UserBlockV {
        UserBlockV {
            id: self.id@,
            blocker_id: self.blocker_id@,
            blocked_id: self.blocked_id@,
            created_at: self.created_at,
        }
    }
}

impl KeyedView for UserBlockV {
    open spec fn key(&self) -> Seq<char> {
        self.id
    }
}

impl Row for UserBlock {
    fn key_str(&self) -> (k: &String) {
        &self.id
    }
}

/// Notification level of a user for a server or room.
#[derive(Clone, Debug)]
pub struct NotificationSetting {
    pub id: String,
    pub user_id: String,
    pub target_type: String,
    pub target_id: String,
    pub level: String,
    pub suppress_everyone: bool,
    pub suppress_roles: bool,
    pub muted_until: Option<u64>,
    pub updated_at: u64,
}

/// View of a [`NotificationSetting`].
pub struct NotificationSettingV {
    pub id: Seq<char>,
    pub user_id: Seq<char>,
    pub target_type: Seq<char>,
    pub target_id: Seq<char>,
    pub level: Seq<char>,
    pub suppress_everyone: bool,
    pub suppress_roles: bool,
    pub muted_until: Option<u64>,
    pub updated_at: u64,
}

impl View for NotificationSetting {
    type V = NotificationSettingV;

    open spec fn view(&self) -> NotificationSettingV {
        NotificationSettingV {
            id: self.id@,
            user_id: self.user_id@,
            target_type: self.target_type@,
            target_id: self.target_id@,
            level: self.level@,
            suppress_everyone: self.suppress_everyone,
            suppress_roles: self.suppress_roles,
            muted_until: self.muted_until,
            updated_at: self.updated_at,
        }
    }
}

impl KeyedView for NotificationSettingV {
    open spec fn key(&self) -> Seq<char> {
        self.id
    }
}

impl Row for NotificationSetting {
    fn key_str(&self) -> (k: &String) {
        &self.id
    }
}

/// A custom emoji of a server.
#[derive(Clone, Debug)]
pub struct ServerEmoji {
    pub id: String,
    pub server_id: String,
    pub name: String,
    pub image_data: String,
    pub animated: bool,
    pub uploaded_by: String,
    pub created_at: u64,
}

/// View of a [`ServerEmoji`].
pub struct ServerEmojiV {
    pub id: Seq<char>,
    pub server_id: Seq<char>,
    pub name: Seq<char>,
    pub image_data: Seq<char>,
    pub animated: bool,
    pub uploaded_by: Seq<char>,
    pub created_at: u64,
}

impl View for ServerEmoji {
    type V = ServerEmojiV;

    open spec fn view(&self) -> ServerEmojiV {
        ServerEmojiV {
            id: self.id@,
            server_id: self.server_id@,
            name: self.name@,
            image_data: self.image_data@,
            animated: self.animated,
            uploaded_by: self.uploaded_by@,
            created_at: self.created_at,
        }
    }
}

impl KeyedView for ServerEmojiV {
    open spec fn key(&self) -> Seq<char> {
        self.id
    }
}

impl Row for ServerEmoji {
    fn key_str(&self) -> (k: &String) {
        &self.id
    }
}

/// An invite code into a server.
#[derive(Clone, Debug)]
pub struct ServerInvite {
    pub code: String,
    pub server_id: String,
    pub created_by: String,
    pub max_uses: Option<u32>,
    pub uses: u32,
    pub expires_at: Option<u64>,
    pub created_at: u64,
}

/// View of a [`ServerInvite`].
pub struct ServerInviteV {
    pub code: Seq<char>,
    pub server_id: Seq<char>,
    pub created_by: Seq<char>,
    pub max_uses: Option<u32>,
    pub uses: u32,
    pub expires_at: Option<u64>,
    pub created_at: u64,
}

impl View for ServerInvite {
    type V = ServerInviteV;

    open spec fn view(&self) -> ServerInviteV {
        ServerInviteV {
            code: self.code@,
            server_id: self.server_id@,
            created_by: self.created_by@,
            max_uses: self.max_uses,
            uses: self.uses,
            expires_at: self.expires_at,
            created_at: self.created_at,
        }
    }
}

impl KeyedView for ServerInviteV {
    open spec fn key(&self) -> Seq<char> {
        self.code
    }
}

impl Row for ServerInvite {
    fn key_str(&self) -> (k: &String) {
        &self.code
    }
}

/// A tag that posts of a forum room can carry.
#[derive(Clone, Debug)]
pub struct ForumTag {
    pub id: String,
    pub room_id: String,
    pub name: String,
    pub emoji: Option<String>,
    pub color: Option<String>,
    pub sort_order: u32,
}

/// View of a [`ForumTag`].
pub struct ForumTagV {
    pub id: Seq<char>,
    pub room_id: Seq<char>,
    pub name: Seq<char>,
    pub emoji: Option<Seq<char>>,
    pub color: Option<Seq<char>>,
    pub sort_order: u32,
}

impl View for ForumTag {
    type V = ForumTagV;

    open spec fn view(&self) -> ForumTagV {
        ForumTagV {
            id: self.id@,
            room_id: self.room_id@,
            name: self.name@,
            emoji: opt_view(self.emoji),
            color: opt_view(self.color),
            sort_order: self.sort_order,
        }
    }
}

impl KeyedView for ForumTagV {
    open spec fn key(&self) -> Seq<char> {
        self.id
    }
}

impl Row for ForumTag {
    fn key_str(&self) -> (k: &String) {
        &self.id
    }
}

/// A tag applied to a forum post.
#[derive(Clone, Debug)]
pub struct ForumPostTag {
    pub id: String,
    pub thread_room_id: String,
    pub tag_id: String,
}

/// View of a [`ForumPostTag`].
pub struct ForumPostTagV {
    pub id: Seq<char>,
    pub thread_room_id: Seq<char>,
    pub tag_id: Seq<char>,
}

impl View for ForumPostTag {
    type V = ForumPostTagV;

    open spec fn view(&self) -> ForumPostTagV {
        ForumPostTagV {
            id: self.id@,
            thread_room_id: self.thread_room_id@,
            tag_id: self.tag_id@,
        }
    }
}

impl KeyedView for ForumPostTagV {
    open spec fn key(&self) -> Seq<char> {
        self.id
    }
}

impl Row for ForumPostTag {
    fn key_str(&self) -> (k: &String) {
        &self.id
    }
}

/// An automatic moderation rule of a server.
#[derive(Clone, Debug)]
pub struct AutoModRule {
    pub id: String,
    pub server_id: String,
    pub rule_type: String,
    pub config: String,
    pub enabled: bool,
    pub action: String,
    pub exempt_roles: String,
    pub exempt_channels: String,
    pub created_by: String,
    pub created_at: u64,
}

/// View of a [`AutoModRule`].
pub struct AutoModRuleV {
    pub id: Seq<char>,
    pub server_id: Seq<char>,
    pub rule_type: Seq<char>,
    pub config: Seq<char>,
    pub enabled: bool,
    pub action: Seq<char>,
    pub exempt_roles: Seq<char>,
    pub exempt_channels: Seq<char>,
    pub created_by: Seq<char>,
    pub created_at: u64,
}

impl View for AutoModRule {
    type V = AutoModRuleV;

    open spec fn view(&self) -> AutoModRuleV {
        AutoModRuleV {
            id: self.id@,
            server_id: self.server_id@,
            rule_type: self.rule_type@,
            config: self.config@,
            enabled: self.enabled,
            action: self.action@,
            exempt_roles: self.exempt_roles@,
            exempt_channels: self.exempt_channels@,
            created_by: self.created_by@,
            created_at: self.created_at,
        }
    }
}

impl KeyedView for AutoModRuleV {
    open spec fn key(&self) -> Seq<char> {
        self.id
    }
}

impl Row for AutoModRule {
    fn key_str(&self) -> (k: &String) {
        &self.id
    }
}

/// A sticker of a server.
#[derive(Clone, Debug)]
pub struct Sticker {
    pub id: String,
    pub server_id: String,
    pub name: String,
    pub description: String,
    pub image_data: String,
    pub tags: String,
    pub uploaded_by: String,
    pub created_at: u64,
}

/// View of a [`Sticker`].
pub struct StickerV {
    pub id: Seq<char>,
    pub server_id: Seq<char>,
    pub name: Seq<char>,
    pub description: Seq<char>,
    pub image_data: Seq<char>,
    pub tags: Seq<char>,
    pub uploaded_by: Seq<char>,
    pub created_at: u64,
}

impl View for Sticker {
    type V = StickerV;

    open spec fn view(&self) -> StickerV {
        StickerV {
            id: self.id@,
            server_id: self.server_id@,
            name: self.name@,
            description: self.description@,
            image_data: self.image_data@,
            tags: self.tags@,
            uploaded_by: self.uploaded_by@,
            created_at: self.created_at,
        }
    }
}

impl KeyedView for StickerV {
    open spec fn key(&self) -> Seq<char> {
        self.id
    }
}

impl Row for Sticker {
    fn key_str(&self) -> (k: &String) {
        &self.id
    }
}

/// A room a user starred.
#[derive(Clone, Debug)]
pub struct StarredChannel {
    pub id: String,
    pub user_id: String,
    pub room_id: String,
    pub starred_at: u64,
}

/// View of a [`StarredChannel`].
pub struct StarredChannelV {
    pub id: Seq<char>,
    pub user_id: Seq<char>,
    pub room_id: Seq<char>,
    pub starred_at: u64,
}

impl View for StarredChannel {
    type V = StarredChannelV;

    open spec fn view(&self) -> StarredChannelV {
        StarredChannelV {
            id: self.id@,
            user_id: self.user_id@,
            room_id: self.room_id@,
            starred_at: self.starred_at,
        }
    }
}

impl KeyedView for StarredChannelV {
    open spec fn key(&self) -> Seq<char> {
        self.id
    }
}

impl Row for StarredChannel {
    fn key_str(&self) -> (k: &String) {
        &self.id
    }
}

/// A user's public profile.
#[derive(Clone, Debug)]
pub struct UserProfile {
    pub user_id: String,
    pub about_me: Option<String>,
    pub banner_color: Option<String>,
    pub banner_data: Option<String>,
    pub pronouns: Option<String>,
    pub accent_color: Option<String>,
    pub updated_at: u64,
}

/// View of a [`UserProfile`].
pub struct UserProfileV {
    pub user_id: Seq<char>,
    pub about_me: Option<Seq<char>>,
    pub banner_color: Option<Seq<char>>,
    pub banner_data: Option<Seq<char>>,
    pub pronouns: Option<Seq<char>>,
    pub accent_color: Option<Seq<char>>,
    pub updated_at: u64,
}

impl View for UserProfile {
    type V = UserProfileV;

    open spec fn view(&self) -> UserProfileV {
        UserProfileV {
            user_id: self.user_id@,
            about_me: opt_view(self.about_me),
            banner_color: opt_view(self.banner_color),
            banner_data: opt_view(self.banner_data),
            pronouns: opt_view(self.pronouns),
            accent_color: opt_view(self.accent_color),
            updated_at: self.updated_at,
        }
    }
}

impl KeyedView for UserProfileV {
    open spec fn key(&self) -> Seq<char> {
        self.user_id
    }
}

impl Row for UserProfile {
    fn key_str(&self) -> (k: &String) {
        &self.user_id
    }
}

/// A message posted through a webhook.
#[derive(Clone, Debug)]
pub struct WebhookMessage {
    pub id: String,
    pub room_id: String,
    pub webhook_id: String,
    pub webhook_name: String,
    pub webhook_avatar: Option<String>,
    pub content: String,
    pub created_at: u64,
    pub sender_name: Option<String>,
    pub sender_avatar: Option<String>,
}

/// View of a [`WebhookMessage`].
pub struct WebhookMessageV {
    pub id: Seq<char>,
    pub room_id: Seq<char>,
    pub webhook_id: Seq<char>,
    pub webhook_name: Seq<char>,
    pub webhook_avatar: Option<Seq<char>>,
    pub content: Seq<char>,
    pub created_at: u64,
    pub sender_name: Option<Seq<char>>,
    pub sender_avatar: Option<Seq<char>>,
}

impl View for WebhookMessage {
    type V = WebhookMessageV;

    open spec fn view(&self) -> WebhookMessageV {
        WebhookMessageV {
            id: self.id@,
            room_id: self.room_id@,
            webhook_id: self.webhook_id@,
            webhook_name: self.webhook_name@,
            webhook_avatar: opt_view(self.webhook_avatar),
            content: self.content@,
            created_at: self.created_at,
            sender_name: opt_view(self.sender_name),
            sender_avatar: opt_view(self.sender_avatar),
        }
    }
}

impl KeyedView for WebhookMessageV {
    open spec fn key(&self) -> Seq<char> {
        self.id
    }
}

impl Row for WebhookMessage {
    fn key_str(&self) -> (k: &String) {
        &self.id
    }
}

/// A moderation event of a server.
#[derive(Clone, Debug)]
pub struct AuditLogEntry {
    pub id: String,
    pub server_id: String,
    pub action: String,
    pub actor_id: String,
    pub target_type: String,
    pub target_id: String,
    pub details: Option<String>,
    pub created_at: u64,
}

/// View of a [`AuditLogEntry`].
pub struct AuditLogEntryV {
    pub id: Seq<char>,
    pub server_id: Seq<char>,
    pub action: Seq<char>,
    pub actor_id: Seq<char>,
    pub target_type: Seq<char>,
    pub target_id: Seq<char>,
    pub details: Option<Seq<char>>,
    pub created_at: u64,
}

impl View for AuditLogEntry {
    type V = AuditLogEntryV;

    open spec fn view(&self) -> AuditLogEntryV {
        AuditLogEntryV {
            id: self.id@,
            server_id: self.server_id@,
            action: self.action@,
            actor_id: self.actor_id@,
            target_type: self.target_type@,
            target_id: self.target_id@,
            details: opt_view(self.details),
            created_at: self.created_at,
        }
    }
}

impl KeyedView for AuditLogEntryV {
    open spec fn key(&self) -> Seq<char> {
        self.id
    }
}

impl Row for AuditLogEntry {
    fn key_str(&self) -> (k: &String) {
        &self.id
    }
}

} // verus!
