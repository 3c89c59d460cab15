use std::collections::{HashMap, HashSet};
use std::sync::Arc;
use twilight_cache_inmemory::config::{InMemoryConfig, InMemoryConfigBuilder};
use twilight_cache_inmemory::model::cached::GuildParts;
use twilight_cache_inmemory::model::channel::{
    CategoryChannel, ChannelType, Group, GuildChannel, PermissionOverwrite,
    PermissionOverwriteType, PrivateChannel, TextChannel, VoiceChannel,
};
use twilight_cache_inmemory::model::guild::{
    DefaultMessageNotificationLevel, Emoji, ExplicitContentFilter, Guild, Member, MfaLevel,
    Permissions, PremiumTier, Role, SystemChannelFlags, VerificationLevel,
};
use twilight_cache_inmemory::model::id::{
    ChannelId, EmojiId, GuildId, MessageId, RoleId, UserId,
};
use twilight_cache_inmemory::model::presence::{
    presence_user_id, Activity, ActivityAssets, ActivityEmoji, ActivityFlags, ActivityParty,
    ActivitySecrets, ActivityTimestamps, ActivityType, ClientStatus, Presence, Status, UserOrId,
};
use twilight_cache_inmemory::model::user::{CurrentUser, PremiumType, User, UserFlags};
use twilight_cache_inmemory::model::voice::VoiceState;
use twilight_cache_inmemory::update::RoleDelete;
use twilight_cache_inmemory::{InMemoryCache, InMemoryCacheError};

fn user(id: u64, name: &str) -> User {
    User {
        avatar: Some("avatar".to_owned()),
        bot: false,
        discriminator: "0001".to_owned(),
        email: None,
        flags: Some(UserFlags(3)),
        id: UserId(id),
        locale: None,
        mfa_enabled: Some(true),
        name: name.to_owned(),
        premium_type: Some(PremiumType::Nitro),
        public_flags: None,
        system: None,
        verified: None,
    }
}

fn current_user(name: &str) -> CurrentUser {
    CurrentUser {
        avatar: None,
        bot: true,
        discriminator: "0001".to_owned(),
        email: None,
        flags: None,
        id: UserId(1),
        locale: None,
        mfa_enabled: true,
        name: name.to_owned(),
        premium_type: None,
        public_flags: None,
        verified: None,
    }
}

fn text_channel(id: u64, name: &str) -> GuildChannel {
    GuildChannel::Text(TextChannel {
        id: ChannelId(id),
        guild_id: None,
        kind: ChannelType::GuildText,
        last_message_id: Some(MessageId(9)),
        last_pin_timestamp: None,
        name: name.to_owned(),
        nsfw: false,
        permission_overwrites: vec![PermissionOverwrite {
            allow: Permissions(1),
            deny: Permissions(2),
            kind: PermissionOverwriteType::Role(RoleId(3)),
        }],
        parent_id: None,
        position: 1,
        rate_limit_per_user: None,
        topic: Some("topic".to_owned()),
    })
}

fn voice_channel(id: u64) -> GuildChannel {
    GuildChannel::Voice(VoiceChannel {
        bitrate: 64_000,
        guild_id: Some(GuildId(999)),
        id: ChannelId(id),
        kind: ChannelType::GuildVoice,
        name: "voice".to_owned(),
        permission_overwrites: Vec::new(),
        parent_id: None,
        position: 2,
        user_limit: None,
    })
}

fn category(id: u64) -> GuildChannel {
    GuildChannel::Category(CategoryChannel {
        guild_id: None,
        id: ChannelId(id),
        kind: ChannelType::GuildCategory,
        name: "category".to_owned(),
        nsfw: None,
        parent_id: None,
        permission_overwrites: Vec::new(),
        position: 0,
    })
}

fn guild_of(channel: &GuildChannel) -> Option<GuildId> {
    match channel {
        GuildChannel::Category(c) => c.guild_id,
        GuildChannel::Text(c) => c.guild_id,
        GuildChannel::Voice(c) => c.guild_id,
    }
}

fn group(id: u64, name: &str) -> Group {
    Group {
        application_id: None,
        icon: None,
        id: ChannelId(id),
        kind: ChannelType::Group,
        last_message_id: None,
        last_pin_timestamp: None,
        name: Some(name.to_owned()),
        owner_id: UserId(1),
        recipients: vec![user(1, "one"), user(2, "two")],
    }
}

fn private_channel(id: u64) -> PrivateChannel {
    PrivateChannel {
        id: ChannelId(id),
        last_message_id: None,
        last_pin_timestamp: None,
        kind: ChannelType::Private,
        recipients: vec![user(7, "seven")],
    }
}

fn role(id: u64, name: &str) -> Role {
    Role {
        color: 0xff,
        hoist: false,
        id: RoleId(id),
        managed: false,
        mentionable: true,
        name: name.to_owned(),
        permissions: Permissions(0x800),
        position: 1,
    }
}

fn emoji(id: u64, name: &str, by: Option<User>) -> Emoji {
    Emoji {
        animated: false,
        available: true,
        id: EmojiId(id),
        managed: false,
        name: name.to_owned(),
        require_colons: true,
        roles: vec![RoleId(1), RoleId(2)],
        user: by,
    }
}

fn member(of: User, nick: &str) -> Member {
    Member {
        deaf: false,
        guild_id: Some(GuildId(1)),
        hoisted_role: None,
        joined_at: Some("2020-01-01".to_owned()),
        mute: false,
        nick: Some(nick.to_owned()),
        premium_since: None,
        roles: vec![RoleId(5)],
        user: of,
    }
}

fn activity(name: &str) -> Activity {
    Activity {
        application_id: None,
        assets: Some(ActivityAssets {
            large_image: Some("large".to_owned()),
            large_text: None,
            small_image: None,
            small_text: None,
        }),
        created_at: Some(1),
        details: None,
        emoji: Some(ActivityEmoji { animated: None, id: None, name: "e".to_owned() }),
        flags: Some(ActivityFlags(1)),
        id: None,
        instance: None,
        kind: ActivityType::Playing,
        name: name.to_owned(),
        party: Some(ActivityParty { id: None, size: Some((1, 5)) }),
        secrets: Some(ActivitySecrets { join: None, match_: None, spectate: None }),
        state: None,
        timestamps: Some(ActivityTimestamps { end: None, start: Some(3) }),
        url: None,
    }
}

fn presence(of: UserOrId, playing: &str) -> Presence {
    Presence {
        activities: vec![activity(playing)],
        client_status: ClientStatus { desktop: Some(Status::Online), mobile: None, web: None },
        game: Some(activity(playing)),
        guild_id: Some(GuildId(1)),
        nick: None,
        status: Status::Online,
        user: of,
    }
}

fn voice_state(user_id: u64, guild_id: Option<u64>, channel_id: Option<u64>) -> VoiceState {
    VoiceState {
        channel_id: channel_id.map(ChannelId),
        deaf: false,
        guild_id: guild_id.map(GuildId),
        member: Some(member(user(user_id, "speaker"), "nick")),
        mute: false,
        self_deaf: false,
        self_mute: true,
        self_stream: false,
        session_id: "session".to_owned(),
        suppress: false,
        token: None,
        user_id: UserId(user_id),
    }
}

fn guild(id: u64) -> Guild {
    Guild {
        id: GuildId(id),
        afk_channel_id: None,
        afk_timeout: 300,
        application_id: None,
        approximate_member_count: None,
        approximate_presence_count: None,
        banner: None,
        channels: HashMap::new(),
        default_message_notifications: DefaultMessageNotificationLevel::All,
        description: Some("a description".to_owned()),
        discovery_splash: None,
        embed_channel_id: None,
        embed_enabled: None,
        emojis: HashMap::new(),
        explicit_content_filter: ExplicitContentFilter::Nobody,
        features: vec!["NEWS".to_owned()],
        icon: None,
        joined_at: None,
        large: true,
        lazy: None,
        max_members: Some(10),
        max_presences: None,
        max_video_channel_users: None,
        member_count: None,
        members: HashMap::new(),
        mfa_level: MfaLevel::NotRequired,
        name: "a guild".to_owned(),
        owner: None,
        owner_id: UserId(1),
        permissions: None,
        preferred_locale: "en-US".to_owned(),
        premium_subscription_count: None,
        premium_tier: PremiumTier::Tier2,
        presences: HashMap::new(),
        region: "us-east".to_owned(),
        roles: HashMap::new(),
        rules_channel_id: None,
        splash: None,
        system_channel_id: Some(ChannelId(6)),
        system_channel_flags: SystemChannelFlags(0),
        unavailable: false,
        vanity_url_code: None,
        verification_level: VerificationLevel::Low,
        voice_states: HashMap::new(),
        widget_channel_id: None,
        widget_enabled: Some(true),
    }
}

#[test]
fn test_guild_create_channels_have_guild_ids() -> Result<(), InMemoryCacheError> {
    let mut channels = HashMap::new();
    channels.insert(
        111,
        GuildChannel::Text(TextChannel {
            id: ChannelId(111),
            guild_id: None,
            kind: ChannelType::GuildText,
            last_message_id: None,
            last_pin_timestamp: None,
            name: "guild channel with no guild id".to_owned(),
            nsfw: true,
            permission_overwrites: Vec::new(),
            parent_id: None,
            position: 1,
            rate_limit_per_user: None,
            topic: None,
        }),
    );

    let guild = Guild {
        id: GuildId(123),
        afk_channel_id: None,
        afk_timeout: 300,
        application_id: None,
        banner: None,
        channels,
        default_message_notifications: DefaultMessageNotificationLevel::Mentions,
        description: None,
        discovery_splash: None,
        embed_channel_id: None,
        embed_enabled: None,
        emojis: HashMap::new(),
        explicit_content_filter: ExplicitContentFilter::AllMembers,
        features: vec![],
        icon: None,
        joined_at: Some("".to_owned()),
        large: false,
        lazy: Some(true),
        max_members: Some(50),
        max_presences: Some(100),
        member_count: Some(25),
        members: HashMap::new(),
        mfa_level: MfaLevel::Elevated,
        name: "this is a guild".to_owned(),
        owner: Some(false),
        owner_id: UserId(456),
        permissions: Some(Permissions(0x800)),
        preferred_locale: "en-GB".to_owned(),
        premium_subscription_count: Some(0),
        premium_tier: PremiumTier::Tier0,
        presences: HashMap::new(),
        region: "us-east".to_owned(),
        roles: HashMap::new(),
        splash: None,
        system_channel_id: None,
        system_channel_flags: SystemChannelFlags(1),
        rules_channel_id: None,
        unavailable: false,
        verification_level: VerificationLevel::VeryHigh,
        voice_states: HashMap::new(),
        vanity_url_code: None,
        widget_channel_id: None,
        widget_enabled: None,
        max_video_channel_users: None,
        approximate_member_count: None,
        approximate_presence_count: None,
    };

    let mut cache = InMemoryCache::new();
    cache.cache_guild(guild);

    let channel = cache.guild_channel(ChannelId(111))?.unwrap();

    // The channel was given to the cache without a guild ID, but because
    // it's part of a guild create, the cache can automatically attach the
    // guild ID to it. So now, the channel's guild ID is present with the
    // correct value.
    match *channel {
        GuildChannel::Text(ref c) => {
            assert_eq!(Some(GuildId(123)), c.guild_id);
        }
        _ => assert!(false, "{:?}", channel),
    }

    Ok(())
}

#[test]
fn test_syntax_update() -> Result<(), InMemoryCacheError> {
    let mut cache = InMemoryCache::new();
    cache.update(&RoleDelete {
        guild_id: GuildId(0),
        role_id: RoleId(1),
    })?;

    Ok(())
}

#[test]
fn a_new_cache_holds_nothing() -> Result<(), InMemoryCacheError> {
    let cache = InMemoryCache::default();
    assert!(cache.current_user()?.is_none());
    assert!(cache.guild_channel(ChannelId(1))?.is_none());
    assert!(cache.emoji(EmojiId(1))?.is_none());
    assert!(cache.group(ChannelId(1))?.is_none());
    assert!(cache.guild(GuildId(1))?.is_none());
    assert!(cache.member(GuildId(1), UserId(1))?.is_none());
    assert!(cache.message(ChannelId(1), MessageId(1))?.is_none());
    assert!(cache.presence(None, UserId(1))?.is_none());
    assert!(cache.presence(Some(GuildId(1)), UserId(1))?.is_none());
    assert!(cache.private_channel(ChannelId(1))?.is_none());
    assert!(cache.role(RoleId(1))?.is_none());
    assert!(cache.user(UserId(1))?.is_none());
    assert!(cache.voice_state(UserId(1), GuildId(1))?.is_none());
    assert!(!cache.has_place_for_voice_states(GuildId(1)));
    Ok(())
}

#[test]
fn the_configuration_is_read_back() {
    assert_eq!(InMemoryCache::new().config().message_cache_size(), 100);
    assert_eq!(InMemoryConfig::default().message_cache_size, 100);

    let builder = InMemoryConfig::builder().message_cache_size(50);
    assert_eq!(InMemoryCache::from(builder).config().message_cache_size(), 50);
    assert_eq!(InMemoryConfig::from(builder), builder.build());

    let config = InMemoryConfigBuilder::new().message_cache_size(7).build();
    assert_eq!(InMemoryCache::from(config).config(), config);
}

#[test]
fn a_cached_user_is_read_back_and_shared() -> Result<(), InMemoryCacheError> {
    let mut cache = InMemoryCache::new();
    let held = cache.cache_user(user(1, "one"));
    assert!(*held == user(1, "one"));
    let read = cache.user(UserId(1))?.unwrap();
    assert!(Arc::ptr_eq(&held, &read));
    assert!(cache.user(UserId(2))?.is_none());

    // An equal user keeps what is there.
    let again = cache.cache_user(user(1, "one"));
    assert!(Arc::ptr_eq(&held, &again));
    Ok(())
}

#[test]
fn a_held_user_is_outdated_but_stays() -> Result<(), InMemoryCacheError> {
    let mut cache = InMemoryCache::new();
    let held = cache.cache_user(user(1, "one"));
    let new = cache.cache_user(user(1, "uno"));
    assert!(!Arc::ptr_eq(&held, &new));
    assert_eq!(held.name, "one");
    assert_eq!(cache.user(UserId(1))?.unwrap().name, "uno");
    Ok(())
}

#[test]
fn the_current_user_is_replaced() -> Result<(), InMemoryCacheError> {
    let mut cache = InMemoryCache::new();
    cache.cache_current_user(current_user("first"));
    assert_eq!(cache.current_user()?.unwrap().name, "first");

    // Nobody else holds the current user.
    cache.cache_current_user(current_user("second"));
    let held = cache.current_user()?.unwrap();
    assert_eq!(held.name, "second");

    // Somebody does.
    cache.cache_current_user(current_user("third"));
    assert_eq!(held.name, "second");
    assert_eq!(cache.current_user()?.unwrap().name, "third");
    Ok(())
}

#[test]
fn a_cached_group_is_read_back_and_deleted() -> Result<(), InMemoryCacheError> {
    let mut cache = InMemoryCache::new();
    let held = cache.cache_group(group(4, "group"));
    assert!(*held == group(4, "group"));
    let again = cache.cache_group(group(4, "group"));
    assert!(Arc::ptr_eq(&held, &again));
    assert!(Arc::ptr_eq(&held, &cache.group(ChannelId(4))?.unwrap()));
    let renamed = cache.cache_group(group(4, "renamed"));
    assert_eq!(renamed.name, Some("renamed".to_owned()));

    let deleted = cache.delete_group(ChannelId(4)).unwrap();
    assert!(Arc::ptr_eq(&renamed, &deleted));
    assert!(cache.group(ChannelId(4))?.is_none());
    assert!(cache.delete_group(ChannelId(4)).is_none());
    Ok(())
}

#[test]
fn a_cached_private_channel_is_read_back() -> Result<(), InMemoryCacheError> {
    let mut cache = InMemoryCache::new();
    let held = cache.cache_private_channel(private_channel(8));
    assert!(*held == private_channel(8));
    let again = cache.cache_private_channel(private_channel(8));
    assert!(Arc::ptr_eq(&held, &again));
    assert!(Arc::ptr_eq(&held, &cache.private_channel(ChannelId(8))?.unwrap()));
    let mut other = private_channel(8);
    other.last_message_id = Some(MessageId(3));
    cache.cache_private_channel(other);
    assert_eq!(
        cache.private_channel(ChannelId(8))?.unwrap().last_message_id,
        Some(MessageId(3)),
    );
    Ok(())
}

#[test]
fn a_cached_guild_channel_names_its_guild() -> Result<(), InMemoryCacheError> {
    let mut cache = InMemoryCache::new();
    for channel in vec![text_channel(1, "text"), voice_channel(2), category(3)] {
        let id = channel.id();
        let held = cache.cache_guild_channel(GuildId(5), channel);
        assert_eq!(guild_of(&held), Some(GuildId(5)));
        assert_eq!(held.guild_id(), Some(GuildId(5)));
        assert!(Arc::ptr_eq(&held, &cache.guild_channel(id)?.unwrap()));
    }

    // The same channel keeps what is there.
    let held = cache.guild_channel(ChannelId(1))?.unwrap();
    let again = cache.cache_guild_channel(GuildId(5), text_channel(1, "text"));
    assert!(Arc::ptr_eq(&held, &again));

    // In another guild it is another channel.
    let moved = cache.cache_guild_channel(GuildId(6), text_channel(1, "text"));
    assert_eq!(guild_of(&moved), Some(GuildId(6)));
    assert_eq!(guild_of(&held), Some(GuildId(5)));
    Ok(())
}

#[test]
fn a_deleted_guild_channel_is_not_read() -> Result<(), InMemoryCacheError> {
    let mut cache = InMemoryCache::new();
    assert!(cache.delete_guild_channel(ChannelId(1)).is_none());
    let held = cache.cache_guild_channel(GuildId(5), text_channel(1, "text"));
    cache.cache_guild_channel(GuildId(5), text_channel(2, "other"));
    let deleted = cache.delete_guild_channel(ChannelId(1)).unwrap();
    assert!(Arc::ptr_eq(&held, &deleted));
    assert!(cache.guild_channel(ChannelId(1))?.is_none());
    assert!(cache.guild_channel(ChannelId(2))?.is_some());
    assert!(cache.delete_guild_channel(ChannelId(1)).is_none());
    Ok(())
}

#[test]
fn a_cached_role_is_read_back_and_deleted() -> Result<(), InMemoryCacheError> {
    let mut cache = InMemoryCache::new();
    let held = cache.cache_role(GuildId(1), role(2, "role"));
    assert!(*held == role(2, "role"));
    // An equal role stays, even where it is cached for another guild.
    let again = cache.cache_role(GuildId(3), role(2, "role"));
    assert!(Arc::ptr_eq(&held, &again));
    assert!(Arc::ptr_eq(&held, &cache.role(RoleId(2))?.unwrap()));
    cache.cache_role(GuildId(1), role(2, "renamed"));
    assert_eq!(cache.role(RoleId(2))?.unwrap().name, "renamed");

    assert_eq!(cache.delete_role(RoleId(2)).unwrap().name, "renamed");
    assert!(cache.role(RoleId(2))?.is_none());
    assert!(cache.delete_role(RoleId(2)).is_none());
    Ok(())
}

#[test]
fn the_deletion_of_a_role_updates_the_cache() -> Result<(), InMemoryCacheError> {
    let mut cache = InMemoryCache::new();
    cache.cache_guild(guild(1));
    cache.cache_role(GuildId(1), role(2, "two"));
    cache.cache_role(GuildId(1), role(3, "three"));
    cache.update(&RoleDelete { guild_id: GuildId(1), role_id: RoleId(2) })?;
    assert!(cache.role(RoleId(2))?.is_none());
    assert!(cache.role(RoleId(3))?.is_some());
    Ok(())
}

#[test]
fn a_cached_emoji_shares_its_user() -> Result<(), InMemoryCacheError> {
    let mut cache = InMemoryCache::new();
    let held = cache.cache_emoji(GuildId(1), emoji(2, "smile", Some(user(3, "maker"))));
    assert!(*held == emoji(2, "smile", Some(user(3, "maker"))));
    assert_eq!(held.roles, vec![RoleId(1), RoleId(2)]);
    assert!(Arc::ptr_eq(held.user.as_ref().unwrap(), &cache.user(UserId(3))?.unwrap()));
    assert!(Arc::ptr_eq(&held, &cache.emoji(EmojiId(2))?.unwrap()));

    let again = cache.cache_emoji(GuildId(1), emoji(2, "smile", Some(user(3, "maker"))));
    assert!(Arc::ptr_eq(&held, &again));

    let anonymous = cache.cache_emoji(GuildId(1), emoji(2, "smile", None));
    assert!(anonymous.user.is_none());
    assert!(cache.user(UserId(3))?.is_some());
    Ok(())
}

#[test]
fn a_cached_member_shares_their_user() -> Result<(), InMemoryCacheError> {
    let mut cache = InMemoryCache::new();
    let held = cache.cache_member(GuildId(1), member(user(2, "two"), "nick"));
    assert!(*held == member(user(2, "two"), "nick"));
    assert_eq!(held.guild_id, GuildId(1));
    assert!(Arc::ptr_eq(&held.user, &cache.user(UserId(2))?.unwrap()));
    assert!(Arc::ptr_eq(&held, &cache.member(GuildId(1), UserId(2))?.unwrap()));
    assert!(cache.member(GuildId(2), UserId(1))?.is_none());

    let again = cache.cache_member(GuildId(1), member(user(2, "two"), "nick"));
    assert!(Arc::ptr_eq(&held, &again));
    let renamed = cache.cache_member(GuildId(1), member(user(2, "two"), "nack"));
    assert_eq!(renamed.nick, Some("nack".to_owned()));
    assert!(Arc::ptr_eq(&renamed.user, &held.user));

    // The same user in another guild is another member.
    cache.cache_member(GuildId(9), member(user(2, "two"), "other"));
    assert_eq!(
        cache.member(GuildId(1), UserId(2))?.unwrap().nick,
        Some("nack".to_owned()),
    );
    Ok(())
}

#[test]
fn a_cached_presence_is_read_back() -> Result<(), InMemoryCacheError> {
    let mut cache = InMemoryCache::new();
    let by_id = presence(UserOrId::UserId { id: UserId(4) }, "chess");
    assert_eq!(presence_user_id(&by_id), UserId(4));
    let held = cache.cache_presence(Some(GuildId(1)), by_id.clone());
    assert!(*held == by_id);
    assert_eq!(held.user_id, UserId(4));
    assert!(Arc::ptr_eq(&held, &cache.presence(Some(GuildId(1)), UserId(4))?.unwrap()));
    assert!(cache.presence(None, UserId(4))?.is_none());

    // The presence counts as the same where the user is given in full.
    let in_full = presence(UserOrId::User(user(4, "four")), "chess");
    assert_eq!(presence_user_id(&in_full), UserId(4));
    let again = cache.cache_presence(Some(GuildId(1)), in_full);
    assert!(Arc::ptr_eq(&held, &again));

    let outside = cache.cache_presence(None, presence(UserOrId::UserId { id: UserId(4) }, "go"));
    assert_eq!(outside.activities[0].name, "go");
    assert_eq!(
        cache.presence(Some(GuildId(1)), UserId(4))?.unwrap().activities[0].name,
        "chess",
    );
    Ok(())
}

#[test]
fn voice_states_come_and_go() -> Result<(), InMemoryCacheError> {
    let mut cache = InMemoryCache::new();
    cache.cache_guild(guild(1));
    assert!(cache.has_place_for_voice_states(GuildId(1)));
    assert!(!cache.has_place_for_voice_states(GuildId(2)));

    let ids = cache.cache_voice_states(vec![
        voice_state(5, Some(1), Some(10)),
        voice_state(6, Some(1), Some(10)),
        voice_state(7, None, Some(10)),
    ]);
    assert_eq!(ids, HashSet::from([5, 6, 7]));
    let held = cache.voice_state(UserId(5), GuildId(1))?.unwrap();
    assert!(*held == voice_state(5, Some(1), Some(10)));
    assert!(cache.voice_state(UserId(7), GuildId(1))?.is_none());
    assert!(cache.voice_state(UserId(5), GuildId(2))?.is_none());

    // An equal state keeps what is there, another one takes its place.
    cache.cache_voice_states(vec![voice_state(5, Some(1), Some(10))]);
    assert!(Arc::ptr_eq(&held, &cache.voice_state(UserId(5), GuildId(1))?.unwrap()));
    cache.cache_voice_states(vec![voice_state(5, Some(1), Some(11))]);
    assert_eq!(
        cache.voice_state(UserId(5), GuildId(1))?.unwrap().channel_id,
        Some(ChannelId(11)),
    );

    // Without a channel, the user has left.
    cache.cache_voice_states(vec![voice_state(5, Some(1), None)]);
    assert!(cache.voice_state(UserId(5), GuildId(1))?.is_none());
    assert!(cache.voice_state(UserId(6), GuildId(1))?.is_some());
    Ok(())
}

#[test]
fn batches_return_the_ids() -> Result<(), InMemoryCacheError> {
    let mut cache = InMemoryCache::new();
    assert_eq!(
        cache.cache_guild_channels(
            GuildId(1),
            vec![text_channel(1, "a"), voice_channel(2), text_channel(1, "b")],
        ),
        HashSet::from([1, 2]),
    );
    // The later one of the two channels with one id stays.
    match &*cache.guild_channel(ChannelId(1))?.unwrap() {
        GuildChannel::Text(c) => assert_eq!(c.name, "b"),
        other => panic!("{:?}", other),
    }
    assert_eq!(
        cache.cache_emojis(GuildId(1), vec![emoji(3, "x", None), emoji(4, "y", None)]),
        HashSet::from([3, 4]),
    );
    assert_eq!(
        cache.cache_members(GuildId(1), vec![member(user(5, "five"), "v")]),
        HashSet::from([5]),
    );
    assert_eq!(
        cache.cache_presences(None, vec![presence(UserOrId::UserId { id: UserId(6) }, "go")]),
        HashSet::from([6]),
    );
    assert_eq!(
        cache.cache_roles(GuildId(1), vec![role(7, "r"), role(8, "s")]),
        HashSet::from([7, 8]),
    );
    assert_eq!(cache.cache_roles(GuildId(1), Vec::new()), HashSet::new());
    assert!(cache.emoji(EmojiId(4))?.is_some());
    assert!(cache.member(GuildId(1), UserId(5))?.is_some());
    assert!(cache.presence(None, UserId(6))?.is_some());
    assert!(cache.role(RoleId(8))?.is_some());
    Ok(())
}

fn full_guild(id: u64) -> Guild {
    let mut guild = guild(id);
    guild.channels.insert(10, text_channel(10, "ten"));
    guild.channels.insert(11, voice_channel(11));
    guild.emojis.insert(20, emoji(20, "twenty", Some(user(30, "thirty"))));
    guild.members.insert(31, member(user(31, "thirty-one"), "nick"));
    guild.presences.insert(31, presence(UserOrId::UserId { id: UserId(31) }, "go"));
    guild.roles.insert(40, role(40, "forty"));
    guild.roles.insert(41, role(41, "forty-one"));
    guild.voice_states.insert(31, voice_state(31, Some(id), Some(11)));
    guild.voice_states.insert(32, voice_state(32, None, Some(11)));
    guild
}

#[test]
fn a_cached_guild_and_what_belongs_to_it_is_read_back() -> Result<(), InMemoryCacheError> {
    let mut cache = InMemoryCache::new();
    cache.cache_guild(full_guild(1));

    let held = cache.guild(GuildId(1))?.unwrap();
    assert_eq!(held.id, GuildId(1));
    assert_eq!(held.name, "a guild");
    assert_eq!(held.description, Some("a description".to_owned()));
    assert_eq!(held.features, vec!["NEWS".to_owned()]);
    assert_eq!(held.max_members, Some(10));
    assert_eq!(held.premium_tier, PremiumTier::Tier2);
    assert_eq!(held.system_channel_id, Some(ChannelId(6)));
    assert_eq!(held.widget_enabled, Some(true));
    assert!(held.large);

    for id in vec![10, 11] {
        let channel = cache.guild_channel(ChannelId(id))?.unwrap();
        assert_eq!(guild_of(&channel), Some(GuildId(1)));
    }
    assert!(*cache.emoji(EmojiId(20))?.unwrap() == emoji(20, "twenty", Some(user(30, "thirty"))));
    assert!(
        *cache.member(GuildId(1), UserId(31))?.unwrap() == member(user(31, "thirty-one"), "nick")
    );
    assert_eq!(cache.user(UserId(30))?.unwrap().name, "thirty");
    assert_eq!(cache.user(UserId(31))?.unwrap().name, "thirty-one");
    assert!(cache.presence(Some(GuildId(1)), UserId(31))?.is_some());
    assert!(*cache.role(RoleId(40))?.unwrap() == role(40, "forty"));
    assert!(*cache.role(RoleId(41))?.unwrap() == role(41, "forty-one"));
    assert!(
        *cache.voice_state(UserId(31), GuildId(1))?.unwrap() == voice_state(31, Some(1), Some(11))
    );
    assert!(cache.voice_state(UserId(32), GuildId(1))?.is_none());
    Ok(())
}

#[test]
fn a_guild_is_taken_apart() {
    let parts = GuildParts::of(full_guild(1));
    assert_eq!(parts.guild.id, GuildId(1));
    let ids = |channels: &Vec<GuildChannel>| {
        channels.iter().map(|channel| channel.id().0).collect::<HashSet<u64>>()
    };
    assert_eq!(parts.channels.len(), 2);
    assert_eq!(ids(&parts.channels), HashSet::from([10, 11]));
    assert_eq!(parts.emojis.len(), 1);
    assert_eq!(parts.members.len(), 1);
    assert_eq!(parts.presences.len(), 1);
    assert_eq!(parts.roles.len(), 2);
    assert_eq!(parts.voice_states.len(), 2);

    let mut cache = InMemoryCache::new();
    cache.cache_guild_parts(parts);
    assert!(matches!(cache.guild(GuildId(1)), Ok(Some(_))));
    assert!(matches!(cache.guild_channel(ChannelId(10)), Ok(Some(_))));
}

#[test]
fn caching_a_guild_again_forgets_its_voice_states() -> Result<(), InMemoryCacheError> {
    let mut cache = InMemoryCache::new();
    cache.cache_guild(full_guild(1));
    cache.cache_guild(guild(1));
    assert!(cache.voice_state(UserId(31), GuildId(1))?.is_none());
    assert!(cache.has_place_for_voice_states(GuildId(1)));
    // What has a table of its own stays.
    assert!(cache.role(RoleId(40))?.is_some());
    assert!(cache.guild_channel(ChannelId(10))?.is_some());
    Ok(())
}

#[test]
fn a_guild_becomes_unavailable_and_available() -> Result<(), InMemoryCacheError> {
    let mut cache = InMemoryCache::new();
    cache.cache_guild(guild(1));
    cache.cache_guild(guild(2));
    let held = cache.guild(GuildId(1))?.unwrap();
    cache.unavailable_guild(GuildId(1));
    assert!(cache.guild(GuildId(1))?.is_none());
    assert!(cache.guild(GuildId(2))?.is_some());
    assert_eq!(held.name, "a guild");
    cache.unavailable_guild(GuildId(3));
    cache.cache_guild(guild(1));
    assert!(cache.guild(GuildId(1))?.is_some());
    Ok(())
}

#[test]
fn a_cleared_cache_is_like_a_new_one() -> Result<(), InMemoryCacheError> {
    let mut cache = InMemoryCache::from(InMemoryConfig::builder().message_cache_size(3));
    cache.cache_guild(full_guild(1));
    cache.cache_current_user(current_user("me"));
    cache.cache_group(group(50, "group"));
    cache.cache_private_channel(private_channel(51));
    cache.clear()?;
    assert_eq!(cache.config().message_cache_size(), 3);
    assert!(cache.current_user()?.is_none());
    assert!(cache.guild_channel(ChannelId(10))?.is_none());
    assert!(cache.emoji(EmojiId(20))?.is_none());
    assert!(cache.group(ChannelId(50))?.is_none());
    assert!(cache.guild(GuildId(1))?.is_none());
    assert!(cache.member(GuildId(1), UserId(31))?.is_none());
    assert!(cache.presence(Some(GuildId(1)), UserId(31))?.is_none());
    assert!(cache.private_channel(ChannelId(51))?.is_none());
    assert!(cache.role(RoleId(40))?.is_none());
    assert!(cache.user(UserId(30))?.is_none());
    assert!(cache.voice_state(UserId(31), GuildId(1))?.is_none());
    assert!(!cache.has_place_for_voice_states(GuildId(1)));

    // It works as a new one does.
    cache.cache_guild(full_guild(1));
    assert!(cache.voice_state(UserId(31), GuildId(1))?.is_some());
    Ok(())
}

#[test]
fn the_order_of_roles_and_channels_makes_no_difference() -> Result<(), InMemoryCacheError> {
    let mut one = InMemoryCache::new();
    let mut other = InMemoryCache::new();
    one.cache_roles(GuildId(1), vec![role(1, "a"), role(2, "b"), role(3, "c")]);
    other.cache_roles(GuildId(1), vec![role(3, "c"), role(1, "a"), role(2, "b")]);
    one.cache_guild_channels(GuildId(1), vec![text_channel(1, "a"), text_channel(2, "b")]);
    other.cache_guild_channels(GuildId(1), vec![text_channel(2, "b"), text_channel(1, "a")]);
    for id in vec![1, 2, 3] {
        assert!(*one.role(RoleId(id))?.unwrap() == *other.role(RoleId(id))?.unwrap());
    }
    for id in vec![1, 2] {
        assert!(
            *one.guild_channel(ChannelId(id))?.unwrap()
                == *other.guild_channel(ChannelId(id))?.unwrap()
        );
    }
    Ok(())
}

#[test]
fn a_change_to_any_part_makes_a_difference() {
    let base = user(1, "one");
    let mut other = base.clone();
    other.avatar = None;
    assert!(base != other);
    let mut other = base.clone();
    other.verified = Some(false);
    assert!(base != other);

    let base = text_channel(1, "text").clone();
    assert!(base == text_channel(1, "text"));
    assert!(base != category(1));
    let mut other = base.clone();
    if let GuildChannel::Text(c) = &mut other {
        c.permission_overwrites[0].deny = Permissions(4);
    }
    assert!(base != other);

    let base = presence(UserOrId::UserId { id: UserId(1) }, "go");
    let mut cache = InMemoryCache::new();
    let held = cache.cache_presence(None, base.clone());
    let mut other = base.clone();
    other.activities[0].party = None;
    assert!(*held == base);
    assert!(*held != other);
    let mut other = base.clone();
    other.activities.push(activity("chess"));
    assert!(*held != other);

    let base = group(1, "group");
    let mut other = base.clone();
    other.recipients[1].name = "changed".to_owned();
    assert!(base != other);
}

#[test]
fn caching_one_thing_leaves_the_others_alone() -> Result<(), InMemoryCacheError> {
    let mut cache = InMemoryCache::new();
    cache.cache_guild(full_guild(1));
    let guild = cache.guild(GuildId(1))?.unwrap();
    let channel = cache.guild_channel(ChannelId(10))?.unwrap();
    let role_held = cache.role(RoleId(40))?.unwrap();
    let thirty = cache.user(UserId(30))?.unwrap();

    cache.cache_user(user(31, "renamed"));
    cache.cache_role(GuildId(1), role(41, "renamed"));
    cache.cache_guild_channel(GuildId(1), text_channel(12, "new"));
    cache.cache_presence(None, presence(UserOrId::UserId { id: UserId(30) }, "go"));
    cache.delete_role(RoleId(41));
    cache.delete_guild_channel(ChannelId(12));

    assert!(Arc::ptr_eq(&guild, &cache.guild(GuildId(1))?.unwrap()));
    assert!(Arc::ptr_eq(&channel, &cache.guild_channel(ChannelId(10))?.unwrap()));
    assert!(Arc::ptr_eq(&role_held, &cache.role(RoleId(40))?.unwrap()));
    assert!(Arc::ptr_eq(&thirty, &cache.user(UserId(30))?.unwrap()));
    // A member keeps the user that they were cached with.
    assert_eq!(cache.member(GuildId(1), UserId(31))?.unwrap().user.name, "thirty-one");
    Ok(())
}

#[test]
fn caching_a_guild_has_one_outcome() -> Result<(), InMemoryCacheError> {
    let mut one = InMemoryCache::new();
    let mut other = InMemoryCache::new();
    one.cache_guild(full_guild(1));
    other.cache_guild(full_guild(1));
    for id in vec![10, 11] {
        assert!(
            *one.guild_channel(ChannelId(id))?.unwrap()
                == *other.guild_channel(ChannelId(id))?.unwrap()
        );
    }
    for id in vec![40, 41] {
        assert!(*one.role(RoleId(id))?.unwrap() == *other.role(RoleId(id))?.unwrap());
    }
    assert!(
        *one.voice_state(UserId(31), GuildId(1))?.unwrap()
            == *other.voice_state(UserId(31), GuildId(1))?.unwrap()
    );
    Ok(())
}
