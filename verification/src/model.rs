//! Models pertaining to the gateway: activities, presences, and the data
//! announced at session start.

use vstd::prelude::*;

use crate::ids::{ApplicationId, EmojiId, GuildId, UserId};

verus! {

/// A representation of the data retrieved from the bot gateway endpoint.
#[derive(Clone, Debug)]
pub struct BotGateway {
    /// The gateway to connect to.
    pub url: String,
    /// How many gateway sessions may still be initiated within the current
    /// ratelimit period.
    pub session_start_limit: SessionStartLimit,
}

/// How many gateway sessions may be initiated within a ratelimit period.
#[derive(Clone, Copy, Debug, PartialEq, Eq, Structural)]
pub struct SessionStartLimit {
    /// The number of sessions that may still be initiated within the current
    /// ratelimit period.
    pub remaining: u64,
    /// The number of milliseconds until the ratelimit period resets.
    pub reset_after: u64,
    /// The total number of session starts allowed within the period.
    pub total: u64,
    /// The number of identify requests allowed per five seconds.
    pub max_concurrency: u64,
}

/// A representation of the data retrieved from the gateway endpoint.
#[derive(Clone, Debug)]
pub struct Gateway {
    /// The gateway to connect to.
    pub url: String,
}

/// The online status of a user.
#[derive(Clone, Copy, Debug, PartialEq, Eq, Hash, Structural)]
pub enum OnlineStatus {
    /// The user asks not to be disturbed.
    DoNotDisturb,
    /// The user is idle.
    Idle,
    /// The user is online but appears offline to others.
    Invisible,
    /// The user is offline.
    Offline,
    /// The user is online.
    Online,
}

impl Default for OnlineStatus {
    /// The default status is `Online`.
    fn default() -> (r: OnlineStatus)
        ensures
            r == OnlineStatus::Online,
    {
        OnlineStatus::Online
    }
}

/// The type of activity a user is performing.
#[derive(Clone, Copy, Debug, PartialEq, Eq, Hash, Structural)]
pub enum ActivityType {
    /// The user is playing a game.
    Playing,
    /// The user is streaming to a service.
    Streaming,
    /// The user is listening to something.
    Listening,
    /// The user is watching something.
    Watching,
    /// The user uses a custom status.
    Custom,
    /// The user is competing somewhere.
    Competing,
    /// A wire value this library does not know.
    Unknown(u8),
}

impl ActivityType {
    /// Well-formedness: an unknown activity type carries none of the
    /// assigned wire values.
    pub open spec fn wf(self) -> bool {
        match self {
            ActivityType::Unknown(n) => n > 5,
            _ => true,
        }
    }

    /// The wire value of the activity type.
    pub open spec fn to_u8_spec(self) -> u8 {
        match self {
            ActivityType::Playing => 0,
            ActivityType::Streaming => 1,
            ActivityType::Listening => 2,
            ActivityType::Watching => 3,
            ActivityType::Custom => 4,
            ActivityType::Competing => 5,
            ActivityType::Unknown(n) => n,
        }
    }

    /// The wire value of the activity type.
    #[must_use]
    pub fn to_u8(self) -> (n: u8)
        ensures
            n == self.to_u8_spec(),
    {
        match self {
            ActivityType::Playing => 0,
            ActivityType::Streaming => 1,
            ActivityType::Listening => 2,
            ActivityType::Watching => 3,
            ActivityType::Custom => 4,
            ActivityType::Competing => 5,
            ActivityType::Unknown(n) => n,
        }
    }

    /// The activity type a wire value denotes. Values above `5` are kept
    /// as `Unknown`.
    pub open spec fn from_u8_spec(n: u8) -> ActivityType {
        if n == 0 {
            ActivityType::Playing
        } else if n == 1 {
            ActivityType::Streaming
        } else if n == 2 {
            ActivityType::Listening
        } else if n == 3 {
            ActivityType::Watching
        } else if n == 4 {
            ActivityType::Custom
        } else if n == 5 {
            ActivityType::Competing
        } else {
            ActivityType::Unknown(n)
        }
    }

    /// Decode a wire value into an activity type.
    #[must_use]
    pub fn from_u8(n: u8) -> (r: ActivityType)
        ensures
            r == ActivityType::from_u8_spec(n),
            r.wf(),
    {
        match n {
            0 => ActivityType::Playing,
            1 => ActivityType::Streaming,
            2 => ActivityType::Listening,
            3 => ActivityType::Watching,
            4 => ActivityType::Custom,
            5 => ActivityType::Competing,
            _ => ActivityType::Unknown(n),
        }
    }
}

impl Default for ActivityType {
    /// The default activity type is `Playing`.
    fn default() -> (r: ActivityType)
        ensures
            r == ActivityType::Playing,
    {
        ActivityType::Playing
    }
}

/// Decoding a well-formed activity type's wire value gives the type back,
/// and encoding whatever a wire value decodes to gives the value back.
pub proof fn lemma_activity_type_roundtrip(t: ActivityType, n: u8)
    ensures
        t.wf() ==> ActivityType::from_u8_spec(t.to_u8_spec()) == t,
        ActivityType::from_u8_spec(n).to_u8_spec() == n,
{
}

/// A set of flags defining what is in an activity's payload, as a bit mask.
#[derive(Clone, Copy, Debug, PartialEq, Eq, Hash, Structural)]
pub struct ActivityFlags {
    /// The raw bit mask.
    pub bits: u64,
}

impl ActivityFlags {
    /// Whether every flag of `other` is set in `self`.
    pub open spec fn contains_spec(self, other: ActivityFlags) -> bool {
        self.bits & other.bits == other.bits
    }

    /// Whether every flag of `other` is set in `self`.
    pub fn contains(&self, other: &ActivityFlags) -> (r: bool)
        ensures
            r == self.contains_spec(*other),
    {
        self.bits & other.bits == other.bits
    }
}

impl Default for ActivityFlags {
    /// The default set of flags is empty.
    fn default() -> (r: ActivityFlags)
        ensures
            r == (ActivityFlags { bits: 0 }),
    {
        ActivityFlags { bits: 0 }
    }
}

/// Images for an activity's presence and their hover texts.
#[derive(Clone, Debug)]
pub struct ActivityAssets {
    /// The id for a large asset of the activity.
    pub large_image: Option<String>,
    /// Text displayed when hovering over the large image.
    pub large_text: Option<String>,
    /// The id for a small asset of the activity.
    pub small_image: Option<String>,
    /// Text displayed when hovering over the small image.
    pub small_text: Option<String>,
}

/// Information about an activity's party.
#[derive(Clone, Debug)]
pub struct ActivityParty {
    /// The id of the party.
    pub id: Option<String>,
    /// The party's current and maximum size.
    pub size: Option<[u32; 2]>,
}

/// Secrets for rich-presence joining and spectating.
#[derive(Clone, Debug)]
pub struct ActivitySecrets {
    /// The secret for joining a party.
    pub join: Option<String>,
    /// The secret for a specific instanced match.
    pub match_: Option<String>,
    /// The secret for spectating an activity.
    pub spectate: Option<String>,
}

/// An emoji used in a custom status.
#[derive(Clone, Debug)]
pub struct ActivityEmoji {
    /// The name of the emoji.
    pub name: String,
    /// The id of the emoji.
    pub id: Option<EmojiId>,
    /// Whether this emoji is animated.
    pub animated: Option<bool>,
}

/// Timestamps of when a user started and/or is ending their activity.
#[derive(Clone, Copy, Debug, PartialEq, Eq, Structural)]
pub struct ActivityTimestamps {
    /// When the activity ends, as a Unix timestamp in milliseconds.
    pub end: Option<u64>,
    /// When the activity started, as a Unix timestamp in milliseconds.
    pub start: Option<u64>,
}

/// A button shown on an activity.
#[derive(Clone, Debug)]
pub struct ActivityButton {
    /// The text shown on the button.
    pub label: String,
    /// The url opened when clicking the button.
    pub url: String,
}

/// An activity that a user is performing.
#[derive(Clone, Debug)]
pub struct Activity {
    /// The id of the application for the activity.
    pub application_id: Option<ApplicationId>,
    /// Images for the presence and their texts.
    pub assets: Option<ActivityAssets>,
    /// What the user is doing.
    pub details: Option<String>,
    /// Activity flags describing what the payload includes.
    pub flags: Option<ActivityFlags>,
    /// Whether the activity is an instanced game session.
    pub instance: Option<bool>,
    /// The type of activity being performed.
    pub kind: ActivityType,
    /// The name of the activity.
    pub name: String,
    /// Information about the user's current party.
    pub party: Option<ActivityParty>,
    /// Secrets for rich-presence joining and spectating.
    pub secrets: Option<ActivitySecrets>,
    /// The user's current party status.
    pub state: Option<String>,
    /// The emoji currently used in a custom status.
    pub emoji: Option<ActivityEmoji>,
    /// Unix timestamps for the start and/or end times of the activity.
    pub timestamps: Option<ActivityTimestamps>,
    /// The stream url, when the activity type is `Streaming`.
    pub url: Option<String>,
    /// The buttons of this activity.
    pub buttons: Vec<ActivityButton>,
    /// When the activity was added to the user's session, as a Unix
    /// timestamp in milliseconds.
    pub created_at: u64,
}

/// The public flags on a user's account, as a bit mask.
#[derive(Clone, Copy, Debug, PartialEq, Eq, Hash, Structural)]
pub struct UserPublicFlags {
    /// The raw bit mask.
    pub bits: u64,
}

impl Default for UserPublicFlags {
    /// The default set of flags is empty.
    fn default() -> (r: UserPublicFlags)
        ensures
            r == (UserPublicFlags { bits: 0 }),
    {
        UserPublicFlags { bits: 0 }
    }
}

/// The premium tier of a user's account.
#[derive(Clone, Copy, Debug, PartialEq, Eq, Hash, Structural)]
pub enum PremiumType {
    /// No premium subscription.
    NoPremium,
    /// The classic tier.
    NitroClassic,
    /// The full tier.
    Nitro,
    /// The basic tier.
    NitroBasic,
}

/// A user of the remote service.
#[derive(Clone, Debug)]
pub struct User {
    /// The id of the user.
    pub id: UserId,
    /// The user's name.
    pub name: String,
    /// The user's discriminator tag, when the account still carries one.
    pub discriminator: Option<u16>,
    /// The user's display name.
    pub global_name: Option<String>,
    /// The hash of the user's avatar image.
    pub avatar: Option<String>,
    /// Whether the user is a bot.
    pub bot: bool,
    /// Whether the user is an official system account.
    pub system: bool,
    /// Whether multi-factor authentication is enabled.
    pub mfa_enabled: bool,
    /// The hash of the user's banner image.
    pub banner: Option<String>,
    /// The user's accent colour.
    pub accent_colour: Option<u32>,
    /// The user's chosen locale.
    pub locale: Option<String>,
    /// Whether the user's email is verified.
    pub verified: Option<bool>,
    /// The user's email address.
    pub email: Option<String>,
    /// The flags on the user's account.
    pub flags: UserPublicFlags,
    /// The premium tier of the user's account.
    pub premium_type: PremiumType,
    /// The public flags on the user's account.
    pub public_flags: Option<UserPublicFlags>,
}

/// The devices a user is currently active on.
#[derive(Clone, Copy, Debug, PartialEq, Eq, Structural)]
pub struct ClientStatus {
    /// The status on a desktop client, if active there.
    pub desktop: Option<OnlineStatus>,
    /// The status on a mobile client, if active there.
    pub mobile: Option<OnlineStatus>,
    /// The status on a web client, if active there.
    pub web: Option<OnlineStatus>,
}

/// Information about the user of a presence-update event. Every field but
/// `id` is optional.
#[derive(Clone, Debug)]
pub struct PresenceUser {
    /// The id of the user.
    pub id: UserId,
    /// The hash of the user's avatar image.
    pub avatar: Option<String>,
    /// Whether the user is a bot.
    pub bot: Option<bool>,
    /// The user's discriminator tag.
    pub discriminator: Option<u16>,
    /// The user's email address.
    pub email: Option<String>,
    /// Whether multi-factor authentication is enabled.
    pub mfa_enabled: Option<bool>,
    /// The user's name.
    pub name: Option<String>,
    /// Whether the user's email is verified.
    pub verified: Option<bool>,
    /// The public flags on the user's account.
    pub public_flags: Option<UserPublicFlags>,
}

impl PresenceUser {
    /// The full user this partial record determines: present exactly when
    /// the required fields (`bot` and `name`) are, with absent optional
    /// fields replaced by their defaults.
    pub open spec fn into_user_spec(self) -> Option<User> {
        if self.bot is Some && self.name is Some {
            Some(
                User {
                    id: self.id,
                    name: self.name->0,
                    discriminator: self.discriminator,
                    global_name: None,
                    avatar: self.avatar,
                    bot: self.bot->0,
                    system: false,
                    mfa_enabled: match self.mfa_enabled {
                        Some(m) => m,
                        None => false,
                    },
                    banner: None,
                    accent_colour: None,
                    locale: None,
                    verified: self.verified,
                    email: self.email,
                    flags: match self.public_flags {
                        Some(f) => f,
                        None => UserPublicFlags { bits: 0 },
                    },
                    premium_type: PremiumType::NoPremium,
                    public_flags: self.public_flags,
                },
            )
        } else {
            None
        }
    }

    /// Attempts to convert this partial record into a full `User`,
    /// consuming it. If one of the required fields is absent, `None` is
    /// returned.
    #[must_use]
    pub fn into_user(self) -> (r: Option<User>)
        ensures
            r == self.into_user_spec(),
    {
        let bot = match self.bot {
            Some(b) => b,
            None => {
                return None;
            },
        };
        let name = match self.name {
            Some(n) => n,
            None => {
                return None;
            },
        };
        Some(
            User {
                id: self.id,
                name,
                discriminator: self.discriminator,
                global_name: None,
                avatar: self.avatar,
                bot,
                system: false,
                mfa_enabled: match self.mfa_enabled {
                    Some(m) => m,
                    None => false,
                },
                banner: None,
                accent_colour: None,
                locale: None,
                verified: self.verified,
                email: self.email,
                flags: match self.public_flags {
                    Some(f) => f,
                    None => UserPublicFlags { bits: 0 },
                },
                premium_type: PremiumType::NoPremium,
                public_flags: self.public_flags,
            },
        )
    }

    /// Attempts to convert this partial record into a full `User`, cloning
    /// individual fields as needed. If one of the required fields is absent,
    /// `None` is returned.
    #[must_use]
    pub fn to_user(&self) -> (r: Option<User>)
        ensures
            r == self.into_user_spec(),
    {
        self.clone_fields().into_user()
    }

    /// A field-by-field copy of this record.
    fn clone_fields(&self) -> (r: PresenceUser)
        ensures
            r == *self,
    {
        PresenceUser {
            id: self.id,
            avatar: clone_opt_string(&self.avatar),
            bot: self.bot,
            discriminator: self.discriminator,
            email: clone_opt_string(&self.email),
            mfa_enabled: self.mfa_enabled,
            name: clone_opt_string(&self.name),
            verified: self.verified,
            public_flags: self.public_flags,
        }
    }

    /// This record after taking over the fields a full `User` carries:
    /// required fields are overwritten, while an absent avatar or absent
    /// public flags on the user leave the stored value in place.
    pub open spec fn update_with_user_spec(self, user: User) -> PresenceUser {
        PresenceUser {
            id: user.id,
            avatar: match user.avatar {
                Some(a) => Some(a),
                None => self.avatar,
            },
            bot: Some(user.bot),
            discriminator: user.discriminator,
            name: Some(user.name),
            public_flags: match user.public_flags {
                Some(f) => Some(f),
                None => self.public_flags,
            },
            ..self
        }
    }

    /// Take over the fields of a full `User` into this partial record.
    pub fn update_with_user(&mut self, user: &User)
        ensures
            *final(self) == old(self).update_with_user_spec(*user),
    {
        self.id = user.id;
        if let Some(avatar) = &user.avatar {
            self.avatar = Some(avatar.clone());
        }
        self.bot = Some(user.bot);
        self.discriminator = user.discriminator;
        self.name = Some(user.name.clone());
        if let Some(public_flags) = user.public_flags {
            self.public_flags = Some(public_flags);
        }
    }
}

/// A copy of an optional string, equal to the original.
fn clone_opt_string(s: &Option<String>) -> (r: Option<String>)
    ensures
        r == *s,
{
    match s {
        Some(inner) => Some(inner.clone()),
        None => None,
    }
}

/// The current online status and activities of a user.
#[derive(Clone, Debug)]
pub struct Presence {
    /// Data about the associated user.
    pub user: PresenceUser,
    /// The guild the presence update is coming from.
    pub guild_id: Option<GuildId>,
    /// The user's online status.
    pub status: OnlineStatus,
    /// The user's current activities.
    pub activities: Vec<Activity>,
    /// The devices the user is currently active on, if available.
    pub client_status: Option<ClientStatus>,
}

/// The current user, as seen by the session itself.
#[derive(Clone, Debug)]
pub struct CurrentUser {
    /// The id of the account.
    pub id: UserId,
    /// The account's name.
    pub name: String,
    /// Whether the account is a bot.
    pub bot: bool,
}

/// A guild the session belongs to but whose data is not yet available.
#[derive(Clone, Copy, Debug, PartialEq, Eq, Structural)]
pub struct UnavailableGuild {
    /// The id of the guild.
    pub id: GuildId,
    /// Whether the guild is unavailable.
    pub unavailable: bool,
}

/// The application a session belongs to.
#[derive(Clone, Copy, Debug, PartialEq, Eq, Structural)]
pub struct PartialCurrentApplicationInfo {
    /// The id of the application.
    pub id: ApplicationId,
    /// The flags of the application.
    pub flags: u64,
}

/// The initial set of information given after identifying to the gateway.
#[derive(Clone, Debug)]
pub struct Ready {
    /// The version of the wire protocol.
    pub version: u8,
    /// Information about the current user.
    pub user: CurrentUser,
    /// The guilds the user is in.
    pub guilds: Vec<UnavailableGuild>,
    /// The identifier used for resuming the session.
    pub session_id: String,
    /// The gateway URL to use when resuming the session.
    pub resume_gateway_url: String,
    /// The application the session belongs to.
    pub application: PartialCurrentApplicationInfo,
}

} // verus!
