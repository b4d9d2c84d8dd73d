//! Presence data of the current user, sent with every Identify, and the
//! filter for guild-member chunk requests.

use vstd::prelude::*;

use crate::error::GatewayError;
use crate::ids::UserId;
use crate::model::{Activity, ActivityType};

verus! {

/// What `url::Url::parse` makes of a piece of text: the normalized form of
/// the URL it denotes, or nothing when the text is not a valid URL. The
/// outcome depends on the text alone.
pub uninterp spec fn url_parse(s: Seq<char>) -> Option<Seq<char>>;

/// Relies on `url::Url::parse` to validate and normalize a URL. It succeeds
/// exactly on the texts `url_parse` accepts and returns the normalized form.
#[verifier::external_body]
fn parse_url(s: &str) -> (r: Option<String>)
    ensures
        r is Some <==> url_parse(s@) is Some,
        r is Some ==> r->0@ == url_parse(s@)->0,
{
    match url::Url::parse(s) {
        Ok(u) => Some(u.as_str().to_string()),
        Err(_) => None,
    }
}

/// Activity data of the current user.
#[derive(Clone, Debug)]
pub struct ActivityData {
    /// The name of the activity.
    pub name: String,
    /// The type of the activity.
    pub kind: ActivityType,
    /// The state of the activity, meaningful when the type is `Custom`.
    pub state: Option<String>,
    /// The url of the activity, meaningful when the type is `Streaming`.
    pub url: Option<String>,
}

impl ActivityData {
    /// Creates an activity that appears as `Playing <name>`.
    #[must_use]
    pub fn playing(name: String) -> (r: ActivityData)
        ensures
            r == (ActivityData { name, kind: ActivityType::Playing, state: None, url: None }),
    {
        ActivityData { name, kind: ActivityType::Playing, state: None, url: None }
    }

    /// Creates an activity that appears as `Streaming <name>`.
    ///
    /// Returns `Err(GatewayError::BuildingUrl)` exactly when `url` is not a
    /// valid URL; otherwise the stored url is the normalized form.
    pub fn streaming(name: String, url: &str) -> (r: Result<ActivityData, GatewayError>)
        ensures
            r is Ok <==> url_parse(url@) is Some,
            r is Ok ==> r->Ok_0.name == name && r->Ok_0.kind == ActivityType::Streaming
                && r->Ok_0.state is None && r->Ok_0.url is Some
                && r->Ok_0.url->0@ == url_parse(url@)->0,
            r is Err ==> r->Err_0 == GatewayError::BuildingUrl,
    {
        match parse_url(url) {
            Some(parsed) => Ok(
                ActivityData {
                    name,
                    kind: ActivityType::Streaming,
                    state: None,
                    url: Some(parsed),
                },
            ),
            None => Err(GatewayError::BuildingUrl),
        }
    }

    /// Creates an activity that appears as `Listening to <name>`.
    #[must_use]
    pub fn listening(name: String) -> (r: ActivityData)
        ensures
            r == (ActivityData { name, kind: ActivityType::Listening, state: None, url: None }),
    {
        ActivityData { name, kind: ActivityType::Listening, state: None, url: None }
    }

    /// Creates an activity that appears as `Watching <name>`.
    #[must_use]
    pub fn watching(name: String) -> (r: ActivityData)
        ensures
            r == (ActivityData { name, kind: ActivityType::Watching, state: None, url: None }),
    {
        ActivityData { name, kind: ActivityType::Watching, state: None, url: None }
    }

    /// Creates an activity that appears as `Competing in <name>`.
    #[must_use]
    pub fn competing(name: String) -> (r: ActivityData)
        ensures
            r == (ActivityData { name, kind: ActivityType::Competing, state: None, url: None }),
    {
        ActivityData { name, kind: ActivityType::Competing, state: None, url: None }
    }

    /// Creates an activity that appears as `<state>`. The remote side
    /// requires a name for custom activities even though it is not
    /// displayed, so a placeholder is stored.
    #[must_use]
    pub fn custom(state: String) -> (r: ActivityData)
        ensures
            r.name@ == "~"@,
            r.kind == ActivityType::Custom,
            r.state == Some(state),
            r.url is None,
    {
        ActivityData {
            name: "~".to_string(),
            kind: ActivityType::Custom,
            state: Some(state),
            url: None,
        }
    }
}

impl From<Activity> for ActivityData {
    /// The activity data a full activity reduces to: its name, kind, state
    /// and url.
    fn from(activity: Activity) -> (r: ActivityData)
    {
        ActivityData {
            name: activity.name,
            kind: activity.kind,
            state: activity.state,
            url: activity.url,
        }
    }
}

impl vstd::std_specs::convert::FromSpecImpl<Activity> for ActivityData {
    open spec fn obeys_from_spec() -> bool {
        true
    }

    open spec fn from_spec(activity: Activity) -> ActivityData {
        ActivityData {
            name: activity.name,
            kind: activity.kind,
            state: activity.state,
            url: activity.url,
        }
    }
}

/// Presence data of the current user, supplied at connection build time and
/// re-sent on every Identify.
#[derive(Clone, Debug)]
pub struct PresenceData {
    /// The current activity, if present.
    pub activity: Option<ActivityData>,
    /// The current online status.
    pub status: crate::model::OnlineStatus,
}

impl Default for PresenceData {
    /// The default presence carries no activity and the default status.
    fn default() -> (r: PresenceData)
        ensures
            r.activity is None,
            r.status == crate::model::OnlineStatus::Online,
    {
        PresenceData { activity: None, status: crate::model::OnlineStatus::Online }
    }
}

/// The filter for an outbound guild-member chunk request. A query and an id
/// set are mutually exclusive, and each caps the server-side result at a
/// fixed count.
#[derive(Clone, Debug)]
pub enum ChunkGuildFilter {
    /// Returns all members of the guilds specified.
    NoFilter,
    /// A common username prefix filter for the members returned.
    Query(String),
    /// A set of exact user ids to query for.
    UserIds(Vec<UserId>),
}

impl ChunkGuildFilter {
    /// The cap the server applies to the result of a filtered request:
    /// an unfiltered request is uncapped, while a query or an id set
    /// returns at most one hundred members.
    pub open spec fn result_cap_spec(self) -> Option<u64> {
        match self {
            ChunkGuildFilter::NoFilter => None,
            ChunkGuildFilter::Query(_) => Some(100u64),
            ChunkGuildFilter::UserIds(_) => Some(100u64),
        }
    }

    /// The cap the server applies to the result of this request, if any.
    pub fn result_cap(&self) -> (r: Option<u64>)
        ensures
            r == self.result_cap_spec(),
    {
        match self {
            ChunkGuildFilter::NoFilter => None,
            ChunkGuildFilter::Query(_) => Some(100),
            ChunkGuildFilter::UserIds(_) => Some(100),
        }
    }
}

} // verus!
