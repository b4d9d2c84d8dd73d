use gateway_client::error::GatewayError;
use gateway_client::ids::UserId;
use gateway_client::machine::connect_url;
use gateway_client::model::{ActivityType, OnlineStatus};
use gateway_client::payload::{build_identify, build_resume};
use gateway_client::presence::{ActivityData, ChunkGuildFilter, PresenceData};
use gateway_client::session::SessionState;

#[test]
fn activity_constructors_set_kind_and_fields() {
    let a = ActivityData::playing("chess".to_string());
    assert_eq!(a.name, "chess");
    assert_eq!(a.kind, ActivityType::Playing);
    assert_eq!(a.state, None);
    assert_eq!(a.url, None);

    let a = ActivityData::listening("a song".to_string());
    assert_eq!(a.kind, ActivityType::Listening);

    let a = ActivityData::watching("a film".to_string());
    assert_eq!(a.kind, ActivityType::Watching);

    let a = ActivityData::competing("a contest".to_string());
    assert_eq!(a.kind, ActivityType::Competing);

    let a = ActivityData::custom("just vibing".to_string());
    assert_eq!(a.kind, ActivityType::Custom);
    assert_eq!(a.name, "~");
    assert_eq!(a.state.as_deref(), Some("just vibing"));
}

#[test]
fn streaming_validates_and_normalizes_the_url() {
    let a = ActivityData::streaming("speedrun".to_string(), "https://example.com")
        .expect("a valid url must be accepted");
    assert_eq!(a.kind, ActivityType::Streaming);
    assert_eq!(a.name, "speedrun");
    // The stored url is the parser's normalized form, not the raw input.
    assert_eq!(a.url.as_deref(), Some("https://example.com/"));

    let err = ActivityData::streaming("speedrun".to_string(), "not a url")
        .expect_err("an invalid url must be rejected");
    assert!(matches!(err, GatewayError::BuildingUrl));
}

#[test]
fn presence_defaults_to_online_with_no_activity() {
    let p = PresenceData::default();
    assert!(p.activity.is_none());
    assert_eq!(p.status, OnlineStatus::Online);
    assert_eq!(OnlineStatus::default(), OnlineStatus::Online);
}

#[test]
fn chunk_filter_caps() {
    assert_eq!(ChunkGuildFilter::NoFilter.result_cap(), None);
    assert_eq!(ChunkGuildFilter::Query("ab".to_string()).result_cap(), Some(100));
    assert_eq!(
        ChunkGuildFilter::UserIds(vec![UserId(1), UserId(2)]).result_cap(),
        Some(100)
    );
}

#[test]
fn identify_requires_a_token() {
    let err = build_identify(String::new(), 513, 0, 1, PresenceData::default())
        .expect_err("an empty token must be rejected");
    assert!(matches!(err, GatewayError::NoAuthentication));

    let p = build_identify("Bot token".to_string(), 513, 2, 4, PresenceData::default())
        .expect("a token must be accepted");
    assert_eq!(p.token, "Bot token");
    assert_eq!(p.intents, 513);
    assert_eq!(p.shard_id, 2);
    assert_eq!(p.shard_count, 4);
}

#[test]
fn resume_requires_a_resumable_session_with_an_id() {
    let fresh = SessionState::new(0, 1);
    let err = build_resume("Bot token".to_string(), &fresh)
        .expect_err("a fresh session cannot be resumed");
    assert!(matches!(err, GatewayError::NoSessionId));

    let mut s = SessionState::new(0, 1);
    s.record_ready("sess".to_string(), "wss://r".to_string());
    s.observe_dispatch(12);

    let err = build_resume(String::new(), &s).expect_err("an empty token must be rejected");
    assert!(matches!(err, GatewayError::NoAuthentication));

    let p = build_resume("Bot token".to_string(), &s).expect("resume must build");
    assert_eq!(p.session_id, "sess");
    assert_eq!(p.sequence, 12);
    assert_eq!(p.token, "Bot token");
}

#[test]
fn resume_with_no_sequence_echoes_zero() {
    let mut s = SessionState::new(0, 1);
    s.record_ready("sess".to_string(), "wss://r".to_string());
    let p = build_resume("Bot token".to_string(), &s).expect("resume must build");
    assert_eq!(p.sequence, 0);
}

#[test]
fn connect_url_prefers_resume_then_fetched_then_default() {
    let mut s = SessionState::new(0, 1);
    assert_eq!(
        connect_url(&s, Some("wss://fetched".to_string())),
        "wss://fetched"
    );
    assert_eq!(connect_url(&s, None), "wss://gateway.discord.gg");

    s.record_ready("sess".to_string(), "wss://resume-here".to_string());
    assert_eq!(
        connect_url(&s, Some("wss://fetched".to_string())),
        "wss://resume-here"
    );

    s.invalidate();
    assert_eq!(connect_url(&s, None), "wss://gateway.discord.gg");
}
