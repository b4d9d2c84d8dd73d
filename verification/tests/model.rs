use gateway_client::envelope::{GatewayEnvelope, Opcode};
use gateway_client::error::{ClientError, GatewayError};
use gateway_client::ids::UserId;
use gateway_client::model::{ActivityType, PremiumType, PresenceUser, UserPublicFlags};
use gateway_client::stage::ConnectionStage;

#[test]
fn opcode_wire_values_match_the_protocol() {
    assert_eq!(Opcode::Dispatch.to_u8(), 0);
    assert_eq!(Opcode::Heartbeat.to_u8(), 1);
    assert_eq!(Opcode::Identify.to_u8(), 2);
    assert_eq!(Opcode::PresenceUpdate.to_u8(), 3);
    assert_eq!(Opcode::VoiceStateUpdate.to_u8(), 4);
    assert_eq!(Opcode::Resume.to_u8(), 6);
    assert_eq!(Opcode::Reconnect.to_u8(), 7);
    assert_eq!(Opcode::RequestGuildMembers.to_u8(), 8);
    assert_eq!(Opcode::InvalidSession.to_u8(), 9);
    assert_eq!(Opcode::Hello.to_u8(), 10);
    assert_eq!(Opcode::HeartbeatAck.to_u8(), 11);
}

#[test]
fn opcode_decoding_round_trips() {
    for n in 0u8..=255 {
        match Opcode::from_u8(n) {
            Some(op) => assert_eq!(op.to_u8(), n),
            None => assert!(n == 5 || n > 11),
        }
    }
}

#[test]
fn envelope_opcode_decoding() {
    let env = GatewayEnvelope {
        opcode: 10,
        sequence: None,
        event_name: None,
        payload: vec![0x7b],
    };
    assert_eq!(env.decode_opcode(), Some(Opcode::Hello));
    let bad = GatewayEnvelope {
        opcode: 5,
        sequence: None,
        event_name: None,
        payload: vec![],
    };
    assert_eq!(bad.decode_opcode(), None);
}

#[test]
fn activity_type_wire_values_round_trip() {
    assert_eq!(ActivityType::Playing.to_u8(), 0);
    assert_eq!(ActivityType::Streaming.to_u8(), 1);
    assert_eq!(ActivityType::Listening.to_u8(), 2);
    assert_eq!(ActivityType::Watching.to_u8(), 3);
    assert_eq!(ActivityType::Custom.to_u8(), 4);
    assert_eq!(ActivityType::Competing.to_u8(), 5);
    assert_eq!(ActivityType::from_u8(3), ActivityType::Watching);
    assert_eq!(ActivityType::from_u8(9), ActivityType::Unknown(9));
    assert_eq!(ActivityType::from_u8(9).to_u8(), 9);
    assert_eq!(ActivityType::default(), ActivityType::Playing);
}

#[test]
fn connection_stage_names_and_classification() {
    assert_eq!(ConnectionStage::Connected.name(), "connected");
    assert_eq!(ConnectionStage::Connecting.name(), "connecting");
    assert_eq!(ConnectionStage::Disconnected.name(), "disconnected");
    assert_eq!(ConnectionStage::Handshake.name(), "handshaking");
    assert_eq!(ConnectionStage::Identifying.name(), "identifying");
    assert_eq!(ConnectionStage::Resuming.name(), "resuming");

    assert!(ConnectionStage::Connecting.is_connecting());
    assert!(ConnectionStage::Handshake.is_connecting());
    assert!(ConnectionStage::Identifying.is_connecting());
    assert!(ConnectionStage::Resuming.is_connecting());
    assert!(!ConnectionStage::Connected.is_connecting());
    assert!(!ConnectionStage::Disconnected.is_connecting());
}

#[test]
fn gateway_error_messages() {
    assert_eq!(GatewayError::BuildingUrl.message(), "Error building url");
    assert_eq!(GatewayError::Closed(None).message(), "Connection closed");
    assert_eq!(GatewayError::ExpectedHello.message(), "Expected a Hello");
    assert_eq!(GatewayError::HeartbeatFailed.message(), "Failed sending a heartbeat");
    assert_eq!(GatewayError::InvalidAuthentication.message(), "Sent invalid authentication");
    assert_eq!(GatewayError::InvalidHandshake.message(), "Expected a valid Handshake");
    assert_eq!(GatewayError::NoAuthentication.message(), "Sent no authentication");
    assert_eq!(GatewayError::NoSessionId.message(), "No Session Id present when required");
    assert_eq!(GatewayError::ReconnectFailure.message(), "Failed to Reconnect");
    assert!(GatewayError::NoSessionId.same_kind(&GatewayError::NoSessionId));
    assert!(!GatewayError::NoSessionId.same_kind(&GatewayError::ExpectedHello));
    assert_eq!(ClientError::Shutdown.message(), "The client shutdown");
}

fn presence_user() -> PresenceUser {
    PresenceUser {
        id: UserId(77),
        avatar: Some("a1b2".to_string()),
        bot: Some(false),
        discriminator: Some(1234),
        email: None,
        mfa_enabled: None,
        name: Some("ferris".to_string()),
        verified: Some(true),
        public_flags: None,
    }
}

#[test]
fn into_user_fills_defaults() {
    let u = presence_user().into_user().expect("required fields are present");
    assert_eq!(u.id, UserId(77));
    assert_eq!(u.name, "ferris");
    assert!(!u.bot);
    assert_eq!(u.discriminator, Some(1234));
    assert_eq!(u.avatar.as_deref(), Some("a1b2"));
    assert!(!u.mfa_enabled);
    assert!(!u.system);
    assert_eq!(u.global_name, None);
    assert_eq!(u.flags, UserPublicFlags { bits: 0 });
    assert_eq!(u.premium_type, PremiumType::NoPremium);
    assert_eq!(u.verified, Some(true));
}

#[test]
fn into_user_requires_bot_and_name() {
    let mut missing_bot = presence_user();
    missing_bot.bot = None;
    assert!(missing_bot.into_user().is_none());

    let mut missing_name = presence_user();
    missing_name.name = None;
    assert!(missing_name.into_user().is_none());
}

#[test]
fn to_user_clones_without_consuming() {
    let p = presence_user();
    let u = p.to_user().expect("required fields are present");
    assert_eq!(u.name, "ferris");
    // The original record is still usable afterwards.
    assert_eq!(p.name.as_deref(), Some("ferris"));
}

#[test]
fn update_with_user_overwrites_and_keeps() {
    let mut p = presence_user();
    let mut u = p.clone().into_user().expect("required fields are present");
    u.id = UserId(99);
    u.name = "crab".to_string();
    u.avatar = None;
    u.public_flags = Some(UserPublicFlags { bits: 64 });
    p.update_with_user(&u);
    assert_eq!(p.id, UserId(99));
    assert_eq!(p.name.as_deref(), Some("crab"));
    // An absent avatar on the user leaves the stored one in place.
    assert_eq!(p.avatar.as_deref(), Some("a1b2"));
    assert_eq!(p.public_flags, Some(UserPublicFlags { bits: 64 }));
    assert_eq!(p.bot, Some(false));
}
