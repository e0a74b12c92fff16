use korangar_networking::SupportedPacketVersion;
use korangar_networking::event::CharacterServerLoginData;
use korangar_networking::event::LoginServerLoginData;
use korangar_networking::phase::ConnectionPhase;
use korangar_networking::event::HotkeyState;
use korangar_networking::event::MessageColor;
use korangar_networking::event::NetworkEvent;
use korangar_networking::event::UnifiedCharacterSelectionFailedReason;
use korangar_networking::event::UnifiedLoginFailedReason;
use korangar_networking::normalize::normalize_character_server_banned;
use korangar_networking::normalize::normalize_login_banned;
use korangar_networking::normalize::normalize_login_failed2;
use korangar_networking::normalize::normalize_login_success;
use korangar_networking::normalize::normalize_update_stat;
use korangar_networking::normalize::normalize_update_stat1;
use korangar_networking::normalize::normalize_update_stat2;
use korangar_networking::normalize::normalize_update_stat3;
use korangar_networking::normalize::split_dialog_choices;
use korangar_networking::normalize::strip_map_extension;
use korangar_networking::packet::BuyOrSellPacket;
use korangar_networking::packet::ChangeMapPacket;
use korangar_networking::packet::CharacterInformation;
use korangar_networking::packet::CharacterListPacket;
use korangar_networking::packet::DecodedPacket;
use korangar_networking::packet::DialogMenuPacket;
use korangar_networking::packet::DisconnectResponsePacket;
use korangar_networking::packet::DisconnectResponseStatus;
use korangar_networking::packet::EntityMovePacket;
use korangar_networking::packet::HotkeyData;
use korangar_networking::packet::LoginBannedPacket;
use korangar_networking::packet::LoginFailedPacket2;
use korangar_networking::packet::LoginFailedReason;
use korangar_networking::packet::LoginFailedReason2;
use korangar_networking::packet::LoginServerLoginSuccessPacket;
use korangar_networking::packet::PlayerMovePacket;
use korangar_networking::packet::RestartResponsePacket;
use korangar_networking::packet::RestartResponseStatus;
use korangar_networking::packet::SpriteChangePacket;
use korangar_networking::packet::SpriteChangeType;
use korangar_networking::packet::UpdateHotkeysPacket;
use korangar_networking::packet::UpdateStatPacket;
use korangar_networking::packet::UpdateStatPacket1;
use korangar_networking::packet::UpdateStatPacket2;
use korangar_networking::packet::UpdateStatPacket3;
use korangar_networking::packet::WorldPosition;
use korangar_networking::packet::WorldPosition2;
use korangar_networking::registry::DispatchResult;
use korangar_networking::registry::Handler;
use korangar_networking::registry::PacketHandler;
use korangar_networking::version_20120307::register_character_server_packets;
use korangar_networking::version_20120307::register_login_server_packets;
use korangar_networking::version_20120307::register_map_server_packets;

fn handled_events(result: DispatchResult) -> Vec<NetworkEvent> {
    match result {
        DispatchResult::Handled(events) => events,
        DispatchResult::Unhandled => panic!("expected the opcode to be handled"),
    }
}

fn character(id: u32, slot: u8, name: &str) -> CharacterInformation {
    CharacterInformation {
        character_id: id,
        slot,
        name: name.to_owned(),
    }
}

#[test]
fn version_strings() {
    assert_eq!(SupportedPacketVersion::_20220406.as_str(), "20220406");
    assert_eq!(SupportedPacketVersion::_20120307.as_str(), "20120307");
}

#[test]
fn all_three_phase_registrations_succeed() {
    let mut login = PacketHandler::new();
    assert!(register_login_server_packets(&mut login).is_ok());
    let mut character = PacketHandler::new();
    assert!(register_character_server_packets(&mut character).is_ok());
    let mut map = PacketHandler::new();
    assert!(register_map_server_packets(&mut map).is_ok());
}

#[test]
fn registered_opcode_is_never_unhandled() {
    let mut registry = PacketHandler::new();
    register_login_server_packets(&mut registry).unwrap();
    let packet = DecodedPacket::LoginBanned(LoginBannedPacket {
        reason: LoginFailedReason::ServerClosed,
    });
    let events = handled_events(registry.dispatch(packet));
    assert_eq!(events.len(), 1);
    match &events[0] {
        NetworkEvent::LoginServerConnectionFailed { reason, message } => {
            assert_eq!(*reason, UnifiedLoginFailedReason::ServerClosed);
            assert_eq!(*message, "Server closed");
        }
        other => panic!("unexpected event: {other:?}"),
    }
}

#[test]
fn duplicate_registration_fails_and_keeps_original() {
    let mut registry = PacketHandler::new();
    assert!(registry.register(Handler::ChangeMap).is_ok());
    assert!(registry.register(Handler::ChangeMap).is_err());
    let packet = DecodedPacket::ChangeMap(ChangeMapPacket {
        map_name: "geffen.gat".to_owned(),
        position: WorldPosition { x: 5, y: 6 },
    });
    let events = handled_events(registry.dispatch(packet));
    assert_eq!(events.len(), 1);
    match &events[0] {
        NetworkEvent::ChangeMap { map_name, position } => {
            assert_eq!(map_name, "geffen");
            assert_eq!(*position, WorldPosition { x: 5, y: 6 });
        }
        other => panic!("unexpected event: {other:?}"),
    }
}

#[test]
fn duplicate_noop_registration_fails() {
    let mut registry = PacketHandler::new();
    assert!(registry.register_noop(0x0123).is_ok());
    assert!(registry.register_noop(0x0123).is_err());
}

#[test]
fn noop_opcode_dispatches_to_empty_events() {
    let mut registry = PacketHandler::new();
    register_character_server_packets(&mut registry).unwrap();
    let events = handled_events(registry.dispatch(DecodedPacket::LoginPincode));
    assert!(events.is_empty());
}

#[test]
fn unregistered_opcode_is_unhandled() {
    let mut registry = PacketHandler::new();
    register_login_server_packets(&mut registry).unwrap();
    let result = registry.dispatch(DecodedPacket::MapServerPing);
    assert!(matches!(result, DispatchResult::Unhandled));
}

#[test]
fn character_list_expands_into_two_ordered_events() {
    let mut registry = PacketHandler::new();
    register_character_server_packets(&mut registry).unwrap();
    let records = vec![
        character(11, 0, "Aria"),
        character(22, 1, "Borin"),
        character(33, 2, "Cale"),
    ];
    let packet = DecodedPacket::CharacterList(CharacterListPacket {
        maximum_slot_count: 9,
        character_information: records,
    });
    let events = handled_events(registry.dispatch(packet));
    assert_eq!(events.len(), 2);
    match &events[0] {
        NetworkEvent::CharacterServerConnected { normal_slot_count } => {
            assert_eq!(*normal_slot_count, 9);
        }
        other => panic!("unexpected first event: {other:?}"),
    }
    match &events[1] {
        NetworkEvent::CharacterList { characters } => {
            let names: Vec<&str> = characters.iter().map(|c| c.name.as_str()).collect();
            assert_eq!(names, vec!["Aria", "Borin", "Cale"]);
            let ids: Vec<u32> = characters.iter().map(|c| c.character_id).collect();
            assert_eq!(ids, vec![11, 22, 33]);
        }
        other => panic!("unexpected second event: {other:?}"),
    }
}

#[test]
fn empty_character_list_still_expands_into_two_events() {
    let mut registry = PacketHandler::new();
    register_character_server_packets(&mut registry).unwrap();
    let packet = DecodedPacket::CharacterList(CharacterListPacket {
        maximum_slot_count: 0,
        character_information: Vec::new(),
    });
    let events = handled_events(registry.dispatch(packet));
    assert_eq!(events.len(), 2);
    assert!(matches!(
        events[0],
        NetworkEvent::CharacterServerConnected { normal_slot_count: 0 }
    ));
    match &events[1] {
        NetworkEvent::CharacterList { characters } => assert!(characters.is_empty()),
        other => panic!("unexpected second event: {other:?}"),
    }
}

fn login_failure_pair(events: Vec<NetworkEvent>) -> (UnifiedLoginFailedReason, &'static str) {
    assert_eq!(events.len(), 1);
    match &events[0] {
        NetworkEvent::LoginServerConnectionFailed { reason, message } => (*reason, *message),
        other => panic!("unexpected event: {other:?}"),
    }
}

#[test]
fn login_failure_codes_map_to_distinct_nonempty_pairs() {
    let family1 = [
        LoginFailedReason::ServerClosed,
        LoginFailedReason::AlreadyLoggedIn,
        LoginFailedReason::AlreadyOnline,
    ];
    let family2 = [
        LoginFailedReason2::UnregisteredId,
        LoginFailedReason2::IncorrectPassword,
        LoginFailedReason2::IdExpired,
        LoginFailedReason2::RejectedFromServer,
        LoginFailedReason2::BlockedByGMTeam,
        LoginFailedReason2::GameOutdated,
        LoginFailedReason2::LoginProhibitedUntil,
        LoginFailedReason2::ServerFull,
        LoginFailedReason2::CompanyAccountLimitReached,
    ];
    let mut pairs: Vec<(UnifiedLoginFailedReason, &'static str)> = Vec::new();
    for reason in family1 {
        pairs.push(login_failure_pair(normalize_login_banned(LoginBannedPacket { reason })));
    }
    for reason in family2 {
        pairs.push(login_failure_pair(normalize_login_failed2(LoginFailedPacket2 { reason })));
    }
    assert_eq!(pairs.len(), 12);
    for (reason, message) in &pairs {
        assert!(!message.is_empty(), "empty message for {reason:?}");
    }
    for i in 0..pairs.len() {
        for j in (i + 1)..pairs.len() {
            assert_ne!(pairs[i], pairs[j], "raw codes {i} and {j} collapsed");
        }
    }
}

#[test]
fn login_failure_messages_are_stable() {
    let (reason, message) = login_failure_pair(normalize_login_failed2(LoginFailedPacket2 {
        reason: LoginFailedReason2::IncorrectPassword,
    }));
    assert_eq!(reason, UnifiedLoginFailedReason::IncorrectPassword);
    assert_eq!(message, "Incorrect password");
    let (reason, message) = login_failure_pair(normalize_login_banned(LoginBannedPacket {
        reason: LoginFailedReason::AlreadyLoggedIn,
    }));
    assert_eq!(reason, UnifiedLoginFailedReason::AlreadyLoggedIn);
    assert_eq!(message, "Someone has already logged in with this id");
}

#[test]
fn character_server_ban_keeps_raw_reason_and_message() {
    let events = normalize_character_server_banned(LoginBannedPacket {
        reason: LoginFailedReason::AlreadyOnline,
    });
    assert_eq!(events.len(), 1);
    match &events[0] {
        NetworkEvent::CharacterServerConnectionFailed { reason, message } => {
            assert_eq!(*reason, LoginFailedReason::AlreadyOnline);
            assert_eq!(*message, "Already online");
        }
        other => panic!("unexpected event: {other:?}"),
    }
}

#[test]
fn sprite_change_filters_by_discriminant() {
    let mut registry = PacketHandler::new();
    register_map_server_packets(&mut registry).unwrap();
    let base = DecodedPacket::SpriteChange(SpriteChangePacket {
        account_id: 900,
        sprite_type: SpriteChangeType::Base,
        value: 4011,
    });
    let events = handled_events(registry.dispatch(base));
    assert_eq!(events.len(), 1);
    assert!(matches!(
        events[0],
        NetworkEvent::ChangeJob { account_id: 900, job_id: 4011 }
    ));
    let hair = DecodedPacket::SpriteChange(SpriteChangePacket {
        account_id: 900,
        sprite_type: SpriteChangeType::Hair,
        value: 7,
    });
    let events = handled_events(registry.dispatch(hair));
    assert_eq!(events.len(), 1);
    assert!(matches!(
        events[0],
        NetworkEvent::ChangeHair { account_id: 900, hair_id: 7 }
    ));
    for sprite_type in [
        SpriteChangeType::Weapon,
        SpriteChangeType::HeadBottom,
        SpriteChangeType::HeadTop,
        SpriteChangeType::HeadMiddle,
        SpriteChangeType::Robe,
        SpriteChangeType::Shield,
        SpriteChangeType::Shoes,
    ] {
        let packet = DecodedPacket::SpriteChange(SpriteChangePacket {
            account_id: 900,
            sprite_type,
            value: 1,
        });
        let events = handled_events(registry.dispatch(packet));
        assert!(events.is_empty(), "{sprite_type:?} should be filtered out");
    }
}

#[test]
fn player_movement_decomposes() {
    let mut registry = PacketHandler::new();
    register_map_server_packets(&mut registry).unwrap();
    let packet = DecodedPacket::PlayerMove(PlayerMovePacket {
        starting_timestamp: 123456,
        from_to: WorldPosition2 {
            origin_x: 3,
            origin_y: 4,
            destination_x: 10,
            destination_y: 4,
        },
    });
    let events = handled_events(registry.dispatch(packet));
    assert_eq!(events.len(), 1);
    match &events[0] {
        NetworkEvent::PlayerMove { origin, destination, starting_timestamp } => {
            assert_eq!(*origin, WorldPosition { x: 3, y: 4 });
            assert_eq!(*destination, WorldPosition { x: 10, y: 4 });
            assert_eq!(*starting_timestamp, 123456);
        }
        other => panic!("unexpected event: {other:?}"),
    }
}

#[test]
fn entity_movement_decomposes() {
    let mut registry = PacketHandler::new();
    register_map_server_packets(&mut registry).unwrap();
    let packet = DecodedPacket::EntityMove(EntityMovePacket {
        entity_id: 4242,
        from_to: WorldPosition2 {
            origin_x: 1,
            origin_y: 2,
            destination_x: 8,
            destination_y: 9,
        },
        starting_timestamp: 77,
    });
    let events = handled_events(registry.dispatch(packet));
    assert_eq!(events.len(), 1);
    match &events[0] {
        NetworkEvent::EntityMove { entity_id, origin, destination, starting_timestamp } => {
            assert_eq!(*entity_id, 4242);
            assert_eq!(*origin, WorldPosition { x: 1, y: 2 });
            assert_eq!(*destination, WorldPosition { x: 8, y: 9 });
            assert_eq!(*starting_timestamp, 77);
        }
        other => panic!("unexpected event: {other:?}"),
    }
}

#[test]
fn map_name_extension_is_stripped() {
    assert_eq!(strip_map_extension("prontera.gat"), "prontera");
    assert_eq!(strip_map_extension("prontera"), "prontera");
    assert_eq!(strip_map_extension(".gat"), "");
    assert_eq!(strip_map_extension("a.gat.gat"), "a.gat");
    assert_eq!(strip_map_extension("gat"), "gat");
    assert_eq!(strip_map_extension(""), "");
}

#[test]
fn change_map_event_carries_normalized_name() {
    let mut registry = PacketHandler::new();
    register_map_server_packets(&mut registry).unwrap();
    let packet = DecodedPacket::ChangeMap(ChangeMapPacket {
        map_name: "prontera.gat".to_owned(),
        position: WorldPosition { x: 155, y: 180 },
    });
    let events = handled_events(registry.dispatch(packet));
    assert_eq!(events.len(), 1);
    match &events[0] {
        NetworkEvent::ChangeMap { map_name, position } => {
            assert_eq!(map_name, "prontera");
            assert_eq!(*position, WorldPosition { x: 155, y: 180 });
        }
        other => panic!("unexpected event: {other:?}"),
    }
}

#[test]
fn dialog_choices_split_at_colons_and_drop_empties() {
    assert_eq!(split_dialog_choices("Yes:No:"), vec!["Yes", "No"]);
    assert_eq!(split_dialog_choices("a::b"), vec!["a", "b"]);
    assert_eq!(split_dialog_choices(""), Vec::<String>::new());
    assert_eq!(split_dialog_choices(":"), Vec::<String>::new());
    assert_eq!(split_dialog_choices("single"), vec!["single"]);
    assert_eq!(split_dialog_choices(":lead"), vec!["lead"]);
}

#[test]
fn dialog_menu_event_carries_choices_in_order() {
    let mut registry = PacketHandler::new();
    register_map_server_packets(&mut registry).unwrap();
    let packet = DecodedPacket::DialogMenu(DialogMenuPacket {
        npc_id: 31,
        message: "Buy:Sell:Cancel:".to_owned(),
    });
    let events = handled_events(registry.dispatch(packet));
    assert_eq!(events.len(), 1);
    match &events[0] {
        NetworkEvent::AddChoiceButtons { choices, npc_id } => {
            assert_eq!(*npc_id, 31);
            assert_eq!(choices, &vec!["Buy", "Sell", "Cancel"]);
        }
        other => panic!("unexpected event: {other:?}"),
    }
}

#[test]
fn hotkeys_classify_against_the_unbound_sentinel() {
    let mut registry = PacketHandler::new();
    register_map_server_packets(&mut registry).unwrap();
    let unbound = HotkeyData {
        is_skill: 0,
        skill_id: 0,
        quantity_or_skill_level: 0,
    };
    let bound = HotkeyData {
        is_skill: 1,
        skill_id: 28,
        quantity_or_skill_level: 10,
    };
    let packet = DecodedPacket::UpdateHotkeys(UpdateHotkeysPacket {
        tab: 2,
        hotkeys: vec![unbound, bound, unbound],
    });
    let events = handled_events(registry.dispatch(packet));
    assert_eq!(events.len(), 1);
    match &events[0] {
        NetworkEvent::SetHotkeyData { tab, hotkeys } => {
            assert_eq!(*tab, 2);
            assert_eq!(hotkeys.len(), 3);
            assert!(matches!(hotkeys[0], HotkeyState::Unbound));
            match hotkeys[1] {
                HotkeyState::Bound(data) => assert_eq!(data, bound),
                HotkeyState::Unbound => panic!("slot 1 should be bound"),
            }
            assert!(matches!(hotkeys[2], HotkeyState::Unbound));
        }
        other => panic!("unexpected event: {other:?}"),
    }
}

fn stat_update(events: Vec<NetworkEvent>) -> (u16, i64) {
    assert_eq!(events.len(), 1);
    match &events[0] {
        NetworkEvent::UpdateStat { stat_id, value } => (*stat_id, *value),
        other => panic!("unexpected event: {other:?}"),
    }
}

#[test]
fn all_stat_wire_shapes_unify() {
    let (id, value) = stat_update(normalize_update_stat(UpdateStatPacket {
        stat_id: 5,
        value: 120,
    }));
    assert_eq!((id, value), (5, 120));
    let (id, value) = stat_update(normalize_update_stat1(UpdateStatPacket1 {
        stat_id: 6,
        value: -4,
    }));
    assert_eq!((id, value), (6, -4));
    let (id, value) = stat_update(normalize_update_stat2(UpdateStatPacket2 {
        stat_id: 7,
        base_value: 10,
        bonus_value: -3,
    }));
    assert_eq!((id, value), (7, 7));
    let (id, value) = stat_update(normalize_update_stat3(UpdateStatPacket3 {
        stat_id: 8,
        value: 9_000_000_000,
    }));
    assert_eq!((id, value), (8, 9_000_000_000));
}

#[test]
fn restart_and_disconnect_responses_normalize() {
    let mut registry = PacketHandler::new();
    register_map_server_packets(&mut registry).unwrap();
    let events = handled_events(registry.dispatch(DecodedPacket::RestartResponse(
        RestartResponsePacket { result: RestartResponseStatus::Okay },
    )));
    assert_eq!(events.len(), 1);
    assert!(matches!(events[0], NetworkEvent::LoggedOut));
    let events = handled_events(registry.dispatch(DecodedPacket::RestartResponse(
        RestartResponsePacket { result: RestartResponseStatus::Nothing },
    )));
    match &events[0] {
        NetworkEvent::ChatMessage { text, color } => {
            assert_eq!(*text, "Failed to log out.");
            assert_eq!(*color, MessageColor::Error);
        }
        other => panic!("unexpected event: {other:?}"),
    }
    let events = handled_events(registry.dispatch(DecodedPacket::DisconnectResponse(
        DisconnectResponsePacket { result: DisconnectResponseStatus::Wait10Seconds },
    )));
    match &events[0] {
        NetworkEvent::ChatMessage { text, color } => {
            assert_eq!(*text, "Please wait 10 seconds before trying to log out.");
            assert_eq!(*color, MessageColor::Error);
        }
        other => panic!("unexpected event: {other:?}"),
    }
}

#[test]
fn map_server_unavailable_is_a_selection_failure() {
    let mut registry = PacketHandler::new();
    register_character_server_packets(&mut registry).unwrap();
    let events = handled_events(registry.dispatch(DecodedPacket::MapServerUnavailable));
    assert_eq!(events.len(), 1);
    match &events[0] {
        NetworkEvent::CharacterSelectionFailed { reason, message } => {
            assert_eq!(*reason, UnifiedCharacterSelectionFailedReason::MapServerUnavailable);
            assert_eq!(*message, "Map server currently unavailable");
        }
        other => panic!("unexpected event: {other:?}"),
    }
}

#[test]
fn login_success_carries_login_data_and_truncates_wide_token() {
    let packet = LoginServerLoginSuccessPacket {
        account_id: 2000001,
        login_id1: 0x1_0000_0002,
        login_id2: 99,
        sex: 1,
        character_server_information: Vec::new(),
    };
    let events = normalize_login_success(packet);
    assert_eq!(events.len(), 1);
    match &events[0] {
        NetworkEvent::LoginServerConnected { character_servers, login_data } => {
            assert!(character_servers.is_empty());
            assert_eq!(login_data.account_id, 2000001);
            assert_eq!(login_data.login_id1, 2);
            assert_eq!(login_data.login_id2, 99);
            assert_eq!(login_data.sex, 1);
        }
        other => panic!("unexpected event: {other:?}"),
    }
}

#[test]
fn map_server_ping_is_handled_with_no_events() {
    let mut registry = PacketHandler::new();
    register_map_server_packets(&mut registry).unwrap();
    let events = handled_events(registry.dispatch(DecodedPacket::MapServerPing));
    assert!(events.is_empty());
}

#[test]
fn buy_or_sell_passes_shop_id_through() {
    let mut registry = PacketHandler::new();
    register_map_server_packets(&mut registry).unwrap();
    let events = handled_events(registry.dispatch(DecodedPacket::BuyOrSell(BuyOrSellPacket {
        shop_id: 555,
    })));
    assert_eq!(events.len(), 1);
    assert!(matches!(events[0], NetworkEvent::AskBuyOrSell { shop_id: 555 }));
}

#[test]
fn connection_phase_transitions() {
    let login_event = NetworkEvent::LoginServerConnected {
        character_servers: Vec::new(),
        login_data: LoginServerLoginData { account_id: 1, login_id1: 2, login_id2: 3, sex: 0 },
    };
    let selected_event = NetworkEvent::CharacterSelected {
        login_data: CharacterServerLoginData { server_ip: 0, server_port: 6121, character_id: 7 },
    };
    let phase = ConnectionPhase::Login;
    let phase = phase.transition(&login_event);
    assert_eq!(phase, ConnectionPhase::CharacterSelect);
    let phase = phase.transition(&selected_event);
    assert_eq!(phase, ConnectionPhase::MapServer);
    let phase = phase.transition(&NetworkEvent::LoggedOut);
    assert_eq!(phase, ConnectionPhase::Disconnected);

    // an event that fits no transition leaves the phase unchanged
    let stay = ConnectionPhase::Login.transition(&NetworkEvent::LoggedOut);
    assert_eq!(stay, ConnectionPhase::Login);
    let stay = ConnectionPhase::CharacterSelect.transition(&login_event);
    assert_eq!(stay, ConnectionPhase::CharacterSelect);
}
