//! The unified event model: the closed set of normalized, version-independent
//! events handed to the downstream consumer, and the closed unified reason
//! vocabularies that per-revision reason codes collapse into.

use vstd::prelude::*;

use crate::packet::CharacterInformation;
use crate::packet::CharacterInformationValue;
use crate::packet::CharacterServerInformation;
use crate::packet::CharacterServerInformationValue;
use crate::packet::CharacterCreationFailedReason;
use crate::packet::CharacterDeletionFailedReason;
use crate::packet::HotkeyData;
use crate::packet::LoginFailedReason;
use crate::packet::SkillInformation;
use crate::packet::WorldPosition;

verus! {

/// Unified login-failure reasons: the single closed vocabulary that both raw
/// login-failure code families map into.
#[derive(Debug, Clone, Copy, PartialEq, Eq, Structural)]
pub enum UnifiedLoginFailedReason {
    ServerClosed,
    AlreadyLoggedIn,
    AlreadyOnline,
    UnregisteredId,
    IncorrectPassword,
    IdExpired,
    RejectedFromServer,
    BlockedByGMTeam,
    GameOutdated,
    LoginProhibitedUntil,
    ServerFull,
    CompanyAccountLimitReached,
}

/// Unified character-selection failure reasons.
#[derive(Debug, Clone, Copy, PartialEq, Eq, Structural)]
pub enum UnifiedCharacterSelectionFailedReason {
    RejectedFromServer,
    MapServerUnavailable,
}

/// Color class of a chat message shown to the user.
#[derive(Debug, Clone, Copy, PartialEq, Eq, Structural)]
pub enum MessageColor {
    Error,
}

/// A hotkey slot after classification against the "unbound" wire sentinel.
#[derive(Debug, Clone, Copy, PartialEq, Eq, Structural)]
pub enum HotkeyState {
    Unbound,
    Bound(HotkeyData),
}

/// Login-server session data carried by the connection-established event.
#[derive(Debug, Clone, Copy, PartialEq, Eq, Structural)]
pub struct LoginServerLoginData {
    pub account_id: u32,
    pub login_id1: u32,
    pub login_id2: u32,
    pub sex: u8,
}

/// Map-server connection data carried by the character-selected event.
#[derive(Debug, Clone, Copy, PartialEq, Eq, Structural)]
pub struct CharacterServerLoginData {
    pub server_ip: u32,
    pub server_port: u16,
    pub character_id: u32,
}

/// A normalized, version-independent event. This is the closed vocabulary the
/// downstream consumer sees; no per-revision wire difference leaks through it.
///
/// Every failure event carries its unified (or closed raw) reason together
/// with a fixed human-readable message.
#[derive(Debug, Clone)]
pub enum NetworkEvent {
    LoginServerConnected {
        character_servers: Vec<CharacterServerInformation>,
        login_data: LoginServerLoginData,
    },
    LoginServerConnectionFailed {
        reason: UnifiedLoginFailedReason,
        message: &'static str,
    },
    CharacterServerConnectionFailed {
        reason: LoginFailedReason,
        message: &'static str,
    },
    CharacterServerConnected {
        normal_slot_count: usize,
    },
    CharacterList {
        characters: Vec<CharacterInformation>,
    },
    CharacterSelected {
        login_data: CharacterServerLoginData,
    },
    CharacterSelectionFailed {
        reason: UnifiedCharacterSelectionFailedReason,
        message: &'static str,
    },
    CharacterCreated {
        character_information: CharacterInformation,
    },
    CharacterCreationFailed {
        reason: CharacterCreationFailedReason,
        message: &'static str,
    },
    CharacterDeleted,
    CharacterDeletionFailed {
        reason: CharacterDeletionFailedReason,
        message: &'static str,
    },
    CharacterSlotSwitched,
    CharacterSlotSwitchFailed,
    UpdateClientTick {
        client_tick: u32,
    },
    ChangeMap {
        map_name: String,
        position: WorldPosition,
    },
    LoggedOut,
    ChatMessage {
        text: &'static str,
        color: MessageColor,
    },
    SetHotkeyData {
        tab: u8,
        hotkeys: Vec<HotkeyState>,
    },
    PlayerMove {
        origin: WorldPosition,
        destination: WorldPosition,
        starting_timestamp: u32,
    },
    EntityMove {
        entity_id: u32,
        origin: WorldPosition,
        destination: WorldPosition,
        starting_timestamp: u32,
    },
    InitialStats {
        strength_stat_points_cost: u8,
        agility_stat_points_cost: u8,
        vitality_stat_points_cost: u8,
        intelligence_stat_points_cost: u8,
        dexterity_stat_points_cost: u8,
        luck_stat_points_cost: u8,
    },
    SkillTree {
        skill_information: Vec<SkillInformation>,
    },
    UpdateStat {
        stat_id: u16,
        value: i64,
    },
    ChangeJob {
        account_id: u32,
        job_id: u32,
    },
    ChangeHair {
        account_id: u32,
        hair_id: u32,
    },
    AddNextButton {
        npc_id: u32,
    },
    AddCloseButton {
        npc_id: u32,
    },
    AddChoiceButtons {
        choices: Vec<String>,
        npc_id: u32,
    },
    OpenDialog {
        text: String,
        npc_id: u32,
    },
    AskBuyOrSell {
        shop_id: u32,
    },
}

/// Abstract value of a [`NetworkEvent`]: the same closed vocabulary with every
/// string as its character sequence and every vector as its sequence. All
/// contracts over emitted events speak of this type.
pub enum NetworkEventValue {
    LoginServerConnected {
        character_servers: Seq<CharacterServerInformationValue>,
        login_data: LoginServerLoginData,
    },
    LoginServerConnectionFailed {
        reason: UnifiedLoginFailedReason,
        message: Seq<char>,
    },
    CharacterServerConnectionFailed {
        reason: LoginFailedReason,
        message: Seq<char>,
    },
    CharacterServerConnected {
        normal_slot_count: usize,
    },
    CharacterList {
        characters: Seq<CharacterInformationValue>,
    },
    CharacterSelected {
        login_data: CharacterServerLoginData,
    },
    CharacterSelectionFailed {
        reason: UnifiedCharacterSelectionFailedReason,
        message: Seq<char>,
    },
    CharacterCreated {
        character_information: CharacterInformationValue,
    },
    CharacterCreationFailed {
        reason: CharacterCreationFailedReason,
        message: Seq<char>,
    },
    CharacterDeleted,
    CharacterDeletionFailed {
        reason: CharacterDeletionFailedReason,
        message: Seq<char>,
    },
    CharacterSlotSwitched,
    CharacterSlotSwitchFailed,
    UpdateClientTick {
        client_tick: u32,
    },
    ChangeMap {
        map_name: Seq<char>,
        position: WorldPosition,
    },
    LoggedOut,
    ChatMessage {
        text: Seq<char>,
        color: MessageColor,
    },
    SetHotkeyData {
        tab: u8,
        hotkeys: Seq<HotkeyState>,
    },
    PlayerMove {
        origin: WorldPosition,
        destination: WorldPosition,
        starting_timestamp: u32,
    },
    EntityMove {
        entity_id: u32,
        origin: WorldPosition,
        destination: WorldPosition,
        starting_timestamp: u32,
    },
    InitialStats {
        strength_stat_points_cost: u8,
        agility_stat_points_cost: u8,
        vitality_stat_points_cost: u8,
        intelligence_stat_points_cost: u8,
        dexterity_stat_points_cost: u8,
        luck_stat_points_cost: u8,
    },
    SkillTree {
        skill_information: Seq<SkillInformation>,
    },
    UpdateStat {
        stat_id: u16,
        value: i64,
    },
    ChangeJob {
        account_id: u32,
        job_id: u32,
    },
    ChangeHair {
        account_id: u32,
        hair_id: u32,
    },
    AddNextButton {
        npc_id: u32,
    },
    AddCloseButton {
        npc_id: u32,
    },
    AddChoiceButtons {
        choices: Seq<Seq<char>>,
        npc_id: u32,
    },
    OpenDialog {
        text: Seq<char>,
        npc_id: u32,
    },
    AskBuyOrSell {
        shop_id: u32,
    },
}

impl View for NetworkEvent {
    type V = NetworkEventValue;

    open spec fn view(&self) -> NetworkEventValue {
        match self {
            NetworkEvent::LoginServerConnected { character_servers, login_data } => {
                NetworkEventValue::LoginServerConnected {
                    character_servers: character_servers@.map_values(
                        |s: CharacterServerInformation| s@,
                    ),
                    login_data: *login_data,
                }
            },
            NetworkEvent::LoginServerConnectionFailed { reason, message } => {
                NetworkEventValue::LoginServerConnectionFailed {
                    reason: *reason,
                    message: message@,
                }
            },
            NetworkEvent::CharacterServerConnectionFailed { reason, message } => {
                NetworkEventValue::CharacterServerConnectionFailed {
                    reason: *reason,
                    message: message@,
                }
            },
            NetworkEvent::CharacterServerConnected { normal_slot_count } => {
                NetworkEventValue::CharacterServerConnected {
                    normal_slot_count: *normal_slot_count,
                }
            },
            NetworkEvent::CharacterList { characters } => {
                NetworkEventValue::CharacterList {
                    characters: characters@.map_values(|c: CharacterInformation| c@),
                }
            },
            NetworkEvent::CharacterSelected { login_data } => {
                NetworkEventValue::CharacterSelected { login_data: *login_data }
            },
            NetworkEvent::CharacterSelectionFailed { reason, message } => {
                NetworkEventValue::CharacterSelectionFailed {
                    reason: *reason,
                    message: message@,
                }
            },
            NetworkEvent::CharacterCreated { character_information } => {
                NetworkEventValue::CharacterCreated {
                    character_information: character_information@,
                }
            },
            NetworkEvent::CharacterCreationFailed { reason, message } => {
                NetworkEventValue::CharacterCreationFailed {
                    reason: *reason,
                    message: message@,
                }
            },
            NetworkEvent::CharacterDeleted => NetworkEventValue::CharacterDeleted,
            NetworkEvent::CharacterDeletionFailed { reason, message } => {
                NetworkEventValue::CharacterDeletionFailed {
                    reason: *reason,
                    message: message@,
                }
            },
            NetworkEvent::CharacterSlotSwitched => NetworkEventValue::CharacterSlotSwitched,
            NetworkEvent::CharacterSlotSwitchFailed => {
                NetworkEventValue::CharacterSlotSwitchFailed
            },
            NetworkEvent::UpdateClientTick { client_tick } => {
                NetworkEventValue::UpdateClientTick { client_tick: *client_tick }
            },
            NetworkEvent::ChangeMap { map_name, position } => {
                NetworkEventValue::ChangeMap { map_name: map_name@, position: *position }
            },
            NetworkEvent::LoggedOut => NetworkEventValue::LoggedOut,
            NetworkEvent::ChatMessage { text, color } => {
                NetworkEventValue::ChatMessage { text: text@, color: *color }
            },
            NetworkEvent::SetHotkeyData { tab, hotkeys } => {
                NetworkEventValue::SetHotkeyData { tab: *tab, hotkeys: hotkeys@ }
            },
            NetworkEvent::PlayerMove { origin, destination, starting_timestamp } => {
                NetworkEventValue::PlayerMove {
                    origin: *origin,
                    destination: *destination,
                    starting_timestamp: *starting_timestamp,
                }
            },
            NetworkEvent::EntityMove { entity_id, origin, destination, starting_timestamp } => {
                NetworkEventValue::EntityMove {
                    entity_id: *entity_id,
                    origin: *origin,
                    destination: *destination,
                    starting_timestamp: *starting_timestamp,
                }
            },
            NetworkEvent::InitialStats {
                strength_stat_points_cost,
                agility_stat_points_cost,
                vitality_stat_points_cost,
                intelligence_stat_points_cost,
                dexterity_stat_points_cost,
                luck_stat_points_cost,
            } => {
                NetworkEventValue::InitialStats {
                    strength_stat_points_cost: *strength_stat_points_cost,
                    agility_stat_points_cost: *agility_stat_points_cost,
                    vitality_stat_points_cost: *vitality_stat_points_cost,
                    intelligence_stat_points_cost: *intelligence_stat_points_cost,
                    dexterity_stat_points_cost: *dexterity_stat_points_cost,
                    luck_stat_points_cost: *luck_stat_points_cost,
                }
            },
            NetworkEvent::SkillTree { skill_information } => {
                NetworkEventValue::SkillTree { skill_information: skill_information@ }
            },
            NetworkEvent::UpdateStat { stat_id, value } => {
                NetworkEventValue::UpdateStat { stat_id: *stat_id, value: *value }
            },
            NetworkEvent::ChangeJob { account_id, job_id } => {
                NetworkEventValue::ChangeJob { account_id: *account_id, job_id: *job_id }
            },
            NetworkEvent::ChangeHair { account_id, hair_id } => {
                NetworkEventValue::ChangeHair { account_id: *account_id, hair_id: *hair_id }
            },
            NetworkEvent::AddNextButton { npc_id } => {
                NetworkEventValue::AddNextButton { npc_id: *npc_id }
            },
            NetworkEvent::AddCloseButton { npc_id } => {
                NetworkEventValue::AddCloseButton { npc_id: *npc_id }
            },
            NetworkEvent::AddChoiceButtons { choices, npc_id } => {
                NetworkEventValue::AddChoiceButtons {
                    choices: choices@.map_values(|c: String| c@),
                    npc_id: *npc_id,
                }
            },
            NetworkEvent::OpenDialog { text, npc_id } => {
                NetworkEventValue::OpenDialog { text: text@, npc_id: *npc_id }
            },
            NetworkEvent::AskBuyOrSell { shop_id } => {
                NetworkEventValue::AskBuyOrSell { shop_id: *shop_id }
            },
        }
    }
}

/// The abstract values of a vector of emitted events, in emission order.
pub open spec fn events_value(events: Seq<NetworkEvent>) -> Seq<NetworkEventValue> {
    events.map_values(|e: NetworkEvent| e@)
}

} // verus!
