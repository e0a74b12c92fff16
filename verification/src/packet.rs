//! The decoded-packet model: plain-value packet types, their raw reason and
//! status code spaces, and the wire opcode of each packet kind.
//!
//! Byte-level decoding is owned by an external codec; values of these types
//! arrive already decoded and validated. Each packet kind carries exactly the
//! fields the normalization rules read.

use vstd::prelude::*;

verus! {

// ---------------------------------------------------------------------------
// Raw reason and status code spaces (closed, per-revision wire vocabularies).
// ---------------------------------------------------------------------------

/// General login-failure code family (carried by a ban notification).
#[derive(Debug, Clone, Copy, PartialEq, Eq, Structural)]
pub enum LoginFailedReason {
    ServerClosed,
    AlreadyLoggedIn,
    AlreadyOnline,
}

/// Extended login-failure code family, disjoint from [`LoginFailedReason`]:
/// no raw code is reachable from both.
#[derive(Debug, Clone, Copy, PartialEq, Eq, Structural)]
pub enum LoginFailedReason2 {
    UnregisteredId,
    IncorrectPassword,
    IdExpired,
    RejectedFromServer,
    BlockedByGMTeam,
    GameOutdated,
    LoginProhibitedUntil,
    ServerFull,
    CompanyAccountLimitReached,
}

/// Raw character-selection failure codes.
#[derive(Debug, Clone, Copy, PartialEq, Eq, Structural)]
pub enum CharacterSelectionFailedReason {
    RejectedFromServer,
}

/// Raw character-creation failure codes.
#[derive(Debug, Clone, Copy, PartialEq, Eq, Structural)]
pub enum CharacterCreationFailedReason {
    CharacterNameAlreadyUsed,
    NotOldEnough,
    NotAllowedToUseSlot,
    CharacterCerationFailed,
}

/// Raw character-deletion failure codes.
#[derive(Debug, Clone, Copy, PartialEq, Eq, Structural)]
pub enum CharacterDeletionFailedReason {
    NotAllowed,
    CharacterNotFound,
    NotEligible,
}

/// Raw slot-switch result codes.
#[derive(Debug, Clone, Copy, PartialEq, Eq, Structural)]
pub enum SwitchCharacterSlotResponseStatus {
    Success,
    Error,
}

/// Raw restart (log-out to character selection) result codes.
#[derive(Debug, Clone, Copy, PartialEq, Eq, Structural)]
pub enum RestartResponseStatus {
    Okay,
    Nothing,
}

/// Raw disconnect result codes.
#[derive(Debug, Clone, Copy, PartialEq, Eq, Structural)]
pub enum DisconnectResponseStatus {
    Okay,
    Wait10Seconds,
}

/// Discriminant of a sprite-change packet. Only `Base` and `Hair` produce
/// events; every other discriminant is deliberately filtered out.
#[derive(Debug, Clone, Copy, PartialEq, Eq, Structural)]
pub enum SpriteChangeType {
    Base,
    Hair,
    Weapon,
    HeadBottom,
    HeadTop,
    HeadMiddle,
    Robe,
    Shield,
    Shoes,
}

// ---------------------------------------------------------------------------
// Plain-value records carried inside packets.
// ---------------------------------------------------------------------------

/// One character server advertised by the login server; passed through to the
/// downstream consumer untouched.
#[derive(Debug, Clone)]
pub struct CharacterServerInformation {
    pub server_ip: u32,
    pub server_port: u16,
    pub server_name: String,
    pub user_count: u16,
}

/// Abstract value of a [`CharacterServerInformation`].
pub struct CharacterServerInformationValue {
    pub server_ip: u32,
    pub server_port: u16,
    pub server_name: Seq<char>,
    pub user_count: u16,
}

impl View for CharacterServerInformation {
    type V = CharacterServerInformationValue;

    open spec fn view(&self) -> CharacterServerInformationValue {
        CharacterServerInformationValue {
            server_ip: self.server_ip,
            server_port: self.server_port,
            server_name: self.server_name@,
            user_count: self.user_count,
        }
    }
}

/// One decoded character record of the character list; passed through to the
/// downstream consumer untouched.
#[derive(Debug, Clone)]
pub struct CharacterInformation {
    pub character_id: u32,
    pub slot: u8,
    pub name: String,
}

/// Abstract value of a [`CharacterInformation`].
pub struct CharacterInformationValue {
    pub character_id: u32,
    pub slot: u8,
    pub name: Seq<char>,
}

impl View for CharacterInformation {
    type V = CharacterInformationValue;

    open spec fn view(&self) -> CharacterInformationValue {
        CharacterInformationValue {
            character_id: self.character_id,
            slot: self.slot,
            name: self.name@,
        }
    }
}

/// One learned skill of the skill tree; passed through untouched.
#[derive(Debug, Clone, Copy, PartialEq, Eq, Structural)]
pub struct SkillInformation {
    pub skill_id: u16,
    pub skill_level: u16,
    pub skill_points: u16,
}

/// A tile position on a map.
#[derive(Debug, Clone, Copy, PartialEq, Eq, Structural)]
pub struct WorldPosition {
    pub x: u16,
    pub y: u16,
}

/// The combined origin/destination representation a movement packet carries
/// on the wire.
#[derive(Debug, Clone, Copy, PartialEq, Eq, Structural)]
pub struct WorldPosition2 {
    pub origin_x: u16,
    pub origin_y: u16,
    pub destination_x: u16,
    pub destination_y: u16,
}

impl WorldPosition2 {
    /// Split the combined representation into separate origin and
    /// destination coordinates.
    pub fn to_origin_destination(&self) -> (r: (WorldPosition, WorldPosition))
        ensures
            r.0 == (WorldPosition { x: self.origin_x, y: self.origin_y }),
            r.1 == (WorldPosition { x: self.destination_x, y: self.destination_y }),
    {
        (
            WorldPosition { x: self.origin_x, y: self.origin_y },
            WorldPosition { x: self.destination_x, y: self.destination_y },
        )
    }
}

/// One raw hotkey slot value. The all-zero value is the wire sentinel for an
/// unbound slot.
#[derive(Debug, Clone, Copy, PartialEq, Eq, Structural)]
pub struct HotkeyData {
    pub is_skill: u8,
    pub skill_id: u32,
    pub quantity_or_skill_level: u16,
}

/// Whether a raw hotkey slot value is the "unbound" sentinel.
pub open spec fn spec_hotkey_unbound(h: HotkeyData) -> bool {
    h.is_skill == 0 && h.skill_id == 0 && h.quantity_or_skill_level == 0
}

impl HotkeyData {
    /// Whether this slot value is the "unbound" sentinel.
    pub fn is_unbound(&self) -> (r: bool)
        ensures
            r == spec_hotkey_unbound(*self),
    {
        self.is_skill == 0 && self.skill_id == 0 && self.quantity_or_skill_level == 0
    }
}

// ---------------------------------------------------------------------------
// Packet types.
// ---------------------------------------------------------------------------

/// Successful login at the login server.
#[derive(Debug, Clone)]
pub struct LoginServerLoginSuccessPacket {
    pub account_id: u32,
    pub login_id1: u64,
    pub login_id2: u32,
    pub sex: u8,
    pub character_server_information: Vec<CharacterServerInformation>,
}

/// Ban notification carrying a general login-failure code.
#[derive(Debug, Clone, Copy, PartialEq, Eq, Structural)]
pub struct LoginBannedPacket {
    pub reason: LoginFailedReason,
}

/// Login failure carrying an extended login-failure code.
#[derive(Debug, Clone, Copy, PartialEq, Eq, Structural)]
pub struct LoginFailedPacket2 {
    pub reason: LoginFailedReason2,
}

/// The character list sent after connecting to the character server.
#[derive(Debug, Clone)]
pub struct CharacterListPacket {
    pub maximum_slot_count: u8,
    pub character_information: Vec<CharacterInformation>,
}

/// Successful character selection; announces the map server to move to.
#[derive(Debug, Clone, Copy, PartialEq, Eq, Structural)]
pub struct CharacterSelectionSuccessPacket {
    pub character_id: u32,
    pub map_server_ip: u32,
    pub map_server_port: u16,
}

/// Failed character selection.
#[derive(Debug, Clone, Copy, PartialEq, Eq, Structural)]
pub struct CharacterSelectionFailedPacket {
    pub reason: CharacterSelectionFailedReason,
}

/// Successful character creation.
#[derive(Debug, Clone)]
pub struct CreateCharacterSuccessPacket {
    pub character_information: CharacterInformation,
}

/// Failed character creation.
#[derive(Debug, Clone, Copy, PartialEq, Eq, Structural)]
pub struct CharacterCreationFailedPacket {
    pub reason: CharacterCreationFailedReason,
}

/// Failed character deletion.
#[derive(Debug, Clone, Copy, PartialEq, Eq, Structural)]
pub struct CharacterDeletionFailedPacket {
    pub reason: CharacterDeletionFailedReason,
}

/// Result of a character slot switch.
#[derive(Debug, Clone, Copy, PartialEq, Eq, Structural)]
pub struct SwitchCharacterSlotResponsePacket {
    pub status: SwitchCharacterSlotResponseStatus,
}

/// Successful login at the map server.
#[derive(Debug, Clone, Copy, PartialEq, Eq, Structural)]
pub struct MapServerLoginSuccessPacket {
    pub client_tick: u32,
}

/// Map change notification.
#[derive(Debug, Clone)]
pub struct ChangeMapPacket {
    pub map_name: String,
    pub position: WorldPosition,
}

/// Result of a restart (log out to character selection) request.
#[derive(Debug, Clone, Copy, PartialEq, Eq, Structural)]
pub struct RestartResponsePacket {
    pub result: RestartResponseStatus,
}

/// Result of a disconnect request.
#[derive(Debug, Clone, Copy, PartialEq, Eq, Structural)]
pub struct DisconnectResponsePacket {
    pub result: DisconnectResponseStatus,
}

/// The raw hotkey slots of one hotkey tab.
#[derive(Debug, Clone)]
pub struct UpdateHotkeysPacket {
    pub tab: u8,
    pub hotkeys: Vec<HotkeyData>,
}

/// Movement of the player's own character.
#[derive(Debug, Clone, Copy, PartialEq, Eq, Structural)]
pub struct PlayerMovePacket {
    pub starting_timestamp: u32,
    pub from_to: WorldPosition2,
}

/// Movement of another entity.
#[derive(Debug, Clone, Copy, PartialEq, Eq, Structural)]
pub struct EntityMovePacket {
    pub entity_id: u32,
    pub from_to: WorldPosition2,
    pub starting_timestamp: u32,
}

/// Initial stat point costs sent on entering the map.
#[derive(Debug, Clone, Copy, PartialEq, Eq, Structural)]
pub struct InitialStatsPacket {
    pub strength_stat_points_cost: u8,
    pub agility_stat_points_cost: u8,
    pub vitality_stat_points_cost: u8,
    pub intelligence_stat_points_cost: u8,
    pub dexterity_stat_points_cost: u8,
    pub luck_stat_points_cost: u8,
}

/// The full skill tree.
#[derive(Debug, Clone)]
pub struct UpdateSkillTreePacket {
    pub skill_information: Vec<SkillInformation>,
}

/// Stat change, first wire shape: a narrow unsigned value.
#[derive(Debug, Clone, Copy, PartialEq, Eq, Structural)]
pub struct UpdateStatPacket {
    pub stat_id: u16,
    pub value: u32,
}

/// Stat change, second wire shape: a signed value.
#[derive(Debug, Clone, Copy, PartialEq, Eq, Structural)]
pub struct UpdateStatPacket1 {
    pub stat_id: u16,
    pub value: i32,
}

/// Stat change, third wire shape: a base value and a separate bonus.
#[derive(Debug, Clone, Copy, PartialEq, Eq, Structural)]
pub struct UpdateStatPacket2 {
    pub stat_id: u16,
    pub base_value: u32,
    pub bonus_value: i32,
}

/// Stat change, fourth wire shape: a wide signed value.
#[derive(Debug, Clone, Copy, PartialEq, Eq, Structural)]
pub struct UpdateStatPacket3 {
    pub stat_id: u16,
    pub value: i64,
}

/// Sprite change of an entity, carrying a discriminated sprite type.
#[derive(Debug, Clone, Copy, PartialEq, Eq, Structural)]
pub struct SpriteChangePacket {
    pub account_id: u32,
    pub sprite_type: SpriteChangeType,
    pub value: u32,
}

/// An NPC dialog gained a "next" button.
#[derive(Debug, Clone, Copy, PartialEq, Eq, Structural)]
pub struct NextButtonPacket {
    pub npc_id: u32,
}

/// An NPC dialog gained a "close" button.
#[derive(Debug, Clone, Copy, PartialEq, Eq, Structural)]
pub struct CloseButtonPacket {
    pub npc_id: u32,
}

/// An NPC dialog menu: choices separated by colons.
#[derive(Debug, Clone)]
pub struct DialogMenuPacket {
    pub npc_id: u32,
    pub message: String,
}

/// A line of NPC dialog text.
#[derive(Debug, Clone)]
pub struct NpcDialogPacket {
    pub npc_id: u32,
    pub text: String,
}

/// An NPC shop asks whether to buy or sell.
#[derive(Debug, Clone, Copy, PartialEq, Eq, Structural)]
pub struct BuyOrSellPacket {
    pub shop_id: u32,
}

// ---------------------------------------------------------------------------
// The decoded-packet sum type and its opcodes.
// ---------------------------------------------------------------------------

pub const OPCODE_LOGIN_SERVER_LOGIN_SUCCESS: u16 = 0x0ac4;
pub const OPCODE_LOGIN_BANNED: u16 = 0x0081;
pub const OPCODE_LOGIN_FAILED_2: u16 = 0x083e;
pub const OPCODE_CHARACTER_LIST: u16 = 0x099d;
pub const OPCODE_LOGIN_PINCODE: u16 = 0x08b9;
pub const OPCODE_CHARACTER_SELECTION_SUCCESS: u16 = 0x0ac5;
pub const OPCODE_CHARACTER_SELECTION_FAILED: u16 = 0x006c;
pub const OPCODE_MAP_SERVER_UNAVAILABLE: u16 = 0x0840;
pub const OPCODE_CREATE_CHARACTER_SUCCESS: u16 = 0x0b6f;
pub const OPCODE_CHARACTER_CREATION_FAILED: u16 = 0x006e;
pub const OPCODE_CHARACTER_DELETION_SUCCESS: u16 = 0x006f;
pub const OPCODE_CHARACTER_DELETION_FAILED: u16 = 0x0070;
pub const OPCODE_SWITCH_CHARACTER_SLOT_RESPONSE: u16 = 0x0b70;
pub const OPCODE_MAP_SERVER_PING: u16 = 0x007f;
pub const OPCODE_MAP_SERVER_LOGIN_SUCCESS: u16 = 0x02eb;
pub const OPCODE_CHANGE_MAP: u16 = 0x0091;
pub const OPCODE_MAP_TYPE: u16 = 0x099b;
pub const OPCODE_RESTART_RESPONSE: u16 = 0x00b3;
pub const OPCODE_DISCONNECT_RESPONSE: u16 = 0x018b;
pub const OPCODE_UPDATE_HOTKEYS: u16 = 0x0b20;
pub const OPCODE_PLAYER_MOVE: u16 = 0x0087;
pub const OPCODE_ENTITY_MOVE: u16 = 0x0086;
pub const OPCODE_ENTITY_STOP_MOVE: u16 = 0x0088;
pub const OPCODE_INITIAL_STATS: u16 = 0x00bd;
pub const OPCODE_UPDATE_SKILL_TREE: u16 = 0x010f;
pub const OPCODE_UPDATE_STAT: u16 = 0x00b0;
pub const OPCODE_UPDATE_STAT_1: u16 = 0x00b1;
pub const OPCODE_UPDATE_STAT_2: u16 = 0x0141;
pub const OPCODE_UPDATE_STAT_3: u16 = 0x0acb;
pub const OPCODE_SPRITE_CHANGE: u16 = 0x01d7;
pub const OPCODE_NEXT_BUTTON: u16 = 0x00b5;
pub const OPCODE_CLOSE_BUTTON: u16 = 0x00b6;
pub const OPCODE_DIALOG_MENU: u16 = 0x00b7;
pub const OPCODE_NPC_DIALOG: u16 = 0x00b4;
pub const OPCODE_BUY_OR_SELL: u16 = 0x00c4;
pub const OPCODE_PACKET_8302: u16 = 0x8302;
pub const OPCODE_PACKET_0B18: u16 = 0x0b18;

/// A decoded packet as handed over by the external codec. Each variant is one
/// wire packet kind; kinds whose fields the normalization rules never read
/// carry none.
#[derive(Debug, Clone)]
pub enum DecodedPacket {
    LoginServerLoginSuccess(LoginServerLoginSuccessPacket),
    LoginBanned(LoginBannedPacket),
    LoginFailed2(LoginFailedPacket2),
    CharacterList(CharacterListPacket),
    LoginPincode,
    CharacterSelectionSuccess(CharacterSelectionSuccessPacket),
    CharacterSelectionFailed(CharacterSelectionFailedPacket),
    MapServerUnavailable,
    CreateCharacterSuccess(CreateCharacterSuccessPacket),
    CharacterCreationFailed(CharacterCreationFailedPacket),
    CharacterDeletionSuccess,
    CharacterDeletionFailed(CharacterDeletionFailedPacket),
    SwitchCharacterSlotResponse(SwitchCharacterSlotResponsePacket),
    MapServerPing,
    MapServerLoginSuccess(MapServerLoginSuccessPacket),
    ChangeMap(ChangeMapPacket),
    MapType,
    RestartResponse(RestartResponsePacket),
    DisconnectResponse(DisconnectResponsePacket),
    UpdateHotkeys(UpdateHotkeysPacket),
    PlayerMove(PlayerMovePacket),
    EntityMove(EntityMovePacket),
    EntityStopMove,
    InitialStats(InitialStatsPacket),
    UpdateSkillTree(UpdateSkillTreePacket),
    UpdateStat(UpdateStatPacket),
    UpdateStat1(UpdateStatPacket1),
    UpdateStat2(UpdateStatPacket2),
    UpdateStat3(UpdateStatPacket3),
    SpriteChange(SpriteChangePacket),
    NextButton(NextButtonPacket),
    CloseButton(CloseButtonPacket),
    DialogMenu(DialogMenuPacket),
    NpcDialog(NpcDialogPacket),
    BuyOrSell(BuyOrSellPacket),
    Packet8302,
    Packet0b18,
}

/// The wire opcode of a decoded packet's kind.
pub open spec fn spec_packet_opcode(p: DecodedPacket) -> u16 {
    match p {
        DecodedPacket::LoginServerLoginSuccess(_) => OPCODE_LOGIN_SERVER_LOGIN_SUCCESS,
        DecodedPacket::LoginBanned(_) => OPCODE_LOGIN_BANNED,
        DecodedPacket::LoginFailed2(_) => OPCODE_LOGIN_FAILED_2,
        DecodedPacket::CharacterList(_) => OPCODE_CHARACTER_LIST,
        DecodedPacket::LoginPincode => OPCODE_LOGIN_PINCODE,
        DecodedPacket::CharacterSelectionSuccess(_) => OPCODE_CHARACTER_SELECTION_SUCCESS,
        DecodedPacket::CharacterSelectionFailed(_) => OPCODE_CHARACTER_SELECTION_FAILED,
        DecodedPacket::MapServerUnavailable => OPCODE_MAP_SERVER_UNAVAILABLE,
        DecodedPacket::CreateCharacterSuccess(_) => OPCODE_CREATE_CHARACTER_SUCCESS,
        DecodedPacket::CharacterCreationFailed(_) => OPCODE_CHARACTER_CREATION_FAILED,
        DecodedPacket::CharacterDeletionSuccess => OPCODE_CHARACTER_DELETION_SUCCESS,
        DecodedPacket::CharacterDeletionFailed(_) => OPCODE_CHARACTER_DELETION_FAILED,
        DecodedPacket::SwitchCharacterSlotResponse(_) => OPCODE_SWITCH_CHARACTER_SLOT_RESPONSE,
        DecodedPacket::MapServerPing => OPCODE_MAP_SERVER_PING,
        DecodedPacket::MapServerLoginSuccess(_) => OPCODE_MAP_SERVER_LOGIN_SUCCESS,
        DecodedPacket::ChangeMap(_) => OPCODE_CHANGE_MAP,
        DecodedPacket::MapType => OPCODE_MAP_TYPE,
        DecodedPacket::RestartResponse(_) => OPCODE_RESTART_RESPONSE,
        DecodedPacket::DisconnectResponse(_) => OPCODE_DISCONNECT_RESPONSE,
        DecodedPacket::UpdateHotkeys(_) => OPCODE_UPDATE_HOTKEYS,
        DecodedPacket::PlayerMove(_) => OPCODE_PLAYER_MOVE,
        DecodedPacket::EntityMove(_) => OPCODE_ENTITY_MOVE,
        DecodedPacket::EntityStopMove => OPCODE_ENTITY_STOP_MOVE,
        DecodedPacket::InitialStats(_) => OPCODE_INITIAL_STATS,
        DecodedPacket::UpdateSkillTree(_) => OPCODE_UPDATE_SKILL_TREE,
        DecodedPacket::UpdateStat(_) => OPCODE_UPDATE_STAT,
        DecodedPacket::UpdateStat1(_) => OPCODE_UPDATE_STAT_1,
        DecodedPacket::UpdateStat2(_) => OPCODE_UPDATE_STAT_2,
        DecodedPacket::UpdateStat3(_) => OPCODE_UPDATE_STAT_3,
        DecodedPacket::SpriteChange(_) => OPCODE_SPRITE_CHANGE,
        DecodedPacket::NextButton(_) => OPCODE_NEXT_BUTTON,
        DecodedPacket::CloseButton(_) => OPCODE_CLOSE_BUTTON,
        DecodedPacket::DialogMenu(_) => OPCODE_DIALOG_MENU,
        DecodedPacket::NpcDialog(_) => OPCODE_NPC_DIALOG,
        DecodedPacket::BuyOrSell(_) => OPCODE_BUY_OR_SELL,
        DecodedPacket::Packet8302 => OPCODE_PACKET_8302,
        DecodedPacket::Packet0b18 => OPCODE_PACKET_0B18,
    }
}

impl DecodedPacket {
    /// The wire opcode of this packet's kind.
    pub fn opcode(&self) -> (op: u16)
        ensures
            op == spec_packet_opcode(*self),
    {
        match self {
            DecodedPacket::LoginServerLoginSuccess(_) => OPCODE_LOGIN_SERVER_LOGIN_SUCCESS,
            DecodedPacket::LoginBanned(_) => OPCODE_LOGIN_BANNED,
            DecodedPacket::LoginFailed2(_) => OPCODE_LOGIN_FAILED_2,
            DecodedPacket::CharacterList(_) => OPCODE_CHARACTER_LIST,
            DecodedPacket::LoginPincode => OPCODE_LOGIN_PINCODE,
            DecodedPacket::CharacterSelectionSuccess(_) => OPCODE_CHARACTER_SELECTION_SUCCESS,
            DecodedPacket::CharacterSelectionFailed(_) => OPCODE_CHARACTER_SELECTION_FAILED,
            DecodedPacket::MapServerUnavailable => OPCODE_MAP_SERVER_UNAVAILABLE,
            DecodedPacket::CreateCharacterSuccess(_) => OPCODE_CREATE_CHARACTER_SUCCESS,
            DecodedPacket::CharacterCreationFailed(_) => OPCODE_CHARACTER_CREATION_FAILED,
            DecodedPacket::CharacterDeletionSuccess => OPCODE_CHARACTER_DELETION_SUCCESS,
            DecodedPacket::CharacterDeletionFailed(_) => OPCODE_CHARACTER_DELETION_FAILED,
            DecodedPacket::SwitchCharacterSlotResponse(_) => OPCODE_SWITCH_CHARACTER_SLOT_RESPONSE,
            DecodedPacket::MapServerPing => OPCODE_MAP_SERVER_PING,
            DecodedPacket::MapServerLoginSuccess(_) => OPCODE_MAP_SERVER_LOGIN_SUCCESS,
            DecodedPacket::ChangeMap(_) => OPCODE_CHANGE_MAP,
            DecodedPacket::MapType => OPCODE_MAP_TYPE,
            DecodedPacket::RestartResponse(_) => OPCODE_RESTART_RESPONSE,
            DecodedPacket::DisconnectResponse(_) => OPCODE_DISCONNECT_RESPONSE,
            DecodedPacket::UpdateHotkeys(_) => OPCODE_UPDATE_HOTKEYS,
            DecodedPacket::PlayerMove(_) => OPCODE_PLAYER_MOVE,
            DecodedPacket::EntityMove(_) => OPCODE_ENTITY_MOVE,
            DecodedPacket::EntityStopMove => OPCODE_ENTITY_STOP_MOVE,
            DecodedPacket::InitialStats(_) => OPCODE_INITIAL_STATS,
            DecodedPacket::UpdateSkillTree(_) => OPCODE_UPDATE_SKILL_TREE,
            DecodedPacket::UpdateStat(_) => OPCODE_UPDATE_STAT,
            DecodedPacket::UpdateStat1(_) => OPCODE_UPDATE_STAT_1,
            DecodedPacket::UpdateStat2(_) => OPCODE_UPDATE_STAT_2,
            DecodedPacket::UpdateStat3(_) => OPCODE_UPDATE_STAT_3,
            DecodedPacket::SpriteChange(_) => OPCODE_SPRITE_CHANGE,
            DecodedPacket::NextButton(_) => OPCODE_NEXT_BUTTON,
            DecodedPacket::CloseButton(_) => OPCODE_CLOSE_BUTTON,
            DecodedPacket::DialogMenu(_) => OPCODE_DIALOG_MENU,
            DecodedPacket::NpcDialog(_) => OPCODE_NPC_DIALOG,
            DecodedPacket::BuyOrSell(_) => OPCODE_BUY_OR_SELL,
            DecodedPacket::Packet8302 => OPCODE_PACKET_8302,
            DecodedPacket::Packet0b18 => OPCODE_PACKET_0B18,
        }
    }
}

} // verus!
