//! Normalization rules: the packet-specific mappings from one decoded packet
//! to its ordered sequence of unified events.
//!
//! Every rule has a specification-level twin that states the exact events
//! produced, over abstract values. The closed reason/message tables live here
//! as well: each raw reason code has an explicit entry, with no fallback.

use vstd::prelude::*;

use crate::event::CharacterServerLoginData;
use crate::event::HotkeyState;
use crate::event::LoginServerLoginData;
use crate::event::MessageColor;
use crate::event::NetworkEvent;
use crate::event::NetworkEventValue;
use crate::event::UnifiedCharacterSelectionFailedReason;
use crate::event::UnifiedLoginFailedReason;
use crate::event::events_value;
use crate::packet::BuyOrSellPacket;
use crate::packet::ChangeMapPacket;
use crate::packet::CharacterCreationFailedPacket;
use crate::packet::CharacterCreationFailedReason;
use crate::packet::CharacterDeletionFailedPacket;
use crate::packet::CharacterDeletionFailedReason;
use crate::packet::CharacterInformation;
use crate::packet::CharacterListPacket;
use crate::packet::CharacterSelectionFailedPacket;
use crate::packet::CharacterSelectionFailedReason;
use crate::packet::CharacterSelectionSuccessPacket;
use crate::packet::CharacterServerInformation;
use crate::packet::CloseButtonPacket;
use crate::packet::CreateCharacterSuccessPacket;
use crate::packet::DialogMenuPacket;
use crate::packet::DisconnectResponsePacket;
use crate::packet::DisconnectResponseStatus;
use crate::packet::EntityMovePacket;
use crate::packet::HotkeyData;
use crate::packet::InitialStatsPacket;
use crate::packet::LoginBannedPacket;
use crate::packet::LoginFailedPacket2;
use crate::packet::LoginFailedReason;
use crate::packet::LoginFailedReason2;
use crate::packet::LoginServerLoginSuccessPacket;
use crate::packet::MapServerLoginSuccessPacket;
use crate::packet::NextButtonPacket;
use crate::packet::NpcDialogPacket;
use crate::packet::PlayerMovePacket;
use crate::packet::RestartResponsePacket;
use crate::packet::RestartResponseStatus;
use crate::packet::SpriteChangePacket;
use crate::packet::SpriteChangeType;
use crate::packet::SwitchCharacterSlotResponsePacket;
use crate::packet::SwitchCharacterSlotResponseStatus;
use crate::packet::UpdateHotkeysPacket;
use crate::packet::UpdateSkillTreePacket;
use crate::packet::UpdateStatPacket;
use crate::packet::UpdateStatPacket1;
use crate::packet::UpdateStatPacket2;
use crate::packet::UpdateStatPacket3;
use crate::packet::WorldPosition;
use crate::packet::spec_hotkey_unbound;

verus! {

// ---------------------------------------------------------------------------
// Reason/message tables. Each raw code space maps totally and explicitly;
// the two raw login-failure families collapse into the one unified vocabulary
// without colliding.
// ---------------------------------------------------------------------------

/// Unified reason for each general login-failure code.
pub open spec fn spec_unified_login_reason(reason: LoginFailedReason) -> UnifiedLoginFailedReason {
    match reason {
        LoginFailedReason::ServerClosed => UnifiedLoginFailedReason::ServerClosed,
        LoginFailedReason::AlreadyLoggedIn => UnifiedLoginFailedReason::AlreadyLoggedIn,
        LoginFailedReason::AlreadyOnline => UnifiedLoginFailedReason::AlreadyOnline,
    }
}

/// Fixed message for each general login-failure code.
pub open spec fn spec_login_banned_message(reason: LoginFailedReason) -> Seq<char> {
    match reason {
        LoginFailedReason::ServerClosed => "Server closed"@,
        LoginFailedReason::AlreadyLoggedIn => "Someone has already logged in with this id"@,
        LoginFailedReason::AlreadyOnline => "Already online"@,
    }
}

/// Unified reason for each extended login-failure code.
pub open spec fn spec_unified_login_reason2(reason: LoginFailedReason2) -> UnifiedLoginFailedReason {
    match reason {
        LoginFailedReason2::UnregisteredId => UnifiedLoginFailedReason::UnregisteredId,
        LoginFailedReason2::IncorrectPassword => UnifiedLoginFailedReason::IncorrectPassword,
        LoginFailedReason2::IdExpired => UnifiedLoginFailedReason::IdExpired,
        LoginFailedReason2::RejectedFromServer => UnifiedLoginFailedReason::RejectedFromServer,
        LoginFailedReason2::BlockedByGMTeam => UnifiedLoginFailedReason::BlockedByGMTeam,
        LoginFailedReason2::GameOutdated => UnifiedLoginFailedReason::GameOutdated,
        LoginFailedReason2::LoginProhibitedUntil => UnifiedLoginFailedReason::LoginProhibitedUntil,
        LoginFailedReason2::ServerFull => UnifiedLoginFailedReason::ServerFull,
        LoginFailedReason2::CompanyAccountLimitReached => UnifiedLoginFailedReason::CompanyAccountLimitReached,
    }
}

/// Fixed message for each extended login-failure code.
pub open spec fn spec_login_failed2_message(reason: LoginFailedReason2) -> Seq<char> {
    match reason {
        LoginFailedReason2::UnregisteredId => "Unregistered id"@,
        LoginFailedReason2::IncorrectPassword => "Incorrect password"@,
        LoginFailedReason2::IdExpired => "Id has expired"@,
        LoginFailedReason2::RejectedFromServer => "Rejected from server"@,
        LoginFailedReason2::BlockedByGMTeam => "Blocked by gm team"@,
        LoginFailedReason2::GameOutdated => "Game outdated"@,
        LoginFailedReason2::LoginProhibitedUntil => "Login prohibited until"@,
        LoginFailedReason2::ServerFull => "Server is full"@,
        LoginFailedReason2::CompanyAccountLimitReached => "Company account limit reached"@,
    }
}

/// Fixed message for each character-creation failure code.
pub open spec fn spec_character_creation_message(reason: CharacterCreationFailedReason) -> Seq<char> {
    match reason {
        CharacterCreationFailedReason::CharacterNameAlreadyUsed => "Character name is already used"@,
        CharacterCreationFailedReason::NotOldEnough => "You are not old enough to create a character"@,
        CharacterCreationFailedReason::NotAllowedToUseSlot => "You are not allowed to use this character slot"@,
        CharacterCreationFailedReason::CharacterCerationFailed => "Character creation failed"@,
    }
}

/// Fixed message for each character-deletion failure code.
pub open spec fn spec_character_deletion_message(reason: CharacterDeletionFailedReason) -> Seq<char> {
    match reason {
        CharacterDeletionFailedReason::NotAllowed => "You are not allowed to delete this character"@,
        CharacterDeletionFailedReason::CharacterNotFound => "Character was not found"@,
        CharacterDeletionFailedReason::NotEligible => "Character is not eligible for deletion"@,
    }
}

// ---------------------------------------------------------------------------
// String normalization helpers.
// ---------------------------------------------------------------------------

/// A map identifier with its ".gat" file-extension suffix stripped; an
/// identifier without that suffix is unchanged.
pub open spec fn spec_strip_map_extension(s: Seq<char>) -> Seq<char> {
    if s.len() >= 4 && s.subrange(s.len() as int - 4, s.len() as int) == ".gat"@ {
        s.subrange(0, s.len() as int - 4)
    } else {
        s
    }
}

/// Strip a trailing ".gat" file extension from a map identifier.
pub fn strip_map_extension(map_name: &str) -> (r: String)
    ensures
        r@ == spec_strip_map_extension(map_name@),
{
    let len = map_name.unicode_len();
    if len >= 4 {
        let c0 = map_name.get_char(len - 4);
        let c1 = map_name.get_char(len - 3);
        let c2 = map_name.get_char(len - 2);
        let c3 = map_name.get_char(len - 1);
        if c0 == '.' && c1 == 'g' && c2 == 'a' && c3 == 't' {
            proof {
                reveal_strlit(".gat");
                assert(map_name@.subrange(len as int - 4, len as int) =~= ".gat"@);
            }
            let stripped = map_name.substring_char(0, len - 4);
            stripped.to_owned()
        } else {
            proof {
                reveal_strlit(".gat");
                let tail = map_name@.subrange(len as int - 4, len as int);
                assert(tail != ".gat"@) by {
                    if tail == ".gat"@ {
                        assert(tail[0] == '.' && tail[1] == 'g' && tail[2] == 'a' && tail[3] == 't');
                        assert(tail[0] == map_name@[len as int - 4]);
                        assert(tail[1] == map_name@[len as int - 3]);
                        assert(tail[2] == map_name@[len as int - 2]);
                        assert(tail[3] == map_name@[len as int - 1]);
                    }
                };
            }
            map_name.to_owned()
        }
    } else {
        map_name.to_owned()
    }
}

/// Helper for colon-splitting: the pieces of `s`, where `cur` is the piece
/// under construction and `acc` the pieces already completed.
pub open spec fn spec_split_acc(s: Seq<char>, cur: Seq<char>, acc: Seq<Seq<char>>) -> Seq<Seq<char>>
    decreases s.len(),
{
    if s.len() == 0 {
        acc.push(cur)
    } else if s[0] == ':' {
        spec_split_acc(s.skip(1), Seq::empty(), acc.push(cur))
    } else {
        spec_split_acc(s.skip(1), cur.push(s[0]), acc)
    }
}

/// The colon-separated pieces of a dialog-menu message, empty pieces included.
pub open spec fn spec_split_colon(s: Seq<char>) -> Seq<Seq<char>> {
    spec_split_acc(s, Seq::empty(), Seq::empty())
}

/// The dialog choices of a dialog-menu message: its colon-separated pieces,
/// with empty pieces dropped.
pub open spec fn spec_dialog_choices(s: Seq<char>) -> Seq<Seq<char>> {
    spec_split_colon(s).filter(|p: Seq<char>| p.len() > 0)
}

proof fn lemma_split_acc_prefix(s: Seq<char>, cur: Seq<char>, acc: Seq<Seq<char>>)
    ensures
        spec_split_acc(s, cur, acc) == acc + spec_split_acc(s, cur, Seq::empty()),
    decreases s.len(),
{
    if s.len() == 0 {
        assert(acc + Seq::empty().push(cur) =~= acc.push(cur));
    } else if s[0] == ':' {
        lemma_split_acc_prefix(s.skip(1), Seq::empty(), acc.push(cur));
        lemma_split_acc_prefix(s.skip(1), Seq::empty(), Seq::empty().push(cur));
        let rest = spec_split_acc(s.skip(1), Seq::empty(), Seq::empty());
        assert(acc + (Seq::empty().push(cur) + rest) =~= acc.push(cur) + rest);
    } else {
        lemma_split_acc_prefix(s.skip(1), cur.push(s[0]), acc);
    }
}

proof fn lemma_filter_push<A>(s: Seq<A>, x: A, pred: spec_fn(A) -> bool)
    ensures
        s.push(x).filter(pred) == (if pred(x) {
            s.filter(pred).push(x)
        } else {
            s.filter(pred)
        }),
{
    reveal(Seq::filter);
    assert(s.push(x).drop_last() =~= s);
}

/// Split a dialog-menu message at colons and keep the non-empty pieces, in
/// their original order.
pub fn split_dialog_choices(message: &str) -> (choices: Vec<String>)
    ensures
        choices@.map_values(|c: String| c@) == spec_dialog_choices(message@),
{
    let ghost s = message@;
    let len = message.unicode_len();
    let mut choices: Vec<String> = Vec::new();
    let mut start: usize = 0;
    let mut i: usize = 0;
    let ghost mut acc: Seq<Seq<char>> = Seq::empty();
    proof {
        assert(Seq::<Seq<char>>::empty() + spec_split_acc(s, Seq::empty(), Seq::empty())
            =~= spec_split_acc(s, Seq::empty(), Seq::empty()));
        assert(s.skip(0) =~= s);
        assert(s.subrange(0, 0) =~= Seq::<char>::empty());
        reveal(Seq::filter);
    }
    while i < len
        invariant
            len == s.len(),
            s == message@,
            start <= i <= len,
            spec_split_colon(s) == acc + spec_split_acc(
                s.skip(i as int),
                s.subrange(start as int, i as int),
                Seq::empty(),
            ),
            choices@.map_values(|c: String| c@) == acc.filter(|p: Seq<char>| p.len() > 0),
        decreases len - i,
    {
        let c = message.get_char(i);
        let ghost cur = s.subrange(start as int, i as int);
        if c == ':' {
            proof {
                assert(s.skip(i as int)[0] == s[i as int]);
                assert(s.skip(i as int).skip(1) =~= s.skip(i as int + 1));
                let rest = spec_split_acc(s.skip(i as int + 1), Seq::empty(), Seq::empty());
                lemma_split_acc_prefix(s.skip(i as int + 1), Seq::empty(), Seq::empty().push(cur));
                assert(acc + (Seq::empty().push(cur) + rest) =~= acc.push(cur) + rest);
                lemma_filter_push(acc, cur, |p: Seq<char>| p.len() > 0);
            }
            if i > start {
                let piece = message.substring_char(start, i);
                let owned = piece.to_owned();
                choices.push(owned);
                proof {
                    assert(choices@.map_values(|c2: String| c2@)
                        =~= acc.filter(|p: Seq<char>| p.len() > 0).push(cur));
                }
            } else {
                proof {
                    assert(cur.len() == 0);
                }
            }
            proof {
                acc = acc.push(cur);
                assert(s.subrange(i as int + 1, i as int + 1) =~= Seq::<char>::empty());
            }
            start = i + 1;
        } else {
            proof {
                assert(s.skip(i as int)[0] == s[i as int]);
                assert(s.skip(i as int).skip(1) =~= s.skip(i as int + 1));
                assert(cur.push(s[i as int]) =~= s.subrange(start as int, i as int + 1));
            }
        }
        i += 1;
    }
    let ghost cur = s.subrange(start as int, len as int);
    proof {
        assert(s.skip(len as int) =~= Seq::<char>::empty());
        assert(spec_split_colon(s) == acc + Seq::<Seq<char>>::empty().push(cur));
        assert(acc + Seq::<Seq<char>>::empty().push(cur) =~= acc.push(cur));
        lemma_filter_push(acc, cur, |p: Seq<char>| p.len() > 0);
    }
    if len > start {
        let piece = message.substring_char(start, len);
        choices.push(piece.to_owned());
        proof {
            assert(choices@.map_values(|c2: String| c2@)
                =~= acc.filter(|p: Seq<char>| p.len() > 0).push(cur));
        }
    }
    choices
}

// ---------------------------------------------------------------------------
// Hotkey classification.
// ---------------------------------------------------------------------------

/// Classification of one raw hotkey slot against the "unbound" sentinel.
pub open spec fn spec_classify_hotkey(hotkey: HotkeyData) -> HotkeyState {
    if spec_hotkey_unbound(hotkey) {
        HotkeyState::Unbound
    } else {
        HotkeyState::Bound(hotkey)
    }
}

/// Classify one raw hotkey slot value.
pub fn classify_hotkey(hotkey: HotkeyData) -> (r: HotkeyState)
    ensures
        r == spec_classify_hotkey(hotkey),
{
    if hotkey.is_unbound() {
        HotkeyState::Unbound
    } else {
        HotkeyState::Bound(hotkey)
    }
}

/// Classify every hotkey slot, preserving slot order.
pub fn classify_hotkeys(hotkeys: &Vec<HotkeyData>) -> (states: Vec<HotkeyState>)
    ensures
        states@ == hotkeys@.map_values(|h: HotkeyData| spec_classify_hotkey(h)),
{
    let mut states: Vec<HotkeyState> = Vec::new();
    let mut i: usize = 0;
    while i < hotkeys.len()
        invariant
            i <= hotkeys@.len(),
            states@ == hotkeys@.subrange(0, i as int).map_values(
                |h: HotkeyData| spec_classify_hotkey(h),
            ),
        decreases hotkeys@.len() - i,
    {
        let state = classify_hotkey(hotkeys[i]);
        states.push(state);
        proof {
            assert(states@ =~= hotkeys@.subrange(0, i as int + 1).map_values(
                |h: HotkeyData| spec_classify_hotkey(h),
            ));
        }
        i += 1;
    }
    proof {
        assert(hotkeys@.subrange(0, hotkeys@.len() as int) =~= hotkeys@);
    }
    states
}

// ---------------------------------------------------------------------------
// Per-packet rules. Each spec function states the exact ordered event
// sequence for its packet kind; each executable function realizes it.
// ---------------------------------------------------------------------------

/// Events of a successful login at the login server.
pub open spec fn login_success_events(p: LoginServerLoginSuccessPacket) -> Seq<NetworkEventValue> {
    seq![
        NetworkEventValue::LoginServerConnected {
            character_servers: p.character_server_information@.map_values(
                |s: CharacterServerInformation| s@,
            ),
            login_data: LoginServerLoginData {
                account_id: p.account_id,
                login_id1: p.login_id1 as u32,
                login_id2: p.login_id2,
                sex: p.sex,
            },
        },
    ]
}

/// Events of a ban notification in the login phase.
pub open spec fn login_banned_events(p: LoginBannedPacket) -> Seq<NetworkEventValue> {
    seq![
        NetworkEventValue::LoginServerConnectionFailed {
            reason: spec_unified_login_reason(p.reason),
            message: spec_login_banned_message(p.reason),
        },
    ]
}

/// Events of an extended login failure.
pub open spec fn login_failed2_events(p: LoginFailedPacket2) -> Seq<NetworkEventValue> {
    seq![
        NetworkEventValue::LoginServerConnectionFailed {
            reason: spec_unified_login_reason2(p.reason),
            message: spec_login_failed2_message(p.reason),
        },
    ]
}

/// Events of a ban notification in the character-selection phase: the raw
/// reason passes through, with the same fixed message table.
pub open spec fn character_server_banned_events(p: LoginBannedPacket) -> Seq<NetworkEventValue> {
    seq![
        NetworkEventValue::CharacterServerConnectionFailed {
            reason: p.reason,
            message: spec_login_banned_message(p.reason),
        },
    ]
}

/// Events of a character-list packet: exactly two, in fixed order — first the
/// character-server-connected event with the normal slot count, then the
/// character list with the records in their original order.
pub open spec fn character_list_events(p: CharacterListPacket) -> Seq<NetworkEventValue> {
    seq![
        NetworkEventValue::CharacterServerConnected {
            normal_slot_count: p.maximum_slot_count as usize,
        },
        NetworkEventValue::CharacterList {
            characters: p.character_information@.map_values(|c: CharacterInformation| c@),
        },
    ]
}

/// Events of a successful character selection.
pub open spec fn character_selection_success_events(
    p: CharacterSelectionSuccessPacket,
) -> Seq<NetworkEventValue> {
    seq![
        NetworkEventValue::CharacterSelected {
            login_data: CharacterServerLoginData {
                server_ip: p.map_server_ip,
                server_port: p.map_server_port,
                character_id: p.character_id,
            },
        },
    ]
}

/// Events of a failed character selection.
pub open spec fn character_selection_failed_events(
    p: CharacterSelectionFailedPacket,
) -> Seq<NetworkEventValue> {
    match p.reason {
        CharacterSelectionFailedReason::RejectedFromServer => seq![
            NetworkEventValue::CharacterSelectionFailed {
                reason: UnifiedCharacterSelectionFailedReason::RejectedFromServer,
                message: "Rejected from server"@,
            },
        ],
    }
}

/// Events of a map-server-unavailable notification: a selection failure with
/// its own unified reason.
pub open spec fn map_server_unavailable_events() -> Seq<NetworkEventValue> {
    seq![
        NetworkEventValue::CharacterSelectionFailed {
            reason: UnifiedCharacterSelectionFailedReason::MapServerUnavailable,
            message: "Map server currently unavailable"@,
        },
    ]
}

/// Events of a successful character creation.
pub open spec fn create_character_success_events(
    p: CreateCharacterSuccessPacket,
) -> Seq<NetworkEventValue> {
    seq![
        NetworkEventValue::CharacterCreated { character_information: p.character_information@ },
    ]
}

/// Events of a failed character creation.
pub open spec fn character_creation_failed_events(
    p: CharacterCreationFailedPacket,
) -> Seq<NetworkEventValue> {
    seq![
        NetworkEventValue::CharacterCreationFailed {
            reason: p.reason,
            message: spec_character_creation_message(p.reason),
        },
    ]
}

/// Events of a successful character deletion.
pub open spec fn character_deletion_success_events() -> Seq<NetworkEventValue> {
    seq![NetworkEventValue::CharacterDeleted]
}

/// Events of a failed character deletion.
pub open spec fn character_deletion_failed_events(
    p: CharacterDeletionFailedPacket,
) -> Seq<NetworkEventValue> {
    seq![
        NetworkEventValue::CharacterDeletionFailed {
            reason: p.reason,
            message: spec_character_deletion_message(p.reason),
        },
    ]
}

/// Events of a slot-switch response.
pub open spec fn switch_character_slot_events(
    p: SwitchCharacterSlotResponsePacket,
) -> Seq<NetworkEventValue> {
    match p.status {
        SwitchCharacterSlotResponseStatus::Success => seq![
            NetworkEventValue::CharacterSlotSwitched,
        ],
        SwitchCharacterSlotResponseStatus::Error => seq![
            NetworkEventValue::CharacterSlotSwitchFailed,
        ],
    }
}

/// Events of a map-server ping: none; the packet is recognized and consumed.
pub open spec fn map_server_ping_events() -> Seq<NetworkEventValue> {
    Seq::empty()
}

/// Events of a successful map-server login.
pub open spec fn map_server_login_events(p: MapServerLoginSuccessPacket) -> Seq<NetworkEventValue> {
    seq![NetworkEventValue::UpdateClientTick { client_tick: p.client_tick }]
}

/// Events of a map change: the map identifier is normalized by stripping its
/// file-extension suffix; the position passes through.
pub open spec fn change_map_events(p: ChangeMapPacket) -> Seq<NetworkEventValue> {
    seq![
        NetworkEventValue::ChangeMap {
            map_name: spec_strip_map_extension(p.map_name@),
            position: p.position,
        },
    ]
}

/// Events of a restart response.
pub open spec fn restart_response_events(p: RestartResponsePacket) -> Seq<NetworkEventValue> {
    match p.result {
        RestartResponseStatus::Okay => seq![NetworkEventValue::LoggedOut],
        RestartResponseStatus::Nothing => seq![
            NetworkEventValue::ChatMessage {
                text: "Failed to log out."@,
                color: MessageColor::Error,
            },
        ],
    }
}

/// Events of a disconnect response.
pub open spec fn disconnect_response_events(p: DisconnectResponsePacket) -> Seq<NetworkEventValue> {
    match p.result {
        DisconnectResponseStatus::Okay => seq![NetworkEventValue::LoggedOut],
        DisconnectResponseStatus::Wait10Seconds => seq![
            NetworkEventValue::ChatMessage {
                text: "Please wait 10 seconds before trying to log out."@,
                color: MessageColor::Error,
            },
        ],
    }
}

/// Events of a hotkey update: every slot classified, slot order preserved.
pub open spec fn update_hotkeys_events(p: UpdateHotkeysPacket) -> Seq<NetworkEventValue> {
    seq![
        NetworkEventValue::SetHotkeyData {
            tab: p.tab,
            hotkeys: p.hotkeys@.map_values(|h: HotkeyData| spec_classify_hotkey(h)),
        },
    ]
}

/// Events of a player movement: the combined representation decomposes into
/// separate origin and destination, the start timestamp passes through.
pub open spec fn player_move_events(p: PlayerMovePacket) -> Seq<NetworkEventValue> {
    seq![
        NetworkEventValue::PlayerMove {
            origin: WorldPosition { x: p.from_to.origin_x, y: p.from_to.origin_y },
            destination: WorldPosition {
                x: p.from_to.destination_x,
                y: p.from_to.destination_y,
            },
            starting_timestamp: p.starting_timestamp,
        },
    ]
}

/// Events of an entity movement: decomposed as for the player.
pub open spec fn entity_move_events(p: EntityMovePacket) -> Seq<NetworkEventValue> {
    seq![
        NetworkEventValue::EntityMove {
            entity_id: p.entity_id,
            origin: WorldPosition { x: p.from_to.origin_x, y: p.from_to.origin_y },
            destination: WorldPosition {
                x: p.from_to.destination_x,
                y: p.from_to.destination_y,
            },
            starting_timestamp: p.starting_timestamp,
        },
    ]
}

/// Events of the initial stat-cost packet.
pub open spec fn initial_stats_events(p: InitialStatsPacket) -> Seq<NetworkEventValue> {
    seq![
        NetworkEventValue::InitialStats {
            strength_stat_points_cost: p.strength_stat_points_cost,
            agility_stat_points_cost: p.agility_stat_points_cost,
            vitality_stat_points_cost: p.vitality_stat_points_cost,
            intelligence_stat_points_cost: p.intelligence_stat_points_cost,
            dexterity_stat_points_cost: p.dexterity_stat_points_cost,
            luck_stat_points_cost: p.luck_stat_points_cost,
        },
    ]
}

/// Events of a skill-tree update.
pub open spec fn skill_tree_events(p: UpdateSkillTreePacket) -> Seq<NetworkEventValue> {
    seq![NetworkEventValue::SkillTree { skill_information: p.skill_information@ }]
}

/// Events of a stat change in its first wire shape.
pub open spec fn update_stat_events(p: UpdateStatPacket) -> Seq<NetworkEventValue> {
    seq![NetworkEventValue::UpdateStat { stat_id: p.stat_id, value: p.value as i64 }]
}

/// Events of a stat change in its second wire shape.
pub open spec fn update_stat1_events(p: UpdateStatPacket1) -> Seq<NetworkEventValue> {
    seq![NetworkEventValue::UpdateStat { stat_id: p.stat_id, value: p.value as i64 }]
}

/// Events of a stat change in its third wire shape: the base value and the
/// bonus are combined inside the handler; the difference never reaches the
/// downstream consumer.
pub open spec fn update_stat2_events(p: UpdateStatPacket2) -> Seq<NetworkEventValue> {
    seq![
        NetworkEventValue::UpdateStat {
            stat_id: p.stat_id,
            value: (p.base_value + p.bonus_value) as i64,
        },
    ]
}

/// Events of a stat change in its fourth wire shape.
pub open spec fn update_stat3_events(p: UpdateStatPacket3) -> Seq<NetworkEventValue> {
    seq![NetworkEventValue::UpdateStat { stat_id: p.stat_id, value: p.value }]
}

/// Events of a sprite change: only the "base" and "hair" discriminants
/// produce an event; every other discriminant is deliberately filtered out.
pub open spec fn sprite_change_events(p: SpriteChangePacket) -> Seq<NetworkEventValue> {
    match p.sprite_type {
        SpriteChangeType::Base => seq![
            NetworkEventValue::ChangeJob { account_id: p.account_id, job_id: p.value },
        ],
        SpriteChangeType::Hair => seq![
            NetworkEventValue::ChangeHair { account_id: p.account_id, hair_id: p.value },
        ],
        _ => Seq::empty(),
    }
}

/// Events of an NPC-dialog "next" button.
pub open spec fn next_button_events(p: NextButtonPacket) -> Seq<NetworkEventValue> {
    seq![NetworkEventValue::AddNextButton { npc_id: p.npc_id }]
}

/// Events of an NPC-dialog "close" button.
pub open spec fn close_button_events(p: CloseButtonPacket) -> Seq<NetworkEventValue> {
    seq![NetworkEventValue::AddCloseButton { npc_id: p.npc_id }]
}

/// Events of an NPC dialog menu: the colon-separated non-empty choices.
pub open spec fn dialog_menu_events(p: DialogMenuPacket) -> Seq<NetworkEventValue> {
    seq![
        NetworkEventValue::AddChoiceButtons {
            choices: spec_dialog_choices(p.message@),
            npc_id: p.npc_id,
        },
    ]
}

/// Events of a line of NPC dialog text.
pub open spec fn npc_dialog_events(p: NpcDialogPacket) -> Seq<NetworkEventValue> {
    seq![NetworkEventValue::OpenDialog { text: p.text@, npc_id: p.npc_id }]
}

/// Events of a buy-or-sell query.
pub open spec fn buy_or_sell_events(p: BuyOrSellPacket) -> Seq<NetworkEventValue> {
    seq![NetworkEventValue::AskBuyOrSell { shop_id: p.shop_id }]
}

/// Wrap one event as a one-element ordered sequence.
fn single_event(event: NetworkEvent) -> (r: Vec<NetworkEvent>)
    ensures
        events_value(r@) == seq![event@],
{
    let mut events: Vec<NetworkEvent> = Vec::new();
    events.push(event);
    proof {
        assert(events_value(events@) =~= seq![event@]);
    }
    events
}

/// Normalize a successful login at the login server.
pub fn normalize_login_success(packet: LoginServerLoginSuccessPacket) -> (r: Vec<NetworkEvent>)
    ensures
        events_value(r@) == login_success_events(packet),
{
    let login_data = LoginServerLoginData {
        account_id: packet.account_id,
        login_id1: #[verifier::truncate] (packet.login_id1 as u32),
        login_id2: packet.login_id2,
        sex: packet.sex,
    };
    let r = single_event(NetworkEvent::LoginServerConnected {
        character_servers: packet.character_server_information,
        login_data,
    });
    proof {
        assert(events_value(r@) =~= login_success_events(packet));
    }
    r
}

/// Normalize a ban notification in the login phase.
pub fn normalize_login_banned(packet: LoginBannedPacket) -> (r: Vec<NetworkEvent>)
    ensures
        events_value(r@) == login_banned_events(packet),
{
    let (reason, message): (UnifiedLoginFailedReason, &'static str) = match packet.reason {
        LoginFailedReason::ServerClosed => (UnifiedLoginFailedReason::ServerClosed, "Server closed"),
        LoginFailedReason::AlreadyLoggedIn => (
            UnifiedLoginFailedReason::AlreadyLoggedIn,
            "Someone has already logged in with this id",
        ),
        LoginFailedReason::AlreadyOnline => (UnifiedLoginFailedReason::AlreadyOnline, "Already online"),
    };
    let r = single_event(NetworkEvent::LoginServerConnectionFailed { reason, message });
    proof {
        assert(events_value(r@) =~= login_banned_events(packet));
    }
    r
}

/// Normalize an extended login failure.
pub fn normalize_login_failed2(packet: LoginFailedPacket2) -> (r: Vec<NetworkEvent>)
    ensures
        events_value(r@) == login_failed2_events(packet),
{
    let (reason, message): (UnifiedLoginFailedReason, &'static str) = match packet.reason {
        LoginFailedReason2::UnregisteredId => (UnifiedLoginFailedReason::UnregisteredId, "Unregistered id"),
        LoginFailedReason2::IncorrectPassword => (
            UnifiedLoginFailedReason::IncorrectPassword,
            "Incorrect password",
        ),
        LoginFailedReason2::IdExpired => (UnifiedLoginFailedReason::IdExpired, "Id has expired"),
        LoginFailedReason2::RejectedFromServer => (
            UnifiedLoginFailedReason::RejectedFromServer,
            "Rejected from server",
        ),
        LoginFailedReason2::BlockedByGMTeam => (
            UnifiedLoginFailedReason::BlockedByGMTeam,
            "Blocked by gm team",
        ),
        LoginFailedReason2::GameOutdated => (UnifiedLoginFailedReason::GameOutdated, "Game outdated"),
        LoginFailedReason2::LoginProhibitedUntil => (
            UnifiedLoginFailedReason::LoginProhibitedUntil,
            "Login prohibited until",
        ),
        LoginFailedReason2::ServerFull => (UnifiedLoginFailedReason::ServerFull, "Server is full"),
        LoginFailedReason2::CompanyAccountLimitReached => (
            UnifiedLoginFailedReason::CompanyAccountLimitReached,
            "Company account limit reached",
        ),
    };
    let r = single_event(NetworkEvent::LoginServerConnectionFailed { reason, message });
    proof {
        assert(events_value(r@) =~= login_failed2_events(packet));
    }
    r
}

/// Normalize a ban notification in the character-selection phase.
pub fn normalize_character_server_banned(packet: LoginBannedPacket) -> (r: Vec<NetworkEvent>)
    ensures
        events_value(r@) == character_server_banned_events(packet),
{
    let reason = packet.reason;
    let message: &'static str = match reason {
        LoginFailedReason::ServerClosed => "Server closed",
        LoginFailedReason::AlreadyLoggedIn => "Someone has already logged in with this id",
        LoginFailedReason::AlreadyOnline => "Already online",
    };
    let r = single_event(NetworkEvent::CharacterServerConnectionFailed { reason, message });
    proof {
        assert(events_value(r@) =~= character_server_banned_events(packet));
    }
    r
}

/// Normalize a character-list packet into its fixed two-event expansion.
pub fn normalize_character_list(packet: CharacterListPacket) -> (r: Vec<NetworkEvent>)
    ensures
        events_value(r@) == character_list_events(packet),
{
    let ghost p = packet;
    let mut events: Vec<NetworkEvent> = Vec::new();
    events.push(NetworkEvent::CharacterServerConnected {
        normal_slot_count: packet.maximum_slot_count as usize,
    });
    events.push(NetworkEvent::CharacterList { characters: packet.character_information });
    proof {
        assert(events_value(events@) =~= character_list_events(p));
    }
    events
}

/// Normalize a successful character selection.
pub fn normalize_character_selection_success(
    packet: CharacterSelectionSuccessPacket,
) -> (r: Vec<NetworkEvent>)
    ensures
        events_value(r@) == character_selection_success_events(packet),
{
    let login_data = CharacterServerLoginData {
        server_ip: packet.map_server_ip,
        server_port: packet.map_server_port,
        character_id: packet.character_id,
    };
    let r = single_event(NetworkEvent::CharacterSelected { login_data });
    proof {
        assert(events_value(r@) =~= character_selection_success_events(packet));
    }
    r
}

/// Normalize a failed character selection.
pub fn normalize_character_selection_failed(
    packet: CharacterSelectionFailedPacket,
) -> (r: Vec<NetworkEvent>)
    ensures
        events_value(r@) == character_selection_failed_events(packet),
{
    let (reason, message): (UnifiedCharacterSelectionFailedReason, &'static str) = match packet
        .reason {
        CharacterSelectionFailedReason::RejectedFromServer => (
            UnifiedCharacterSelectionFailedReason::RejectedFromServer,
            "Rejected from server",
        ),
    };
    let r = single_event(NetworkEvent::CharacterSelectionFailed { reason, message });
    proof {
        assert(events_value(r@) =~= character_selection_failed_events(packet));
    }
    r
}

/// Normalize a map-server-unavailable notification.
pub fn normalize_map_server_unavailable() -> (r: Vec<NetworkEvent>)
    ensures
        events_value(r@) == map_server_unavailable_events(),
{
    let reason = UnifiedCharacterSelectionFailedReason::MapServerUnavailable;
    let message: &'static str = "Map server currently unavailable";
    let r = single_event(NetworkEvent::CharacterSelectionFailed { reason, message });
    proof {
        assert(events_value(r@) =~= map_server_unavailable_events());
    }
    r
}

/// Normalize a successful character creation.
pub fn normalize_create_character_success(
    packet: CreateCharacterSuccessPacket,
) -> (r: Vec<NetworkEvent>)
    ensures
        events_value(r@) == create_character_success_events(packet),
{
    let ghost p = packet;
    let r = single_event(NetworkEvent::CharacterCreated {
        character_information: packet.character_information,
    });
    proof {
        assert(events_value(r@) =~= create_character_success_events(p));
    }
    r
}

/// Normalize a failed character creation.
pub fn normalize_character_creation_failed(
    packet: CharacterCreationFailedPacket,
) -> (r: Vec<NetworkEvent>)
    ensures
        events_value(r@) == character_creation_failed_events(packet),
{
    let reason = packet.reason;
    let message: &'static str = match reason {
        CharacterCreationFailedReason::CharacterNameAlreadyUsed => "Character name is already used",
        CharacterCreationFailedReason::NotOldEnough => "You are not old enough to create a character",
        CharacterCreationFailedReason::NotAllowedToUseSlot => "You are not allowed to use this character slot",
        CharacterCreationFailedReason::CharacterCerationFailed => "Character creation failed",
    };
    let r = single_event(NetworkEvent::CharacterCreationFailed { reason, message });
    proof {
        assert(events_value(r@) =~= character_creation_failed_events(packet));
    }
    r
}

/// Normalize a successful character deletion.
pub fn normalize_character_deletion_success() -> (r: Vec<NetworkEvent>)
    ensures
        events_value(r@) == character_deletion_success_events(),
{
    let r = single_event(NetworkEvent::CharacterDeleted);
    proof {
        assert(events_value(r@) =~= character_deletion_success_events());
    }
    r
}

/// Normalize a failed character deletion.
pub fn normalize_character_deletion_failed(
    packet: CharacterDeletionFailedPacket,
) -> (r: Vec<NetworkEvent>)
    ensures
        events_value(r@) == character_deletion_failed_events(packet),
{
    let reason = packet.reason;
    let message: &'static str = match reason {
        CharacterDeletionFailedReason::NotAllowed => "You are not allowed to delete this character",
        CharacterDeletionFailedReason::CharacterNotFound => "Character was not found",
        CharacterDeletionFailedReason::NotEligible => "Character is not eligible for deletion",
    };
    let r = single_event(NetworkEvent::CharacterDeletionFailed { reason, message });
    proof {
        assert(events_value(r@) =~= character_deletion_failed_events(packet));
    }
    r
}

/// Normalize a slot-switch response.
pub fn normalize_switch_character_slot(
    packet: SwitchCharacterSlotResponsePacket,
) -> (r: Vec<NetworkEvent>)
    ensures
        events_value(r@) == switch_character_slot_events(packet),
{
    let event = match packet.status {
        SwitchCharacterSlotResponseStatus::Success => NetworkEvent::CharacterSlotSwitched,
        SwitchCharacterSlotResponseStatus::Error => NetworkEvent::CharacterSlotSwitchFailed,
    };
    let r = single_event(event);
    proof {
        assert(events_value(r@) =~= switch_character_slot_events(packet));
    }
    r
}

/// Normalize a map-server ping: recognized, deliberately no events.
pub fn normalize_map_server_ping() -> (r: Vec<NetworkEvent>)
    ensures
        events_value(r@) == map_server_ping_events(),
{
    let events: Vec<NetworkEvent> = Vec::new();
    proof {
        assert(events_value(events@) =~= map_server_ping_events());
    }
    events
}

/// Normalize a successful map-server login.
pub fn normalize_map_server_login(packet: MapServerLoginSuccessPacket) -> (r: Vec<NetworkEvent>)
    ensures
        events_value(r@) == map_server_login_events(packet),
{
    let r = single_event(NetworkEvent::UpdateClientTick { client_tick: packet.client_tick });
    proof {
        assert(events_value(r@) =~= map_server_login_events(packet));
    }
    r
}

/// Normalize a map change.
pub fn normalize_change_map(packet: ChangeMapPacket) -> (r: Vec<NetworkEvent>)
    ensures
        events_value(r@) == change_map_events(packet),
{
    let ghost p = packet;
    let map_name = strip_map_extension(packet.map_name.as_str());
    let r = single_event(NetworkEvent::ChangeMap { map_name, position: packet.position });
    proof {
        assert(events_value(r@) =~= change_map_events(p));
    }
    r
}

/// Normalize a restart response.
pub fn normalize_restart_response(packet: RestartResponsePacket) -> (r: Vec<NetworkEvent>)
    ensures
        events_value(r@) == restart_response_events(packet),
{
    let event = match packet.result {
        RestartResponseStatus::Okay => NetworkEvent::LoggedOut,
        RestartResponseStatus::Nothing => NetworkEvent::ChatMessage {
            text: "Failed to log out.",
            color: MessageColor::Error,
        },
    };
    let r = single_event(event);
    proof {
        assert(events_value(r@) =~= restart_response_events(packet));
    }
    r
}

/// Normalize a disconnect response.
pub fn normalize_disconnect_response(packet: DisconnectResponsePacket) -> (r: Vec<NetworkEvent>)
    ensures
        events_value(r@) == disconnect_response_events(packet),
{
    let event = match packet.result {
        DisconnectResponseStatus::Okay => NetworkEvent::LoggedOut,
        DisconnectResponseStatus::Wait10Seconds => NetworkEvent::ChatMessage {
            text: "Please wait 10 seconds before trying to log out.",
            color: MessageColor::Error,
        },
    };
    let r = single_event(event);
    proof {
        assert(events_value(r@) =~= disconnect_response_events(packet));
    }
    r
}

/// Normalize a hotkey update.
pub fn normalize_update_hotkeys(packet: UpdateHotkeysPacket) -> (r: Vec<NetworkEvent>)
    ensures
        events_value(r@) == update_hotkeys_events(packet),
{
    let hotkeys = classify_hotkeys(&packet.hotkeys);
    let r = single_event(NetworkEvent::SetHotkeyData { tab: packet.tab, hotkeys });
    proof {
        assert(events_value(r@) =~= update_hotkeys_events(packet));
    }
    r
}

/// Normalize a player movement.
pub fn normalize_player_move(packet: PlayerMovePacket) -> (r: Vec<NetworkEvent>)
    ensures
        events_value(r@) == player_move_events(packet),
{
    let (origin, destination) = packet.from_to.to_origin_destination();
    let r = single_event(NetworkEvent::PlayerMove {
        origin,
        destination,
        starting_timestamp: packet.starting_timestamp,
    });
    proof {
        assert(events_value(r@) =~= player_move_events(packet));
    }
    r
}

/// Normalize an entity movement.
pub fn normalize_entity_move(packet: EntityMovePacket) -> (r: Vec<NetworkEvent>)
    ensures
        events_value(r@) == entity_move_events(packet),
{
    let (origin, destination) = packet.from_to.to_origin_destination();
    let r = single_event(NetworkEvent::EntityMove {
        entity_id: packet.entity_id,
        origin,
        destination,
        starting_timestamp: packet.starting_timestamp,
    });
    proof {
        assert(events_value(r@) =~= entity_move_events(packet));
    }
    r
}

/// Normalize the initial stat-cost packet.
pub fn normalize_initial_stats(packet: InitialStatsPacket) -> (r: Vec<NetworkEvent>)
    ensures
        events_value(r@) == initial_stats_events(packet),
{
    let r = single_event(NetworkEvent::InitialStats {
        strength_stat_points_cost: packet.strength_stat_points_cost,
        agility_stat_points_cost: packet.agility_stat_points_cost,
        vitality_stat_points_cost: packet.vitality_stat_points_cost,
        intelligence_stat_points_cost: packet.intelligence_stat_points_cost,
        dexterity_stat_points_cost: packet.dexterity_stat_points_cost,
        luck_stat_points_cost: packet.luck_stat_points_cost,
    });
    proof {
        assert(events_value(r@) =~= initial_stats_events(packet));
    }
    r
}

/// Normalize a skill-tree update.
pub fn normalize_skill_tree(packet: UpdateSkillTreePacket) -> (r: Vec<NetworkEvent>)
    ensures
        events_value(r@) == skill_tree_events(packet),
{
    let ghost p = packet;
    let r = single_event(NetworkEvent::SkillTree {
        skill_information: packet.skill_information,
    });
    proof {
        assert(events_value(r@) =~= skill_tree_events(p));
    }
    r
}

/// Normalize a stat change in its first wire shape.
pub fn normalize_update_stat(packet: UpdateStatPacket) -> (r: Vec<NetworkEvent>)
    ensures
        events_value(r@) == update_stat_events(packet),
{
    let r = single_event(NetworkEvent::UpdateStat {
        stat_id: packet.stat_id,
        value: packet.value as i64,
    });
    proof {
        assert(events_value(r@) =~= update_stat_events(packet));
    }
    r
}

/// Normalize a stat change in its second wire shape.
pub fn normalize_update_stat1(packet: UpdateStatPacket1) -> (r: Vec<NetworkEvent>)
    ensures
        events_value(r@) == update_stat1_events(packet),
{
    let r = single_event(NetworkEvent::UpdateStat {
        stat_id: packet.stat_id,
        value: packet.value as i64,
    });
    proof {
        assert(events_value(r@) =~= update_stat1_events(packet));
    }
    r
}

/// Normalize a stat change in its third wire shape: base and bonus combine
/// into the single unified value.
pub fn normalize_update_stat2(packet: UpdateStatPacket2) -> (r: Vec<NetworkEvent>)
    ensures
        events_value(r@) == update_stat2_events(packet),
{
    let value = packet.base_value as i64 + packet.bonus_value as i64;
    let r = single_event(NetworkEvent::UpdateStat { stat_id: packet.stat_id, value });
    proof {
        assert(events_value(r@) =~= update_stat2_events(packet));
    }
    r
}

/// Normalize a stat change in its fourth wire shape.
pub fn normalize_update_stat3(packet: UpdateStatPacket3) -> (r: Vec<NetworkEvent>)
    ensures
        events_value(r@) == update_stat3_events(packet),
{
    let r = single_event(NetworkEvent::UpdateStat {
        stat_id: packet.stat_id,
        value: packet.value,
    });
    proof {
        assert(events_value(r@) =~= update_stat3_events(packet));
    }
    r
}

/// Normalize a sprite change, filtering by discriminant.
pub fn normalize_sprite_change(packet: SpriteChangePacket) -> (r: Vec<NetworkEvent>)
    ensures
        events_value(r@) == sprite_change_events(packet),
{
    match packet.sprite_type {
        SpriteChangeType::Base => {
            let r = single_event(NetworkEvent::ChangeJob {
                account_id: packet.account_id,
                job_id: packet.value,
            });
            proof {
                assert(events_value(r@) =~= sprite_change_events(packet));
            }
            r
        },
        SpriteChangeType::Hair => {
            let r = single_event(NetworkEvent::ChangeHair {
                account_id: packet.account_id,
                hair_id: packet.value,
            });
            proof {
                assert(events_value(r@) =~= sprite_change_events(packet));
            }
            r
        },
        _ => {
            let events: Vec<NetworkEvent> = Vec::new();
            proof {
                assert(events_value(events@) =~= sprite_change_events(packet));
            }
            events
        },
    }
}

/// Normalize an NPC-dialog "next" button.
pub fn normalize_next_button(packet: NextButtonPacket) -> (r: Vec<NetworkEvent>)
    ensures
        events_value(r@) == next_button_events(packet),
{
    let r = single_event(NetworkEvent::AddNextButton { npc_id: packet.npc_id });
    proof {
        assert(events_value(r@) =~= next_button_events(packet));
    }
    r
}

/// Normalize an NPC-dialog "close" button.
pub fn normalize_close_button(packet: CloseButtonPacket) -> (r: Vec<NetworkEvent>)
    ensures
        events_value(r@) == close_button_events(packet),
{
    let r = single_event(NetworkEvent::AddCloseButton { npc_id: packet.npc_id });
    proof {
        assert(events_value(r@) =~= close_button_events(packet));
    }
    r
}

/// Normalize an NPC dialog menu.
pub fn normalize_dialog_menu(packet: DialogMenuPacket) -> (r: Vec<NetworkEvent>)
    ensures
        events_value(r@) == dialog_menu_events(packet),
{
    let ghost p = packet;
    let choices = split_dialog_choices(packet.message.as_str());
    let r = single_event(NetworkEvent::AddChoiceButtons { choices, npc_id: packet.npc_id });
    proof {
        assert(events_value(r@) =~= dialog_menu_events(p));
    }
    r
}

/// Normalize a line of NPC dialog text.
pub fn normalize_npc_dialog(packet: NpcDialogPacket) -> (r: Vec<NetworkEvent>)
    ensures
        events_value(r@) == npc_dialog_events(packet),
{
    let ghost p = packet;
    let r = single_event(NetworkEvent::OpenDialog { text: packet.text, npc_id: packet.npc_id });
    proof {
        assert(events_value(r@) =~= npc_dialog_events(p));
    }
    r
}

/// Normalize a buy-or-sell query.
pub fn normalize_buy_or_sell(packet: BuyOrSellPacket) -> (r: Vec<NetworkEvent>)
    ensures
        events_value(r@) == buy_or_sell_events(packet),
{
    let r = single_event(NetworkEvent::AskBuyOrSell { shop_id: packet.shop_id });
    proof {
        assert(events_value(r@) =~= buy_or_sell_events(packet));
    }
    r
}

} // verus!
