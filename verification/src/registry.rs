//! The handler registry: an opcode-keyed table of packet-to-events transforms
//! with duplicate detection, explicit no-op registration, and an explicit
//! "unhandled" dispatch result.
//!
//! A registry is built once per (version, phase) pair and read-only
//! thereafter. Its abstract value is a map from opcode to handler.

use vstd::prelude::*;

use crate::event::NetworkEvent;
use crate::event::NetworkEventValue;
use crate::event::events_value;
use crate::normalize;
use crate::packet::DecodedPacket;
use crate::packet::OPCODE_BUY_OR_SELL;
use crate::packet::OPCODE_CHANGE_MAP;
use crate::packet::OPCODE_CHARACTER_CREATION_FAILED;
use crate::packet::OPCODE_CHARACTER_DELETION_FAILED;
use crate::packet::OPCODE_CHARACTER_DELETION_SUCCESS;
use crate::packet::OPCODE_CHARACTER_LIST;
use crate::packet::OPCODE_CHARACTER_SELECTION_FAILED;
use crate::packet::OPCODE_CHARACTER_SELECTION_SUCCESS;
use crate::packet::OPCODE_CLOSE_BUTTON;
use crate::packet::OPCODE_CREATE_CHARACTER_SUCCESS;
use crate::packet::OPCODE_DIALOG_MENU;
use crate::packet::OPCODE_DISCONNECT_RESPONSE;
use crate::packet::OPCODE_ENTITY_MOVE;
use crate::packet::OPCODE_INITIAL_STATS;
use crate::packet::OPCODE_LOGIN_BANNED;
use crate::packet::OPCODE_LOGIN_FAILED_2;
use crate::packet::OPCODE_LOGIN_SERVER_LOGIN_SUCCESS;
use crate::packet::OPCODE_MAP_SERVER_LOGIN_SUCCESS;
use crate::packet::OPCODE_MAP_SERVER_PING;
use crate::packet::OPCODE_MAP_SERVER_UNAVAILABLE;
use crate::packet::OPCODE_NEXT_BUTTON;
use crate::packet::OPCODE_NPC_DIALOG;
use crate::packet::OPCODE_PLAYER_MOVE;
use crate::packet::OPCODE_RESTART_RESPONSE;
use crate::packet::OPCODE_SPRITE_CHANGE;
use crate::packet::OPCODE_SWITCH_CHARACTER_SLOT_RESPONSE;
use crate::packet::OPCODE_UPDATE_HOTKEYS;
use crate::packet::OPCODE_UPDATE_SKILL_TREE;
use crate::packet::OPCODE_UPDATE_STAT;
use crate::packet::OPCODE_UPDATE_STAT_1;
use crate::packet::OPCODE_UPDATE_STAT_2;
use crate::packet::OPCODE_UPDATE_STAT_3;
use crate::packet::spec_packet_opcode;

verus! {

/// Registration-time failure: a second handler was registered for an opcode
/// already taken in the same registry. The original registration is left
/// untouched.
#[derive(Debug, Clone, Copy, PartialEq, Eq, Structural)]
pub struct DuplicateHandlerError;

/// One registered packet-to-events transform. Each variant names one
/// normalization rule; `Noop` accepts the packet of its opcode and emits
/// nothing, marking the opcode as known but deliberately ignored.
#[derive(Debug, Clone, Copy, PartialEq, Eq, Structural)]
pub enum Handler {
    LoginSuccess,
    LoginBanned,
    LoginFailedExtended,
    CharacterServerBanned,
    CharacterList,
    CharacterSelectionSuccess,
    CharacterSelectionFailed,
    MapServerUnavailable,
    CreateCharacterSuccess,
    CharacterCreationFailed,
    CharacterDeletionSuccess,
    CharacterDeletionFailed,
    SwitchCharacterSlot,
    MapServerPing,
    MapServerLogin,
    ChangeMap,
    RestartResponse,
    DisconnectResponse,
    UpdateHotkeys,
    PlayerMove,
    EntityMove,
    InitialStats,
    SkillTree,
    UpdateStat,
    UpdateStatSigned,
    UpdateStatCombined,
    UpdateStatWide,
    SpriteChange,
    NextButton,
    CloseButton,
    DialogMenu,
    NpcDialog,
    BuyOrSell,
    Noop { opcode: u16 },
}

/// The opcode a handler is keyed under: the canonical opcode of the packet
/// kind it transforms.
pub open spec fn spec_handler_opcode(h: Handler) -> u16 {
    match h {
        Handler::LoginSuccess => OPCODE_LOGIN_SERVER_LOGIN_SUCCESS,
        Handler::LoginBanned => OPCODE_LOGIN_BANNED,
        Handler::LoginFailedExtended => OPCODE_LOGIN_FAILED_2,
        Handler::CharacterServerBanned => OPCODE_LOGIN_BANNED,
        Handler::CharacterList => OPCODE_CHARACTER_LIST,
        Handler::CharacterSelectionSuccess => OPCODE_CHARACTER_SELECTION_SUCCESS,
        Handler::CharacterSelectionFailed => OPCODE_CHARACTER_SELECTION_FAILED,
        Handler::MapServerUnavailable => OPCODE_MAP_SERVER_UNAVAILABLE,
        Handler::CreateCharacterSuccess => OPCODE_CREATE_CHARACTER_SUCCESS,
        Handler::CharacterCreationFailed => OPCODE_CHARACTER_CREATION_FAILED,
        Handler::CharacterDeletionSuccess => OPCODE_CHARACTER_DELETION_SUCCESS,
        Handler::CharacterDeletionFailed => OPCODE_CHARACTER_DELETION_FAILED,
        Handler::SwitchCharacterSlot => OPCODE_SWITCH_CHARACTER_SLOT_RESPONSE,
        Handler::MapServerPing => OPCODE_MAP_SERVER_PING,
        Handler::MapServerLogin => OPCODE_MAP_SERVER_LOGIN_SUCCESS,
        Handler::ChangeMap => OPCODE_CHANGE_MAP,
        Handler::RestartResponse => OPCODE_RESTART_RESPONSE,
        Handler::DisconnectResponse => OPCODE_DISCONNECT_RESPONSE,
        Handler::UpdateHotkeys => OPCODE_UPDATE_HOTKEYS,
        Handler::PlayerMove => OPCODE_PLAYER_MOVE,
        Handler::EntityMove => OPCODE_ENTITY_MOVE,
        Handler::InitialStats => OPCODE_INITIAL_STATS,
        Handler::SkillTree => OPCODE_UPDATE_SKILL_TREE,
        Handler::UpdateStat => OPCODE_UPDATE_STAT,
        Handler::UpdateStatSigned => OPCODE_UPDATE_STAT_1,
        Handler::UpdateStatCombined => OPCODE_UPDATE_STAT_2,
        Handler::UpdateStatWide => OPCODE_UPDATE_STAT_3,
        Handler::SpriteChange => OPCODE_SPRITE_CHANGE,
        Handler::NextButton => OPCODE_NEXT_BUTTON,
        Handler::CloseButton => OPCODE_CLOSE_BUTTON,
        Handler::DialogMenu => OPCODE_DIALOG_MENU,
        Handler::NpcDialog => OPCODE_NPC_DIALOG,
        Handler::BuyOrSell => OPCODE_BUY_OR_SELL,
        Handler::Noop { opcode } => opcode,
    }
}

impl Handler {
    /// The opcode this handler is keyed under.
    pub fn opcode(&self) -> (op: u16)
        ensures
            op == spec_handler_opcode(*self),
    {
        match self {
            Handler::LoginSuccess => OPCODE_LOGIN_SERVER_LOGIN_SUCCESS,
            Handler::LoginBanned => OPCODE_LOGIN_BANNED,
            Handler::LoginFailedExtended => OPCODE_LOGIN_FAILED_2,
            Handler::CharacterServerBanned => OPCODE_LOGIN_BANNED,
            Handler::CharacterList => OPCODE_CHARACTER_LIST,
            Handler::CharacterSelectionSuccess => OPCODE_CHARACTER_SELECTION_SUCCESS,
            Handler::CharacterSelectionFailed => OPCODE_CHARACTER_SELECTION_FAILED,
            Handler::MapServerUnavailable => OPCODE_MAP_SERVER_UNAVAILABLE,
            Handler::CreateCharacterSuccess => OPCODE_CREATE_CHARACTER_SUCCESS,
            Handler::CharacterCreationFailed => OPCODE_CHARACTER_CREATION_FAILED,
            Handler::CharacterDeletionSuccess => OPCODE_CHARACTER_DELETION_SUCCESS,
            Handler::CharacterDeletionFailed => OPCODE_CHARACTER_DELETION_FAILED,
            Handler::SwitchCharacterSlot => OPCODE_SWITCH_CHARACTER_SLOT_RESPONSE,
            Handler::MapServerPing => OPCODE_MAP_SERVER_PING,
            Handler::MapServerLogin => OPCODE_MAP_SERVER_LOGIN_SUCCESS,
            Handler::ChangeMap => OPCODE_CHANGE_MAP,
            Handler::RestartResponse => OPCODE_RESTART_RESPONSE,
            Handler::DisconnectResponse => OPCODE_DISCONNECT_RESPONSE,
            Handler::UpdateHotkeys => OPCODE_UPDATE_HOTKEYS,
            Handler::PlayerMove => OPCODE_PLAYER_MOVE,
            Handler::EntityMove => OPCODE_ENTITY_MOVE,
            Handler::InitialStats => OPCODE_INITIAL_STATS,
            Handler::SkillTree => OPCODE_UPDATE_SKILL_TREE,
            Handler::UpdateStat => OPCODE_UPDATE_STAT,
            Handler::UpdateStatSigned => OPCODE_UPDATE_STAT_1,
            Handler::UpdateStatCombined => OPCODE_UPDATE_STAT_2,
            Handler::UpdateStatWide => OPCODE_UPDATE_STAT_3,
            Handler::SpriteChange => OPCODE_SPRITE_CHANGE,
            Handler::NextButton => OPCODE_NEXT_BUTTON,
            Handler::CloseButton => OPCODE_CLOSE_BUTTON,
            Handler::DialogMenu => OPCODE_DIALOG_MENU,
            Handler::NpcDialog => OPCODE_NPC_DIALOG,
            Handler::BuyOrSell => OPCODE_BUY_OR_SELL,
            Handler::Noop { opcode } => *opcode,
        }
    }
}

/// The exact ordered event sequence a handler produces for a packet. A `Noop`
/// handler produces no events; so does any pairing of a handler with a packet
/// of another opcode, which `dispatch` never forms, since it pairs each packet
/// only with the handler keyed under the packet's own opcode.
pub open spec fn spec_handle(h: Handler, p: DecodedPacket) -> Seq<NetworkEventValue> {
    match (h, p) {
        (Handler::LoginSuccess, DecodedPacket::LoginServerLoginSuccess(packet)) =>
            normalize::login_success_events(packet),
        (Handler::LoginBanned, DecodedPacket::LoginBanned(packet)) =>
            normalize::login_banned_events(packet),
        (Handler::LoginFailedExtended, DecodedPacket::LoginFailed2(packet)) =>
            normalize::login_failed2_events(packet),
        (Handler::CharacterServerBanned, DecodedPacket::LoginBanned(packet)) =>
            normalize::character_server_banned_events(packet),
        (Handler::CharacterList, DecodedPacket::CharacterList(packet)) =>
            normalize::character_list_events(packet),
        (Handler::CharacterSelectionSuccess, DecodedPacket::CharacterSelectionSuccess(packet)) =>
            normalize::character_selection_success_events(packet),
        (Handler::CharacterSelectionFailed, DecodedPacket::CharacterSelectionFailed(packet)) =>
            normalize::character_selection_failed_events(packet),
        (Handler::MapServerUnavailable, DecodedPacket::MapServerUnavailable) =>
            normalize::map_server_unavailable_events(),
        (Handler::CreateCharacterSuccess, DecodedPacket::CreateCharacterSuccess(packet)) =>
            normalize::create_character_success_events(packet),
        (Handler::CharacterCreationFailed, DecodedPacket::CharacterCreationFailed(packet)) =>
            normalize::character_creation_failed_events(packet),
        (Handler::CharacterDeletionSuccess, DecodedPacket::CharacterDeletionSuccess) =>
            normalize::character_deletion_success_events(),
        (Handler::CharacterDeletionFailed, DecodedPacket::CharacterDeletionFailed(packet)) =>
            normalize::character_deletion_failed_events(packet),
        (Handler::SwitchCharacterSlot, DecodedPacket::SwitchCharacterSlotResponse(packet)) =>
            normalize::switch_character_slot_events(packet),
        (Handler::MapServerPing, DecodedPacket::MapServerPing) =>
            normalize::map_server_ping_events(),
        (Handler::MapServerLogin, DecodedPacket::MapServerLoginSuccess(packet)) =>
            normalize::map_server_login_events(packet),
        (Handler::ChangeMap, DecodedPacket::ChangeMap(packet)) =>
            normalize::change_map_events(packet),
        (Handler::RestartResponse, DecodedPacket::RestartResponse(packet)) =>
            normalize::restart_response_events(packet),
        (Handler::DisconnectResponse, DecodedPacket::DisconnectResponse(packet)) =>
            normalize::disconnect_response_events(packet),
        (Handler::UpdateHotkeys, DecodedPacket::UpdateHotkeys(packet)) =>
            normalize::update_hotkeys_events(packet),
        (Handler::PlayerMove, DecodedPacket::PlayerMove(packet)) =>
            normalize::player_move_events(packet),
        (Handler::EntityMove, DecodedPacket::EntityMove(packet)) =>
            normalize::entity_move_events(packet),
        (Handler::InitialStats, DecodedPacket::InitialStats(packet)) =>
            normalize::initial_stats_events(packet),
        (Handler::SkillTree, DecodedPacket::UpdateSkillTree(packet)) =>
            normalize::skill_tree_events(packet),
        (Handler::UpdateStat, DecodedPacket::UpdateStat(packet)) =>
            normalize::update_stat_events(packet),
        (Handler::UpdateStatSigned, DecodedPacket::UpdateStat1(packet)) =>
            normalize::update_stat1_events(packet),
        (Handler::UpdateStatCombined, DecodedPacket::UpdateStat2(packet)) =>
            normalize::update_stat2_events(packet),
        (Handler::UpdateStatWide, DecodedPacket::UpdateStat3(packet)) =>
            normalize::update_stat3_events(packet),
        (Handler::SpriteChange, DecodedPacket::SpriteChange(packet)) =>
            normalize::sprite_change_events(packet),
        (Handler::NextButton, DecodedPacket::NextButton(packet)) =>
            normalize::next_button_events(packet),
        (Handler::CloseButton, DecodedPacket::CloseButton(packet)) =>
            normalize::close_button_events(packet),
        (Handler::DialogMenu, DecodedPacket::DialogMenu(packet)) =>
            normalize::dialog_menu_events(packet),
        (Handler::NpcDialog, DecodedPacket::NpcDialog(packet)) =>
            normalize::npc_dialog_events(packet),
        (Handler::BuyOrSell, DecodedPacket::BuyOrSell(packet)) =>
            normalize::buy_or_sell_events(packet),
        _ => Seq::empty(),
    }
}

/// Run one handler on one packet.
fn apply_handler(handler: Handler, packet: DecodedPacket) -> (r: Vec<NetworkEvent>)
    ensures
        events_value(r@) == spec_handle(handler, packet),
{
    match (handler, packet) {
        (Handler::LoginSuccess, DecodedPacket::LoginServerLoginSuccess(packet)) =>
            normalize::normalize_login_success(packet),
        (Handler::LoginBanned, DecodedPacket::LoginBanned(packet)) =>
            normalize::normalize_login_banned(packet),
        (Handler::LoginFailedExtended, DecodedPacket::LoginFailed2(packet)) =>
            normalize::normalize_login_failed2(packet),
        (Handler::CharacterServerBanned, DecodedPacket::LoginBanned(packet)) =>
            normalize::normalize_character_server_banned(packet),
        (Handler::CharacterList, DecodedPacket::CharacterList(packet)) =>
            normalize::normalize_character_list(packet),
        (Handler::CharacterSelectionSuccess, DecodedPacket::CharacterSelectionSuccess(packet)) =>
            normalize::normalize_character_selection_success(packet),
        (Handler::CharacterSelectionFailed, DecodedPacket::CharacterSelectionFailed(packet)) =>
            normalize::normalize_character_selection_failed(packet),
        (Handler::MapServerUnavailable, DecodedPacket::MapServerUnavailable) =>
            normalize::normalize_map_server_unavailable(),
        (Handler::CreateCharacterSuccess, DecodedPacket::CreateCharacterSuccess(packet)) =>
            normalize::normalize_create_character_success(packet),
        (Handler::CharacterCreationFailed, DecodedPacket::CharacterCreationFailed(packet)) =>
            normalize::normalize_character_creation_failed(packet),
        (Handler::CharacterDeletionSuccess, DecodedPacket::CharacterDeletionSuccess) =>
            normalize::normalize_character_deletion_success(),
        (Handler::CharacterDeletionFailed, DecodedPacket::CharacterDeletionFailed(packet)) =>
            normalize::normalize_character_deletion_failed(packet),
        (Handler::SwitchCharacterSlot, DecodedPacket::SwitchCharacterSlotResponse(packet)) =>
            normalize::normalize_switch_character_slot(packet),
        (Handler::MapServerPing, DecodedPacket::MapServerPing) =>
            normalize::normalize_map_server_ping(),
        (Handler::MapServerLogin, DecodedPacket::MapServerLoginSuccess(packet)) =>
            normalize::normalize_map_server_login(packet),
        (Handler::ChangeMap, DecodedPacket::ChangeMap(packet)) =>
            normalize::normalize_change_map(packet),
        (Handler::RestartResponse, DecodedPacket::RestartResponse(packet)) =>
            normalize::normalize_restart_response(packet),
        (Handler::DisconnectResponse, DecodedPacket::DisconnectResponse(packet)) =>
            normalize::normalize_disconnect_response(packet),
        (Handler::UpdateHotkeys, DecodedPacket::UpdateHotkeys(packet)) =>
            normalize::normalize_update_hotkeys(packet),
        (Handler::PlayerMove, DecodedPacket::PlayerMove(packet)) =>
            normalize::normalize_player_move(packet),
        (Handler::EntityMove, DecodedPacket::EntityMove(packet)) =>
            normalize::normalize_entity_move(packet),
        (Handler::InitialStats, DecodedPacket::InitialStats(packet)) =>
            normalize::normalize_initial_stats(packet),
        (Handler::SkillTree, DecodedPacket::UpdateSkillTree(packet)) =>
            normalize::normalize_skill_tree(packet),
        (Handler::UpdateStat, DecodedPacket::UpdateStat(packet)) =>
            normalize::normalize_update_stat(packet),
        (Handler::UpdateStatSigned, DecodedPacket::UpdateStat1(packet)) =>
            normalize::normalize_update_stat1(packet),
        (Handler::UpdateStatCombined, DecodedPacket::UpdateStat2(packet)) =>
            normalize::normalize_update_stat2(packet),
        (Handler::UpdateStatWide, DecodedPacket::UpdateStat3(packet)) =>
            normalize::normalize_update_stat3(packet),
        (Handler::SpriteChange, DecodedPacket::SpriteChange(packet)) =>
            normalize::normalize_sprite_change(packet),
        (Handler::NextButton, DecodedPacket::NextButton(packet)) =>
            normalize::normalize_next_button(packet),
        (Handler::CloseButton, DecodedPacket::CloseButton(packet)) =>
            normalize::normalize_close_button(packet),
        (Handler::DialogMenu, DecodedPacket::DialogMenu(packet)) =>
            normalize::normalize_dialog_menu(packet),
        (Handler::NpcDialog, DecodedPacket::NpcDialog(packet)) =>
            normalize::normalize_npc_dialog(packet),
        (Handler::BuyOrSell, DecodedPacket::BuyOrSell(packet)) =>
            normalize::normalize_buy_or_sell(packet),
        _ => {
            let events: Vec<NetworkEvent> = Vec::new();
            proof {
                assert(events_value(events@) =~= Seq::<NetworkEventValue>::empty());
            }
            events
        },
    }
}

/// Outcome of one dispatch: either the matched handler's ordered events
/// (possibly empty), or the explicit, non-fatal mark that no handler is
/// registered for the packet's opcode in this registry.
#[derive(Debug)]
pub enum DispatchResult {
    Handled(Vec<NetworkEvent>),
    Unhandled,
}

/// The map described by a list of registry entries, later entries taking
/// precedence (a well-formed registry has no repeated opcode, so precedence
/// never decides).
pub open spec fn map_of_entries(s: Seq<(u16, Handler)>) -> Map<u16, Handler>
    decreases s.len(),
{
    if s.len() == 0 {
        Map::empty()
    } else {
        map_of_entries(s.drop_last()).insert(s.last().0, s.last().1)
    }
}

proof fn lemma_map_of_entries_domain(s: Seq<(u16, Handler)>, opcode: u16)
    ensures
        map_of_entries(s).contains_key(opcode) <==> exists|i: int|
            0 <= i < s.len() && s[i].0 == opcode,
    decreases s.len(),
{
    if s.len() > 0 {
        lemma_map_of_entries_domain(s.drop_last(), opcode);
        if s.last().0 == opcode {
            assert(s[s.len() - 1].0 == opcode);
        } else if map_of_entries(s).contains_key(opcode) {
            let i = choose|i: int| 0 <= i < s.drop_last().len() && s.drop_last()[i].0 == opcode;
            assert(s[i].0 == opcode);
        } else if exists|i: int| 0 <= i < s.len() && s[i].0 == opcode {
            let i = choose|i: int| 0 <= i < s.len() && s[i].0 == opcode;
            assert(s.drop_last()[i].0 == opcode);
        }
    }
}

proof fn lemma_map_of_entries_index(s: Seq<(u16, Handler)>, i: int)
    requires
        0 <= i < s.len(),
        forall|j: int, k: int| 0 <= j < k < s.len() ==> s[j].0 != s[k].0,
    ensures
        map_of_entries(s).contains_key(s[i].0),
        map_of_entries(s)[s[i].0] == s[i].1,
    decreases s.len(),
{
    if i == s.len() - 1 {
    } else {
        lemma_map_of_entries_index(s.drop_last(), i);
        assert(s.drop_last()[i] == s[i]);
        assert(s[i].0 != s.last().0);
    }
}

/// An opcode-keyed table of handlers for one (version, phase) pair. Built
/// once by the version profile's registration functions; read-only afterward.
pub struct PacketHandler {
    entries: Vec<(u16, Handler)>,
}

impl View for PacketHandler {
    type V = Map<u16, Handler>;

    closed spec fn view(&self) -> Map<u16, Handler> {
        map_of_entries(self.entries@)
    }
}

impl PacketHandler {
    /// Well-formed: no opcode is registered twice.
    pub closed spec fn wf(&self) -> bool {
        forall|j: int, k: int|
            0 <= j < k < self.entries@.len() ==> self.entries@[j].0 != self.entries@[k].0
    }

    /// An empty registry.
    pub fn new() -> (r: Self)
        ensures
            r.wf(),
            r@ == Map::<u16, Handler>::empty(),
    {
        PacketHandler { entries: Vec::new() }
    }

    /// Look up the handler registered for an opcode.
    fn find(&self, opcode: u16) -> (r: Option<Handler>)
        requires
            self.wf(),
        ensures
            match r {
                Some(h) => self@.contains_key(opcode) && self@[opcode] == h,
                None => !self@.contains_key(opcode),
            },
    {
        let mut i: usize = 0;
        while i < self.entries.len()
            invariant
                i <= self.entries@.len(),
                forall|j: int| 0 <= j < i ==> self.entries@[j].0 != opcode,
                self.wf(),
            decreases self.entries@.len() - i,
        {
            if self.entries[i].0 == opcode {
                proof {
                    lemma_map_of_entries_index(self.entries@, i as int);
                }
                return Some(self.entries[i].1);
            }
            i += 1;
        }
        proof {
            lemma_map_of_entries_domain(self.entries@, opcode);
        }
        None
    }

    /// Associate a handler with its canonical opcode in this registry.
    ///
    /// Registration of a second handler for an opcode already taken fails
    /// with [`DuplicateHandlerError`] and leaves the registry — and so the
    /// original registration — unchanged.
    pub fn register(&mut self, handler: Handler) -> (r: Result<(), DuplicateHandlerError>)
        requires
            old(self).wf(),
        ensures
            final(self).wf(),
            old(self)@.contains_key(spec_handler_opcode(handler)) ==> {
                &&& r is Err
                &&& final(self)@ == old(self)@
            },
            !old(self)@.contains_key(spec_handler_opcode(handler)) ==> {
                &&& r is Ok
                &&& final(self)@ == old(self)@.insert(spec_handler_opcode(handler), handler)
            },
    {
        let opcode = handler.opcode();
        match self.find(opcode) {
            Some(_) => Err(DuplicateHandlerError),
            None => {
                proof {
                    lemma_map_of_entries_domain(self.entries@, opcode);
                    assert(self.entries@.push((opcode, handler)).drop_last() =~= self.entries@);
                }
                self.entries.push((opcode, handler));
                Ok(())
            },
        }
    }

    /// Register a handler that accepts the packet of the given opcode — so it
    /// is recognized, not "unhandled" — but emits no event.
    pub fn register_noop(&mut self, opcode: u16) -> (r: Result<(), DuplicateHandlerError>)
        requires
            old(self).wf(),
        ensures
            final(self).wf(),
            old(self)@.contains_key(opcode) ==> {
                &&& r is Err
                &&& final(self)@ == old(self)@
            },
            !old(self)@.contains_key(opcode) ==> {
                &&& r is Ok
                &&& final(self)@ == old(self)@.insert(opcode, Handler::Noop { opcode })
            },
    {
        self.register(Handler::Noop { opcode })
    }

    /// Dispatch one decoded packet: look up the handler registered for the
    /// packet's opcode and return its ordered events, or the explicit
    /// "unhandled" result if the opcode has no handler in this registry.
    pub fn dispatch(&self, packet: DecodedPacket) -> (r: DispatchResult)
        requires
            self.wf(),
        ensures
            self@.contains_key(spec_packet_opcode(packet)) ==> (r matches DispatchResult::Handled(
                events,
            ) && events_value(events@) == spec_handle(self@[spec_packet_opcode(packet)], packet)),
            !self@.contains_key(spec_packet_opcode(packet)) ==> r is Unhandled,
    {
        let opcode = packet.opcode();
        match self.find(opcode) {
            Some(handler) => DispatchResult::Handled(apply_handler(handler, packet)),
            None => DispatchResult::Unhandled,
        }
    }
}

/// The registry contents after registering the handlers of `hs` in order,
/// stopping at the first duplicate (whose registration fails and leaves the
/// registry as it stood).
pub open spec fn spec_register_all(m: Map<u16, Handler>, hs: Seq<Handler>) -> Map<u16, Handler>
    decreases hs.len(),
{
    if hs.len() == 0 {
        m
    } else if m.contains_key(spec_handler_opcode(hs[0])) {
        m
    } else {
        spec_register_all(m.insert(spec_handler_opcode(hs[0]), hs[0]), hs.skip(1))
    }
}

/// Whether registering the handlers of `hs` in order meets no duplicate.
pub open spec fn spec_registers_cleanly(m: Map<u16, Handler>, hs: Seq<Handler>) -> bool
    decreases hs.len(),
{
    hs.len() == 0 || (!m.contains_key(spec_handler_opcode(hs[0]))
        && spec_registers_cleanly(m.insert(spec_handler_opcode(hs[0]), hs[0]), hs.skip(1)))
}

/// Register a list of handlers in order, stopping at the first duplicate as
/// a fail-fast construction error.
pub fn register_all(
    packet_handler: &mut PacketHandler,
    handlers: &Vec<Handler>,
) -> (r: Result<(), DuplicateHandlerError>)
    requires
        old(packet_handler).wf(),
    ensures
        final(packet_handler).wf(),
        final(packet_handler)@ == spec_register_all(old(packet_handler)@, handlers@),
        r is Ok <==> spec_registers_cleanly(old(packet_handler)@, handlers@),
{
    let ghost m0 = packet_handler@;
    let ghost hs = handlers@;
    let mut i: usize = 0;
    proof {
        assert(hs.skip(0) =~= hs);
    }
    while i < handlers.len()
        invariant
            i <= hs.len(),
            hs == handlers@,
            m0 == old(packet_handler)@,
            packet_handler.wf(),
            spec_register_all(m0, hs) == spec_register_all(packet_handler@, hs.skip(i as int)),
            spec_registers_cleanly(m0, hs) <==> spec_registers_cleanly(
                packet_handler@,
                hs.skip(i as int),
            ),
        decreases hs.len() - i,
    {
        let handler = handlers[i];
        let ghost m_before = packet_handler@;
        proof {
            assert(hs.skip(i as int)[0] == hs[i as int]);
            assert(hs.skip(i as int).skip(1) =~= hs.skip(i as int + 1));
        }
        let result = packet_handler.register(handler);
        if result.is_err() {
            proof {
                assert(m_before.contains_key(spec_handler_opcode(hs[i as int])));
                assert(spec_register_all(m_before, hs.skip(i as int)) == m_before);
                assert(!spec_registers_cleanly(m_before, hs.skip(i as int)));
            }
            return Err(DuplicateHandlerError);
        }
        proof {
            assert(!m_before.contains_key(spec_handler_opcode(hs[i as int])));
            assert(packet_handler@ == m_before.insert(
                spec_handler_opcode(hs[i as int]),
                hs[i as int],
            ));
            assert(spec_register_all(m_before, hs.skip(i as int)) == spec_register_all(
                packet_handler@,
                hs.skip(i as int + 1),
            ));
            assert(spec_registers_cleanly(m_before, hs.skip(i as int))
                <==> spec_registers_cleanly(packet_handler@, hs.skip(i as int + 1)));
        }
        i += 1;
    }
    proof {
        assert(hs.skip(hs.len() as int) =~= Seq::<Handler>::empty());
    }
    Ok(())
}

} // verus!
