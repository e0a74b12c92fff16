//! Version profile for protocol revision 20120307: the handlers registered
//! for each connection phase of this revision.
//!
//! Each function populates one phase-scoped registry. Profiles of different
//! revisions are independent and never share registry instances; this module
//! does not run unless its revision is active.

use vstd::prelude::*;

use crate::packet::OPCODE_ENTITY_STOP_MOVE;
use crate::packet::OPCODE_LOGIN_PINCODE;
use crate::packet::OPCODE_MAP_TYPE;
use crate::packet::OPCODE_PACKET_0B18;
use crate::packet::OPCODE_PACKET_8302;
use crate::registry::DuplicateHandlerError;
use crate::registry::Handler;
use crate::registry::PacketHandler;
use crate::registry::register_all;
use crate::registry::spec_register_all;
use crate::registry::spec_registers_cleanly;

verus! {

/// The login-server handlers of this revision, in registration order.
pub open spec fn login_server_handlers() -> Seq<Handler> {
    seq![Handler::LoginSuccess, Handler::LoginBanned, Handler::LoginFailedExtended]
}

/// The character-server handlers of this revision, in registration order.
pub open spec fn character_server_handlers() -> Seq<Handler> {
    seq![
        Handler::CharacterServerBanned,
        Handler::CharacterList,
        Handler::Noop { opcode: OPCODE_LOGIN_PINCODE },
        Handler::CharacterSelectionSuccess,
        Handler::CharacterSelectionFailed,
        Handler::MapServerUnavailable,
        Handler::CreateCharacterSuccess,
        Handler::CharacterCreationFailed,
        Handler::CharacterDeletionSuccess,
        Handler::CharacterDeletionFailed,
        Handler::SwitchCharacterSlot,
    ]
}

/// The map-server handlers of this revision, in registration order.
pub open spec fn map_server_handlers() -> Seq<Handler> {
    seq![
        Handler::MapServerPing,
        Handler::MapServerLogin,
        Handler::ChangeMap,
        Handler::Noop { opcode: OPCODE_MAP_TYPE },
        Handler::RestartResponse,
        Handler::DisconnectResponse,
        Handler::UpdateHotkeys,
        Handler::PlayerMove,
        Handler::EntityMove,
        Handler::Noop { opcode: OPCODE_ENTITY_STOP_MOVE },
        Handler::InitialStats,
        Handler::SkillTree,
        Handler::UpdateStat,
        Handler::UpdateStatSigned,
        Handler::UpdateStatCombined,
        Handler::UpdateStatWide,
        Handler::SpriteChange,
        Handler::NextButton,
        Handler::CloseButton,
        Handler::DialogMenu,
        Handler::NpcDialog,
        Handler::BuyOrSell,
        Handler::Noop { opcode: OPCODE_PACKET_8302 },
        Handler::Noop { opcode: OPCODE_PACKET_0B18 },
    ]
}

/// Populate a registry with this revision's login-server handlers.
pub fn register_login_server_packets(
    packet_handler: &mut PacketHandler,
) -> (r: Result<(), DuplicateHandlerError>)
    requires
        old(packet_handler).wf(),
    ensures
        final(packet_handler).wf(),
        final(packet_handler)@ == spec_register_all(
            old(packet_handler)@,
            login_server_handlers(),
        ),
        r is Ok <==> spec_registers_cleanly(old(packet_handler)@, login_server_handlers()),
{
    let mut handlers: Vec<Handler> = Vec::new();
    handlers.push(Handler::LoginSuccess);
    handlers.push(Handler::LoginBanned);
    handlers.push(Handler::LoginFailedExtended);
    proof {
        assert(handlers@ =~= login_server_handlers());
    }
    register_all(packet_handler, &handlers)
}

/// Populate a registry with this revision's character-server handlers.
pub fn register_character_server_packets(
    packet_handler: &mut PacketHandler,
) -> (r: Result<(), DuplicateHandlerError>)
    requires
        old(packet_handler).wf(),
    ensures
        final(packet_handler).wf(),
        final(packet_handler)@ == spec_register_all(
            old(packet_handler)@,
            character_server_handlers(),
        ),
        r is Ok <==> spec_registers_cleanly(old(packet_handler)@, character_server_handlers()),
{
    let mut handlers: Vec<Handler> = Vec::new();
    handlers.push(Handler::CharacterServerBanned);
    handlers.push(Handler::CharacterList);
    handlers.push(Handler::Noop { opcode: OPCODE_LOGIN_PINCODE });
    handlers.push(Handler::CharacterSelectionSuccess);
    handlers.push(Handler::CharacterSelectionFailed);
    handlers.push(Handler::MapServerUnavailable);
    handlers.push(Handler::CreateCharacterSuccess);
    handlers.push(Handler::CharacterCreationFailed);
    handlers.push(Handler::CharacterDeletionSuccess);
    handlers.push(Handler::CharacterDeletionFailed);
    handlers.push(Handler::SwitchCharacterSlot);
    proof {
        assert(handlers@ =~= character_server_handlers());
    }
    register_all(packet_handler, &handlers)
}

/// Populate a registry with this revision's map-server handlers.
pub fn register_map_server_packets(
    packet_handler: &mut PacketHandler,
) -> (r: Result<(), DuplicateHandlerError>)
    requires
        old(packet_handler).wf(),
    ensures
        final(packet_handler).wf(),
        final(packet_handler)@ == spec_register_all(old(packet_handler)@, map_server_handlers()),
        r is Ok <==> spec_registers_cleanly(old(packet_handler)@, map_server_handlers()),
{
    let mut handlers: Vec<Handler> = Vec::new();
    handlers.push(Handler::MapServerPing);
    handlers.push(Handler::MapServerLogin);
    handlers.push(Handler::ChangeMap);
    handlers.push(Handler::Noop { opcode: OPCODE_MAP_TYPE });
    handlers.push(Handler::RestartResponse);
    handlers.push(Handler::DisconnectResponse);
    handlers.push(Handler::UpdateHotkeys);
    handlers.push(Handler::PlayerMove);
    handlers.push(Handler::EntityMove);
    handlers.push(Handler::Noop { opcode: OPCODE_ENTITY_STOP_MOVE });
    handlers.push(Handler::InitialStats);
    handlers.push(Handler::SkillTree);
    handlers.push(Handler::UpdateStat);
    handlers.push(Handler::UpdateStatSigned);
    handlers.push(Handler::UpdateStatCombined);
    handlers.push(Handler::UpdateStatWide);
    handlers.push(Handler::SpriteChange);
    handlers.push(Handler::NextButton);
    handlers.push(Handler::CloseButton);
    handlers.push(Handler::DialogMenu);
    handlers.push(Handler::NpcDialog);
    handlers.push(Handler::BuyOrSell);
    handlers.push(Handler::Noop { opcode: OPCODE_PACKET_8302 });
    handlers.push(Handler::Noop { opcode: OPCODE_PACKET_0B18 });
    proof {
        assert(handlers@ =~= map_server_handlers());
    }
    register_all(packet_handler, &handlers)
}

} // verus!
