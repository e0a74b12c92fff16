//! Library-wide laws: properties of registration, dispatch and normalization
//! that hold for all inputs, proved from the public contracts and the
//! specification functions alone.

use vstd::prelude::*;

use crate::event::NetworkEventValue;
use crate::normalize::character_list_events;
use crate::normalize::player_move_events;
use crate::normalize::spec_login_banned_message;
use crate::normalize::spec_login_failed2_message;
use crate::normalize::spec_unified_login_reason;
use crate::normalize::spec_unified_login_reason2;
use crate::normalize::sprite_change_events;
use crate::packet::CharacterInformation;
use crate::packet::CharacterListPacket;
use crate::packet::DecodedPacket;
use crate::packet::LoginFailedReason;
use crate::packet::LoginFailedReason2;
use crate::packet::PlayerMovePacket;
use crate::packet::SpriteChangePacket;
use crate::packet::SpriteChangeType;
use crate::packet::WorldPosition;
use crate::registry::Handler;
use crate::registry::spec_handle;
use crate::registry::spec_handler_opcode;
use crate::registry::spec_register_all;
use crate::registry::spec_registers_cleanly;
use crate::version_20120307::character_server_handlers;
use crate::version_20120307::login_server_handlers;
use crate::version_20120307::map_server_handlers;

verus! {

/// Registration never disturbs what is already registered: every binding of
/// the registry before a registration run is still present, unchanged, after
/// it.
pub proof fn lemma_register_all_preserves(m: Map<u16, Handler>, hs: Seq<Handler>, opcode: u16)
    requires
        m.contains_key(opcode),
    ensures
        spec_register_all(m, hs).contains_key(opcode),
        spec_register_all(m, hs)[opcode] == m[opcode],
    decreases hs.len(),
{
    if hs.len() == 0 {
    } else if m.contains_key(spec_handler_opcode(hs[0])) {
    } else {
        lemma_register_all_preserves(
            m.insert(spec_handler_opcode(hs[0]), hs[0]),
            hs.skip(1),
            opcode,
        );
    }
}

/// After a registration run that met no duplicate, every handler of the run
/// is registered under its own opcode, and the opcode is routed to exactly
/// that handler: dispatching a packet of a registered opcode therefore never
/// returns "unhandled", and reaches exactly one handler.
pub proof fn lemma_clean_registration_registers_all(m: Map<u16, Handler>, hs: Seq<Handler>)
    requires
        spec_registers_cleanly(m, hs),
    ensures
        forall|i: int| 0 <= i < hs.len() ==> {
            &&& spec_register_all(m, hs).contains_key(spec_handler_opcode(#[trigger] hs[i]))
            &&& spec_register_all(m, hs)[spec_handler_opcode(hs[i])] == hs[i]
        },
    decreases hs.len(),
{
    if hs.len() > 0 {
        let m1 = m.insert(spec_handler_opcode(hs[0]), hs[0]);
        lemma_clean_registration_registers_all(m1, hs.skip(1));
        lemma_register_all_preserves(m1, hs.skip(1), spec_handler_opcode(hs[0]));
        assert forall|i: int| 0 <= i < hs.len() implies {
            &&& spec_register_all(m, hs).contains_key(spec_handler_opcode(#[trigger] hs[i]))
            &&& spec_register_all(m, hs)[spec_handler_opcode(hs[i])] == hs[i]
        } by {
            if i > 0 {
                assert(hs.skip(1)[i - 1] == hs[i]);
            }
        }
    }
}

/// A registration run over handlers with pairwise-distinct opcodes, none of
/// them taken yet, meets no duplicate.
pub proof fn lemma_distinct_opcodes_register_cleanly(m: Map<u16, Handler>, hs: Seq<Handler>)
    requires
        forall|i: int, j: int|
            0 <= i < j < hs.len() ==> spec_handler_opcode(hs[i]) != spec_handler_opcode(hs[j]),
        forall|i: int| 0 <= i < hs.len() ==> !m.contains_key(
            spec_handler_opcode(#[trigger] hs[i]),
        ),
    ensures
        spec_registers_cleanly(m, hs),
    decreases hs.len(),
{
    if hs.len() > 0 {
        let m1 = m.insert(spec_handler_opcode(hs[0]), hs[0]);
        assert forall|i: int| 0 <= i < hs.skip(1).len() implies !m1.contains_key(
            spec_handler_opcode(#[trigger] hs.skip(1)[i]),
        ) by {
            assert(hs.skip(1)[i] == hs[i + 1]);
            assert(spec_handler_opcode(hs[0]) != spec_handler_opcode(hs[i + 1]));
        }
        assert forall|i: int, j: int| 0 <= i < j < hs.skip(1).len() implies spec_handler_opcode(
            hs.skip(1)[i],
        ) != spec_handler_opcode(hs.skip(1)[j]) by {
            assert(hs.skip(1)[i] == hs[i + 1]);
            assert(hs.skip(1)[j] == hs[j + 1]);
        }
        lemma_distinct_opcodes_register_cleanly(m1, hs.skip(1));
    }
}

/// Building any of the shipped revision's three registries from an empty
/// registry meets no duplicate: registration failure is a construction-time
/// programming error that cannot occur with these profiles.
pub proof fn lemma_profiles_register_cleanly()
    ensures
        spec_registers_cleanly(Map::<u16, Handler>::empty(), login_server_handlers()),
        spec_registers_cleanly(Map::<u16, Handler>::empty(), character_server_handlers()),
        spec_registers_cleanly(Map::<u16, Handler>::empty(), map_server_handlers()),
{
    lemma_distinct_opcodes_register_cleanly(
        Map::<u16, Handler>::empty(),
        login_server_handlers(),
    );
    lemma_distinct_opcodes_register_cleanly(
        Map::<u16, Handler>::empty(),
        character_server_handlers(),
    );
    lemma_distinct_opcodes_register_cleanly(Map::<u16, Handler>::empty(), map_server_handlers());
}

/// A no-op-registered opcode consumes its packet and emits no event at all,
/// whatever the packet.
pub proof fn lemma_noop_emits_no_events(opcode: u16, packet: DecodedPacket)
    ensures
        spec_handle(Handler::Noop { opcode }, packet) == Seq::<NetworkEventValue>::empty(),
{
}

/// A character-list packet with any number of records expands into exactly
/// two events, in fixed order: first the character-server-connected event
/// carrying the normal slot count, then the character list carrying the
/// records in their original order.
pub proof fn lemma_character_list_expansion(p: CharacterListPacket)
    ensures
        character_list_events(p).len() == 2,
        character_list_events(p)[0] == (NetworkEventValue::CharacterServerConnected {
            normal_slot_count: p.maximum_slot_count as usize,
        }),
        character_list_events(p)[1] == (NetworkEventValue::CharacterList {
            characters: p.character_information@.map_values(|c: CharacterInformation| c@),
        }),
{
}

/// The two raw login-failure code families map injectively into the unified
/// reason vocabulary, their images are disjoint, and every raw code's fixed
/// message is non-empty. Hence no two raw codes collapse to the same
/// (reason, message) pair.
pub proof fn lemma_login_reason_tables_injective()
    ensures
        forall|a: LoginFailedReason, b: LoginFailedReason|
            spec_unified_login_reason(a) == spec_unified_login_reason(b) ==> a == b,
        forall|a: LoginFailedReason2, b: LoginFailedReason2|
            spec_unified_login_reason2(a) == spec_unified_login_reason2(b) ==> a == b,
        forall|a: LoginFailedReason, b: LoginFailedReason2|
            spec_unified_login_reason(a) != spec_unified_login_reason2(b),
        forall|a: LoginFailedReason| spec_login_banned_message(a).len() > 0,
        forall|b: LoginFailedReason2| spec_login_failed2_message(b).len() > 0,
{
    reveal_strlit("Server closed");
    reveal_strlit("Someone has already logged in with this id");
    reveal_strlit("Already online");
    reveal_strlit("Unregistered id");
    reveal_strlit("Incorrect password");
    reveal_strlit("Id has expired");
    reveal_strlit("Rejected from server");
    reveal_strlit("Blocked by gm team");
    reveal_strlit("Game outdated");
    reveal_strlit("Login prohibited until");
    reveal_strlit("Server is full");
    reveal_strlit("Company account limit reached");
}

/// A sprite change produces exactly one job-change event for the "base"
/// discriminant, exactly one hair-change event for the "hair" discriminant,
/// and no event for every other discriminant.
pub proof fn lemma_sprite_change_filter(p: SpriteChangePacket)
    ensures
        p.sprite_type == SpriteChangeType::Base ==> sprite_change_events(p) == seq![
            NetworkEventValue::ChangeJob { account_id: p.account_id, job_id: p.value },
        ],
        p.sprite_type == SpriteChangeType::Hair ==> sprite_change_events(p) == seq![
            NetworkEventValue::ChangeHair { account_id: p.account_id, hair_id: p.value },
        ],
        p.sprite_type != SpriteChangeType::Base && p.sprite_type != SpriteChangeType::Hair
            ==> sprite_change_events(p).len() == 0,
{
}

/// A movement packet's combined origin/destination representation decomposes
/// into separate origin and destination coordinates, and its start timestamp
/// passes through unchanged.
pub proof fn lemma_movement_decomposition(p: PlayerMovePacket)
    ensures
        player_move_events(p).len() == 1,
        player_move_events(p)[0] == (NetworkEventValue::PlayerMove {
            origin: WorldPosition { x: p.from_to.origin_x, y: p.from_to.origin_y },
            destination: WorldPosition {
                x: p.from_to.destination_x,
                y: p.from_to.destination_y,
            },
            starting_timestamp: p.starting_timestamp,
        }),
{
}

} // verus!
