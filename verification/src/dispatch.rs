//! The dispatcher of the reliable channel: what each line of a registered
//! participant does to the session.
//!
//! The session is the registry, the record that the connection keeps of its
//! own participant, and the two shared texts: the selected map and the
//! environment.

use crate::error::RelayError;
use crate::handshake::{departed, update_players_list_and_send, Membership};
use crate::player::{Player, PlayerView};
use crate::protocol::{
    admin_grant_line, admin_notice_line, chat_line, command, command_of, environment_line,
    has_code, make_admin_notice_line, make_bare_line, make_line, map_selected_line, payload_of,
    pong_line, relayed_line, split, Command, Received, ADMIN_TOKEN, ADMN, CHAT, ENVT, MAPC, PONG,
};
use crate::registry::{has_id, sent_to_all, sent_to_one, sent_to_others, Connections, EntryView};
use crate::text::{contains, contains_text};
use vstd::prelude::*;
use vstd::string::*;

verus! {

/// The state that a line acts upon.
pub ghost struct Session {
    /// The registry.
    pub connections: Seq<EntryView>,
    /// The record that the connection keeps of its own participant.
    pub player: PlayerView,
    /// The selected map; empty where none is selected.
    pub map: Seq<char>,
    /// The environment.
    pub env: Seq<char>,
}

/// What the dispatcher reports of one read.
#[derive(Debug, Clone, Copy, PartialEq, Eq)]
pub struct Handled {
    /// Whether the participant's session goes on.
    pub online: bool,
    /// What went wrong, if anything did.
    pub failure: Option<RelayError>,
}

/// Whether `message` ends the session of its sender: it asks to leave, or
/// is too short to hold a code.
pub open spec fn ends_session(message: Seq<char>) -> bool {
    !has_code(message) || command_of(message) == Command::Quit
}

/// Whether `message` asks for an admin claim: it is a chat message whose
/// payload holds the token of the claim.
pub open spec fn claims_admin(message: Seq<char>) -> bool {
    command_of(message) == Command::Chat && contains_text(payload_of(message), ADMIN_TOKEN@)
}

/// Whether `message` is answered to its sender alone.
pub open spec fn answered_privately(message: Seq<char>) -> bool {
    ||| command_of(message) == Command::Ping
    ||| command_of(message) == Command::SelectMap
    ||| claims_admin(message)
}

/// The session after the close procedure ran for its participant.
///
/// The participant has left the registry, and those who remain were sent
/// the fresh list of participants. The map is reset where nobody remains;
/// the environment stays.
pub open spec fn closed_session(before: Session) -> Session {
    let remaining = departed(before.connections, before.player.id);
    Session {
        connections: remaining,
        player: before.player,
        map: if remaining.len() == 0 {
            Seq::empty()
        } else {
            before.map
        },
        env: before.env,
    }
}

/// The session after `message`, which does not end it, was dispatched.
///
/// | command | effect |
/// |---|---|
/// | ping | a pong to the sender |
/// | chat with the admin token | a notice to everyone else, then the grant to the sender |
/// | chat | the chat line to everyone |
/// | select map | the map is the payload; which map is selected, to the sender |
/// | vehicle update | the message as it came, to everyone else |
/// | vehicle created | the message as it came, to everyone |
/// | vehicle state | the sender's own record holds the payload as its vehicle |
/// | set environment | the environment is the payload; the environment, to everyone else |
/// | new vehicle identifier, unknown | nothing |
pub open spec fn dispatched(before: Session, message: Seq<char>) -> Session {
    let payload = payload_of(message);
    let sender = before.player.id;
    let all = before.connections;
    match command_of(message) {
        Command::Ping => Session { connections: sent_to_one(all, pong_line(), sender), ..before },
        Command::Chat => if contains_text(payload, ADMIN_TOKEN@) {
            Session {
                connections: sent_to_one(
                    sent_to_others(all, admin_notice_line(before.player.nickname), sender),
                    admin_grant_line(),
                    sender,
                ),
                ..before
            }
        } else {
            Session { connections: sent_to_all(all, chat_line(payload)), ..before }
        },
        Command::SelectMap => Session {
            connections: sent_to_one(all, map_selected_line(payload), sender),
            map: payload,
            ..before
        },
        Command::VehicleUpdate => Session {
            connections: sent_to_others(all, relayed_line(message), sender),
            ..before
        },
        Command::VehicleCreated => Session {
            connections: sent_to_all(all, relayed_line(message)),
            ..before
        },
        Command::VehicleState => Session {
            player: PlayerView { current_veh_id: payload, ..before.player },
            ..before
        },
        Command::SetEnvironment => Session {
            connections: sent_to_others(all, environment_line(payload), sender),
            env: payload,
            ..before
        },
        Command::NewVehicleId | Command::Unknown | Command::Quit => before,
    }
}

/// Whether `after` and `handled` are what the line `message` makes of the
/// session `before`.
///
/// A line that ends the session closes it, and nothing fails. Any other
/// line is dispatched, and the session goes on. A failure is reported if
/// and only if the line is answered privately and its sender is not
/// registered.
pub open spec fn line_handled(
    before: Session,
    message: Seq<char>,
    after: Session,
    handled: Handled,
) -> bool {
    if ends_session(message) {
        &&& !handled.online
        &&& handled.failure is None
        &&& after == closed_session(before)
    } else {
        &&& handled.online
        &&& handled.failure == if answered_privately(message) && !has_id(
            before.connections,
            before.player.id,
        ) {
            Some(RelayError::ParticipantNotFound)
        } else {
            None
        }
        &&& after == dispatched(before, message)
    }
}

/// Whether `after` and `handled` are what a failed read makes of the
/// session `before`: the session is closed, and the failure of the
/// transport is reported.
pub open spec fn failed_read_handled(before: Session, after: Session, handled: Handled) -> bool {
    &&& !handled.online
    &&& handled.failure == Some(RelayError::TransportError)
    &&& after == closed_session(before)
}

/// Writing to some channels leaves every identity where it was.
proof fn lemma_sending_keeps_identities(
    entries: Seq<EntryView>,
    message: Seq<char>,
    except: Seq<char>,
    id: Seq<char>,
)
    ensures
        has_id(sent_to_others(entries, message, except), id) == has_id(entries, id),
{
    if has_id(entries, id) {
        let at = choose|i: int| 0 <= i < entries.len() && (#[trigger] entries[i]).player.id == id;
        assert(sent_to_others(entries, message, except)[at].player.id == id);
    }
}

/// Runs the close procedure for `player`: takes it out of the registry,
/// sends the fresh list of participants to those who remain, and resets
/// the map where nobody remains. The environment is not reset.
pub fn on_close(connections: &mut Connections, player: &Player, map: &mut String)
    ensures
        final(connections)@ == departed(old(connections)@, player@.id),
        final(map)@ == if final(connections)@.len() == 0 {
            Seq::empty()
        } else {
            old(map)@
        },
{
    let remaining = update_players_list_and_send(player, connections, Membership::Leave);
    if remaining == 0 {
        *map = String::new();
    }
}

/// Ends the session of the participant with the identity `id`, to whose
/// channel a write has failed: the close procedure runs for it, as
/// [`on_close`] says.
pub fn on_write_failure(connections: &mut Connections, id: &str, map: &mut String)
    ensures
        final(connections)@ == departed(old(connections)@, id@),
        final(map)@ == if final(connections)@.len() == 0 {
            Seq::empty()
        } else {
            old(map)@
        },
{
    let unreachable = Player::new(
        String::new(),
        0,
        String::new(),
        String::from_str(id),
        String::new(),
    );
    on_close(connections, &unreachable, map)
}

/// Dispatches the line `msg` that `player` sent.
///
/// A line that asks to leave, or is too short to hold a code, ends the
/// session: the close procedure runs. Any other line has the effect that
/// its code selects, and the session goes on. A failure is reported where
/// an answer was owed to the sender and the sender is not registered.
pub fn handle_client_msg(
    msg: String,
    connections: &mut Connections,
    player: &mut Player,
    map: &mut String,
    env: &mut String,
) -> (handled: Handled)
    ensures
        ({
            let before = Session {
                connections: old(connections)@,
                player: old(player)@,
                map: old(map)@,
                env: old(env)@,
            };
            let after = Session {
                connections: final(connections)@,
                player: final(player)@,
                map: final(map)@,
                env: final(env)@,
            };
            line_handled(before, msg@, after, handled)
        }),
{
    let (code, payload) = match split(msg.as_str()) {
        Some(parts) => parts,
        None => {
            return close(connections, player, map);
        },
    };
    let ghost before = Session {
        connections: connections@,
        player: player@,
        map: map@,
        env: env@,
    };
    let sent = match command(msg.as_str()) {
        Command::Quit => {
            return close(connections, player, map);
        },
        Command::Ping => connections.send_private(make_bare_line(PONG), player),
        Command::Chat => {
            if contains(payload, ADMIN_TOKEN) {
                proof {
                    lemma_sending_keeps_identities(
                        connections@,
                        admin_notice_line(player@.nickname),
                        player@.id,
                        player@.id,
                    );
                }
                connections.broadcast_to_everyone_else(
                    make_admin_notice_line(player.nickname.as_str()),
                    player,
                );
                connections.send_private(make_bare_line(ADMN), player)
            } else {
                connections.broadcast(make_line(CHAT, payload));
                Ok(())
            }
        },
        Command::SelectMap => {
            *map = String::from_str(payload);
            connections.send_private(make_line(MAPC, payload), player)
        },
        Command::VehicleUpdate => {
            connections.broadcast_to_everyone_else(make_line(code, payload), player);
            Ok(())
        },
        Command::VehicleCreated => {
            connections.broadcast(make_line(code, payload));
            Ok(())
        },
        Command::VehicleState => {
            let reported = String::from_str(payload);
            if !(player.current_veh_id == reported) {
                player.current_veh_id = reported;
            }
            Ok(())
        },
        Command::SetEnvironment => {
            *env = String::from_str(payload);
            connections.broadcast_to_everyone_else(make_line(ENVT, payload), player);
            Ok(())
        },
        Command::NewVehicleId | Command::Unknown => Ok(()),
    };
    assert(connections@ == dispatched(before, msg@).connections);
    match sent {
        Ok(()) => Handled { online: true, failure: None },
        Err(e) => Handled { online: true, failure: Some(e) },
    }
}

/// Runs the close procedure and reports the end of the session.
fn close(connections: &mut Connections, player: &Player, map: &mut String) -> (handled: Handled)
    ensures
        !handled.online,
        handled.failure is None,
        final(connections)@ == departed(old(connections)@, player@.id),
        final(map)@ == if final(connections)@.len() == 0 {
            Seq::empty()
        } else {
            old(map)@
        },
{
    on_close(connections, player, map);
    Handled { online: false, failure: None }
}

/// Decides what one read on the reliable channel of `player` does.
///
/// A line is dispatched. A failed read ends the session: the close
/// procedure runs, and the failure of the transport is reported.
pub fn main_loop(
    received: Received,
    connections: &mut Connections,
    player: &mut Player,
    map: &mut String,
    env: &mut String,
) -> (handled: Handled)
    ensures
        ({
            let before = Session {
                connections: old(connections)@,
                player: old(player)@,
                map: old(map)@,
                env: old(env)@,
            };
            let after = Session {
                connections: final(connections)@,
                player: final(player)@,
                map: final(map)@,
                env: final(env)@,
            };
            match received@ {
                Some(line) => line_handled(before, line, after, handled),
                None => failed_read_handled(before, after, handled),
            }
        }),
{
    match received {
        Received::Line(line) => handle_client_msg(line, connections, player, map, env),
        Received::Failed => {
            on_close(connections, player, map);
            Handled { online: false, failure: Some(RelayError::TransportError) }
        },
    }
}

} // verus!
