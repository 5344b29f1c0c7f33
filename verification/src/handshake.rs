//! The handshake that admits a participant.
//!
//! A connection goes from greeting to awaiting identity, from there to
//! syncing the session and to being published, and ends up active or
//! rejected:
//!
//! - greeting: [`open_handshake`] turns the connection away where the
//!   registry is full, and else issues an identity and writes the greeting;
//! - awaiting identity: [`get_player`] decides for each read whether it
//!   declares the nickname, is passed over, or ends the handshake. A line
//!   that does not declare the nickname is passed over, however short it
//!   is; only the tenth such line, or the end of the connection, ends the
//!   handshake;
//! - syncing the session and publishing: [`complete_handshake`] writes the
//!   environment to the newcomer, lets it join the registry and sends the
//!   list of participants to everyone.
//!
//! The program around the engine reads the lines and moves what was written
//! to the wire. Nothing changes in the registry before the newcomer joins.

use crate::channel::{Channel, ChannelView, Endpoint, EndpointView};
use crate::error::RelayError;
use crate::listing::{encode_players, players_json};
use crate::player::{Player, PlayerView};
use crate::protocol::{
    environment_line, greeting, make_line, make_map_state_line, payload_of, players_line,
    Received, CODE_LEN, ENVT, HOLA, NO_VEHICLE, PLST, USER, VCHK, VERSION,
};
use crate::registry::{
    roster, sent_to_all, with_entry, without_id, Connections, EntryView, MAX_PLAYERS,
};
use crate::text::{begins_with, chars_of, starts_with, trim};
use vstd::prelude::*;
use vstd::string::*;

verus! {

/// The number of lines that a client may send without declaring its
/// identity.
pub const MAX_IDENTITY_ATTEMPTS: u8 = 10;

/// The number of characters of an identity.
pub const IDENTITY_LEN: usize = 36;

/// A fresh identity: a random UUID of version 4, by `uuid::Uuid::new_v4`, in
/// the hyphenated lower-case form that `uuid` prints.
///
/// Not proved: that this form has 36 characters. Nothing is said of which
/// identity comes back: two calls differ. The call panics where the
/// operating system has no random numbers to give.
#[verifier::external_body]
fn fresh_identity() -> (id: String)
    ensures
        id@.len() == IDENTITY_LEN,
{
    uuid::Uuid::new_v4().to_string()
}

/// Writes the three lines of the greeting to `writer`: the identity, the
/// state of the map, the protocol version.
pub fn greet(writer: &mut Channel, id: &str, map: &str)
    ensures
        final(writer)@ == (ChannelView {
            endpoint: old(writer)@.endpoint,
            pending: old(writer)@.pending + greeting(id@, map@),
        }),
{
    writer.write(make_line(HOLA, id));
    writer.write(make_map_state_line(map));
    writer.write(make_line(VCHK, VERSION));
    assert(final(writer)@.pending =~= old(writer)@.pending + greeting(id@, map@));
}

/// Opens the handshake of a connection that has just arrived.
///
/// Where the registry is full the connection is refused: no identity is
/// issued and nothing is written. Else a fresh identity is issued and
/// returned, and the greeting is written to `writer`.
pub fn open_handshake(connections: &Connections, writer: &mut Channel, map: &str) -> (opened:
    Result<String, RelayError>)
    ensures
        connections@.len() >= MAX_PLAYERS ==> opened == Err::<String, RelayError>(
            RelayError::AdmissionRejected,
        ) && final(writer)@ == old(writer)@,
        connections@.len() < MAX_PLAYERS ==> opened is Ok && opened->Ok_0@.len() == IDENTITY_LEN
            && final(writer)@ == (ChannelView {
            endpoint: old(writer)@.endpoint,
            pending: old(writer)@.pending + greeting(opened->Ok_0@, map@),
        }),
{
    if connections.is_full() {
        return Err(RelayError::AdmissionRejected);
    }
    let id = fresh_identity();
    greet(writer, id.as_str(), map);
    Ok(id)
}

/// Whether `line` declares an identity: it begins with the code for that.
pub open spec fn declares_identity(line: Seq<char>) -> bool {
    starts_with(line, USER@)
}

/// The record of the participant that `line` declares, on a connection of
/// the endpoint `endpoint` to which the identity `id` was issued. The
/// endpoint is that of the connection: the client is not asked for it.
pub open spec fn declared_player(line: Seq<char>, id: Seq<char>, endpoint: EndpointView)
    -> PlayerView {
    PlayerView {
        remote_address: endpoint.address,
        remote_port: endpoint.port,
        nickname: payload_of(line),
        id,
        current_veh_id: NO_VEHICLE@,
    }
}

/// What one read means for a connection that has not declared its identity
/// yet.
#[derive(Debug)]
pub enum IdentityStep {
    /// The line declared the identity: here is the participant's record.
    Declared(Player),
    /// The line declared nothing and is passed over. The number of such
    /// lines so far comes with it.
    Skipped(u8),
    /// The handshake has failed.
    Failed(RelayError),
}

/// What an [`IdentityStep`] holds.
pub ghost enum IdentityStepView {
    Declared(PlayerView),
    Skipped(u8),
    Failed(RelayError),
}

impl View for IdentityStep {
    type V = IdentityStepView;

    open spec fn view(&self) -> IdentityStepView {
        match self {
            IdentityStep::Declared(player) => IdentityStepView::Declared(player@),
            IdentityStep::Skipped(attempts) => IdentityStepView::Skipped(*attempts),
            IdentityStep::Failed(e) => IdentityStepView::Failed(*e),
        }
    }
}

/// What the read `received` means after `attempts` lines that declared
/// nothing.
///
/// A failed read, or the empty line that stands for the end of the stream,
/// is the end of the connection. A line that declares the identity gives
/// the record. Any other line, however short, is passed over, unless it is
/// the tenth such line: the client has then run out of attempts.
pub open spec fn identity_step(
    received: Option<Seq<char>>,
    attempts: u8,
    id: Seq<char>,
    endpoint: EndpointView,
) -> IdentityStepView {
    match received {
        None => IdentityStepView::Failed(RelayError::Disconnected),
        Some(line) => if line.len() == 0 {
            IdentityStepView::Failed(RelayError::Disconnected)
        } else if declares_identity(line) {
            IdentityStepView::Declared(declared_player(line, id, endpoint))
        } else if attempts + 1 >= MAX_IDENTITY_ATTEMPTS {
            IdentityStepView::Failed(RelayError::HandshakeTimeout)
        } else {
            IdentityStepView::Skipped((attempts + 1) as u8)
        },
    }
}

/// Decides what the read `received` means for a connection that was issued
/// the identity `id`, has the endpoint `endpoint` and has sent `attempts`
/// lines that declared nothing.
pub fn get_player(received: &Received, attempts: u8, id: &str, endpoint: &Endpoint) -> (step:
    IdentityStep)
    ensures
        step@ == identity_step(received@, attempts, id@, endpoint@),
{
    match received {
        Received::Failed => IdentityStep::Failed(RelayError::Disconnected),
        Received::Line(line) => {
            let chars = chars_of(line.as_str());
            if chars.len() == 0 {
                IdentityStep::Failed(RelayError::Disconnected)
            } else if begins_with(&chars, USER) {
                proof {
                    reveal_strlit("USER");
                }
                let nickname = trim(line.as_str().substring_char(CODE_LEN, chars.len()));
                IdentityStep::Declared(
                    Player::new(
                        endpoint.address.clone(),
                        endpoint.port,
                        String::from_str(nickname),
                        String::from_str(id),
                        String::from_str(NO_VEHICLE),
                    ),
                )
            } else if attempts >= MAX_IDENTITY_ATTEMPTS - 1 {
                IdentityStep::Failed(RelayError::HandshakeTimeout)
            } else {
                IdentityStep::Skipped(attempts + 1)
            }
        },
    }
}

/// Where a connection stands after the reads `reads`, having sent
/// `attempts` lines that declared nothing before them: the first step that
/// is not a passing over, or nothing where every read was passed over.
pub open spec fn identity_run(
    reads: Seq<Option<Seq<char>>>,
    attempts: u8,
    id: Seq<char>,
    endpoint: EndpointView,
) -> Option<IdentityStepView>
    decreases reads.len(),
{
    if reads.len() == 0 {
        None
    } else {
        match identity_step(reads[0], attempts, id, endpoint) {
            IdentityStepView::Skipped(next) => identity_run(reads.drop_first(), next, id, endpoint),
            decided => Some(decided),
        }
    }
}

/// Whether the read `received` is a line that declares an identity.
pub open spec fn read_declares_identity(received: Option<Seq<char>>) -> bool {
    received matches Some(line) && declares_identity(line)
}

/// A client that does not declare its identity in the reads it has left is
/// turned away: with `attempts` lines passed over already, and none of the
/// next `10 - attempts` reads declaring an identity, the handshake has
/// failed by the end of them, and no record was made.
pub proof fn lemma_silent_client_is_turned_away(
    reads: Seq<Option<Seq<char>>>,
    attempts: u8,
    id: Seq<char>,
    endpoint: EndpointView,
)
    requires
        attempts < MAX_IDENTITY_ATTEMPTS,
        reads.len() >= MAX_IDENTITY_ATTEMPTS - attempts,
        forall|i: int|
            0 <= i < MAX_IDENTITY_ATTEMPTS - attempts ==> !read_declares_identity(#[trigger] reads[i]),
    ensures
        identity_run(reads, attempts, id, endpoint) matches Some(IdentityStepView::Failed(_)),
    decreases reads.len(),
{
    if let IdentityStepView::Skipped(next) = identity_step(reads[0], attempts, id, endpoint) {
        lemma_silent_client_is_turned_away(reads.drop_first(), next, id, endpoint);
    }
}

/// The reads of a client that sends the lines `noise` and then `line`.
pub open spec fn lines_then(noise: Seq<Seq<char>>, line: Seq<char>) -> Seq<Option<Seq<char>>> {
    Seq::new(
        noise.len() + 1,
        |i: int|
            if i < noise.len() {
                Some(noise[i])
            } else {
                Some(line)
            },
    )
}

/// Lines that declare nothing are passed over and end nothing by
/// themselves: a client that sends fewer than ten of them in all, none of
/// them empty, and then declares its identity, is given its record.
pub proof fn lemma_identity_is_accepted_after_other_lines(
    noise: Seq<Seq<char>>,
    line: Seq<char>,
    attempts: u8,
    id: Seq<char>,
    endpoint: EndpointView,
)
    requires
        attempts + noise.len() < MAX_IDENTITY_ATTEMPTS,
        forall|i: int|
            0 <= i < noise.len() ==> (#[trigger] noise[i]).len() > 0 && !declares_identity(
                noise[i],
            ),
        declares_identity(line),
    ensures
        identity_run(lines_then(noise, line), attempts, id, endpoint) == Some(
            IdentityStepView::Declared(declared_player(line, id, endpoint)),
        ),
    decreases noise.len(),
{
    reveal_strlit("USER");
    let reads = lines_then(noise, line);
    if noise.len() > 0 {
        assert(reads.drop_first() =~= lines_then(noise.drop_first(), line));
        lemma_identity_is_accepted_after_other_lines(
            noise.drop_first(),
            line,
            (attempts + 1) as u8,
            id,
            endpoint,
        );
    }
}

/// Writes the environment to `writer`.
pub fn sync_env(writer: &mut Channel, env: &str)
    ensures
        final(writer)@ == (ChannelView {
            endpoint: old(writer)@.endpoint,
            pending: old(writer)@.pending.push(environment_line(env@)),
        }),
{
    writer.write(make_line(ENVT, env));
}

/// A change of who is registered.
#[derive(Debug)]
pub enum Membership {
    /// The participant joins, with this channel.
    Join(Channel),
    /// The participant leaves.
    Leave,
}

/// `entries` after the list of its participants was sent to each of them.
pub open spec fn announced(entries: Seq<EntryView>) -> Seq<EntryView> {
    sent_to_all(entries, players_line(players_json(roster(entries))))
}

/// The registry `entries` after the participant `player` joined or left.
pub open spec fn membership_changed(
    entries: Seq<EntryView>,
    player: PlayerView,
    change: Membership,
) -> Seq<EntryView> {
    match change {
        Membership::Join(writer) => with_entry(entries, EntryView { player, channel: writer@ }),
        Membership::Leave => without_id(entries, player.id),
    }
}

/// Lets `player` join or leave the registry, and sends the fresh list of
/// participants to everyone who is registered after that.
///
/// Returns the number of participants after the change.
pub fn update_players_list_and_send(
    player: &Player,
    connections: &mut Connections,
    change: Membership,
) -> (count: usize)
    ensures
        final(connections)@ == announced(membership_changed(old(connections)@, player@, change)),
        count == final(connections)@.len(),
{
    match change {
        Membership::Join(writer) => connections.add_player(Player::copy(player), writer),
        Membership::Leave => connections.remove_player(player),
    }
    let list = connections.get_list_of_players();
    assert(Seq::new(list@.len(), |i: int| list@[i]@) =~= roster(connections@));
    let json = encode_players(&list);
    connections.broadcast(make_line(PLST, json.as_str()));
    connections.len()
}

/// The entry with which `player` joins: its record, and its channel `writer`
/// after the environment `env` was written to it.
pub open spec fn joining_entry(player: PlayerView, writer: ChannelView, env: Seq<char>)
    -> EntryView {
    EntryView {
        player,
        channel: ChannelView {
            endpoint: writer.endpoint,
            pending: writer.pending.push(environment_line(env)),
        },
    }
}

/// The registry after the handshake of `entry` was completed. Nothing has
/// changed where the registry was full. Else `entry` is in, and everyone in
/// the registry, the newcomer included, was sent the fresh list of
/// participants.
pub open spec fn admitted(entries: Seq<EntryView>, entry: EntryView) -> Seq<EntryView> {
    if entries.len() >= MAX_PLAYERS {
        entries
    } else {
        announced(with_entry(entries, entry))
    }
}

/// The registry after the participant with the identity `id` has left:
/// its entry is out, and those who remain were sent the fresh list of
/// participants.
pub open spec fn departed(entries: Seq<EntryView>, id: Seq<char>) -> Seq<EntryView> {
    announced(without_id(entries, id))
}

/// Completes the handshake of `player`, who has declared its identity.
///
/// Where the registry is full by now, the participant is turned away and
/// nothing changes. Else the environment is written to `writer`, the
/// participant joins the registry with it, and everyone, the newcomer
/// included, is sent the fresh list of participants.
pub fn complete_handshake(
    player: &Player,
    writer: Channel,
    connections: &mut Connections,
    env: &str,
) -> (joined: Result<(), RelayError>)
    ensures
        joined == if old(connections)@.len() >= MAX_PLAYERS {
            Err::<(), RelayError>(RelayError::AdmissionRejected)
        } else {
            Ok::<(), RelayError>(())
        },
        final(connections)@ == admitted(old(connections)@, joining_entry(player@, writer@, env@)),
{
    if connections.is_full() {
        return Err(RelayError::AdmissionRejected);
    }
    let mut writer = writer;
    sync_env(&mut writer, env);
    let _ = update_players_list_and_send(player, connections, Membership::Join(writer));
    Ok(())
}

/// A participant is admitted, or one leaves.
pub ghost enum RosterEvent {
    /// The handshake of this entry was completed.
    Admitted { entry: EntryView },
    /// The close procedure ran for this identity.
    Departed { id: Seq<char> },
}

/// The registry after `event`.
pub open spec fn after_event(entries: Seq<EntryView>, event: RosterEvent) -> Seq<EntryView> {
    match event {
        RosterEvent::Admitted { entry } => admitted(entries, entry),
        RosterEvent::Departed { id } => departed(entries, id),
    }
}

/// The registry after `events`, one after the other.
pub open spec fn after_events(entries: Seq<EntryView>, events: Seq<RosterEvent>) -> Seq<EntryView>
    decreases events.len(),
{
    if events.len() == 0 {
        entries
    } else {
        after_events(after_event(entries, events.first()), events.drop_first())
    }
}

/// The registry never holds more participants than may be connected at one
/// time: if it does not before, it does not after any sequence of
/// admissions and departures.
pub proof fn lemma_capacity_is_never_exceeded(entries: Seq<EntryView>, events: Seq<RosterEvent>)
    requires
        entries.len() <= MAX_PLAYERS,
    ensures
        after_events(entries, events).len() <= MAX_PLAYERS,
    decreases events.len(),
{
    if events.len() > 0 {
        lemma_capacity_is_never_exceeded(after_event(entries, events.first()), events.drop_first());
    }
}

} // verus!
