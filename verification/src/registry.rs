//! The connection registry: who is online, and the channel of each.
//!
//! The registry is a list of entries in the order in which the participants
//! were admitted. No two entries hold the same identity.

use crate::channel::{texts, Channel, ChannelView, Endpoint};
use crate::error::RelayError;
use crate::player::{Player, PlayerView};
use vstd::prelude::*;

verus! {

/// The number of participants that may be connected at one time.
pub const MAX_PLAYERS: usize = 8;

/// One entry of the registry: a participant and the write side of that
/// participant's reliable channel.
pub ghost struct EntryView {
    pub player: PlayerView,
    pub channel: ChannelView,
}

/// Whether no two entries of `entries` hold the same identity.
pub open spec fn distinct_ids(entries: Seq<EntryView>) -> bool {
    forall|i: int, j: int|
        0 <= i < j < entries.len() ==> (#[trigger] entries[i]).player.id != (
        #[trigger] entries[j]).player.id
}

/// Whether an entry of `entries` holds the identity `id`.
pub open spec fn has_id(entries: Seq<EntryView>, id: Seq<char>) -> bool {
    exists|i: int| 0 <= i < entries.len() && (#[trigger] entries[i]).player.id == id
}

/// The place of an entry that holds the identity `id`.
pub open spec fn position(entries: Seq<EntryView>, id: Seq<char>) -> int {
    choose|i: int| 0 <= i < entries.len() && (#[trigger] entries[i]).player.id == id
}

/// The records of the participants, in the order of the entries.
pub open spec fn roster(entries: Seq<EntryView>) -> Seq<PlayerView> {
    Seq::new(entries.len(), |i: int| entries[i].player)
}

/// `entry` after `message` was written to its channel.
pub open spec fn delivered(entry: EntryView, message: Seq<char>) -> EntryView {
    EntryView {
        player: entry.player,
        channel: ChannelView {
            endpoint: entry.channel.endpoint,
            pending: entry.channel.pending.push(message),
        },
    }
}

/// `entries` after `message` was written to every channel.
pub open spec fn sent_to_all(entries: Seq<EntryView>, message: Seq<char>) -> Seq<EntryView> {
    Seq::new(entries.len(), |i: int| delivered(entries[i], message))
}

/// `entries` after `message` was written to every channel but that of the
/// identity `except`.
pub open spec fn sent_to_others(
    entries: Seq<EntryView>,
    message: Seq<char>,
    except: Seq<char>,
) -> Seq<EntryView> {
    Seq::new(
        entries.len(),
        |i: int|
            if entries[i].player.id == except {
                entries[i]
            } else {
                delivered(entries[i], message)
            },
    )
}

/// `entries` after `message` was written to the channel of the identity
/// `to`, and to no other.
pub open spec fn sent_to_one(
    entries: Seq<EntryView>,
    message: Seq<char>,
    to: Seq<char>,
) -> Seq<EntryView> {
    Seq::new(
        entries.len(),
        |i: int|
            if entries[i].player.id == to {
                delivered(entries[i], message)
            } else {
                entries[i]
            },
    )
}

/// `entries` after `entry` was put in: in the place of the entry with the
/// same identity where there is one, at the end where there is none.
pub open spec fn with_entry(entries: Seq<EntryView>, entry: EntryView) -> Seq<EntryView> {
    if has_id(entries, entry.player.id) {
        entries.update(position(entries, entry.player.id), entry)
    } else {
        entries.push(entry)
    }
}

/// `entries` without the entry of the identity `id`.
pub open spec fn without_id(entries: Seq<EntryView>, id: Seq<char>) -> Seq<EntryView> {
    if has_id(entries, id) {
        entries.remove(position(entries, id))
    } else {
        entries
    }
}

/// `entries` after the pending messages of every channel were taken out.
pub open spec fn flushed(entries: Seq<EntryView>) -> Seq<EntryView> {
    Seq::new(
        entries.len(),
        |i: int|
            EntryView {
                player: entries[i].player,
                channel: ChannelView {
                    endpoint: entries[i].channel.endpoint,
                    pending: Seq::empty(),
                },
            },
    )
}

/// A message for everyone reaches every registered participant, and the
/// registry holds nobody else after it: the entries are as many as before,
/// each with the record and the endpoint it had, and with `message` as the
/// newest of its pending messages.
pub proof fn lemma_broadcast_reaches_everyone(entries: Seq<EntryView>, message: Seq<char>)
    ensures
        sent_to_all(entries, message).len() == entries.len(),
        forall|at: int|
            0 <= at < entries.len() ==> {
                let after = #[trigger] sent_to_all(entries, message)[at];
                &&& after.player == entries[at].player
                &&& after.channel.endpoint == entries[at].channel.endpoint
                &&& after.channel.pending == entries[at].channel.pending.push(message)
            },
{
}

/// A message for everyone else reaches every registered participant but
/// the one with the identity `except`, whose channel is left as it was.
pub proof fn lemma_broadcast_spares_the_sender(
    entries: Seq<EntryView>,
    message: Seq<char>,
    except: Seq<char>,
)
    ensures
        sent_to_others(entries, message, except).len() == entries.len(),
        forall|at: int|
            0 <= at < entries.len() ==> {
                let after = #[trigger] sent_to_others(entries, message, except)[at];
                &&& after.player == entries[at].player
                &&& after.channel.endpoint == entries[at].channel.endpoint
                &&& after.channel.pending == if entries[at].player.id == except {
                    entries[at].channel.pending
                } else {
                    entries[at].channel.pending.push(message)
                }
            },
{
}

/// A private message reaches the participant with the identity `to` and
/// nobody else.
pub proof fn lemma_private_reaches_one(entries: Seq<EntryView>, message: Seq<char>, to: Seq<char>)
    ensures
        sent_to_one(entries, message, to).len() == entries.len(),
        forall|at: int|
            0 <= at < entries.len() ==> {
                let after = #[trigger] sent_to_one(entries, message, to)[at];
                &&& after.player == entries[at].player
                &&& after.channel.endpoint == entries[at].channel.endpoint
                &&& after.channel.pending == if entries[at].player.id == to {
                    entries[at].channel.pending.push(message)
                } else {
                    entries[at].channel.pending
                }
            },
{
}

/// A participant that was put in is listed exactly once: among distinct
/// identities, the registry after `entry` was put in holds the record of
/// `entry` at one place, and the identity of `entry` at no other. The
/// identities are still distinct.
pub proof fn lemma_added_is_listed_once(entries: Seq<EntryView>, entry: EntryView)
    requires
        distinct_ids(entries),
    ensures
        distinct_ids(with_entry(entries, entry)),
        exists|at: int|
            0 <= at < with_entry(entries, entry).len() && #[trigger] roster(
                with_entry(entries, entry),
            )[at] == entry.player && forall|other: int|
                0 <= other < with_entry(entries, entry).len() && (#[trigger] roster(
                    with_entry(entries, entry),
                )[other]).id == entry.player.id ==> other == at,
{
    let id = entry.player.id;
    let after = with_entry(entries, entry);
    let at = if has_id(entries, id) {
        position(entries, id)
    } else {
        entries.len() as int
    };
    assert(roster(after)[at] == entry.player);
}

/// A participant that was taken out is neither registered nor listed: among
/// distinct identities, the registry without the identity `id` holds `id`
/// nowhere. The identities are still distinct.
pub proof fn lemma_removed_is_gone(entries: Seq<EntryView>, id: Seq<char>)
    requires
        distinct_ids(entries),
    ensures
        distinct_ids(without_id(entries, id)),
        !has_id(without_id(entries, id), id),
        forall|at: int|
            0 <= at < without_id(entries, id).len() ==> (#[trigger] roster(
                without_id(entries, id),
            )[at]).id != id,
{
}

/// Taking a participant out a second time changes nothing.
pub proof fn lemma_removing_twice_is_removing_once(entries: Seq<EntryView>, id: Seq<char>)
    requires
        distinct_ids(entries),
    ensures
        without_id(without_id(entries, id), id) == without_id(entries, id),
{
    lemma_removed_is_gone(entries, id);
}

/// The messages taken from one participant's channel, to be sent to it.
#[derive(Debug)]
pub struct Outgoing {
    /// The identity of the participant.
    pub to: String,
    /// The messages, oldest first.
    pub messages: Vec<String>,
}

struct Entry {
    player: Player,
    channel: Channel,
}

impl View for Entry {
    type V = EntryView;

    closed spec fn view(&self) -> EntryView {
        EntryView { player: self.player@, channel: self.channel@ }
    }
}

spec fn views(entries: Seq<Entry>) -> Seq<EntryView> {
    Seq::new(entries.len(), |i: int| entries[i]@)
}

/// The place of the first entry with the identity of `player`, if there is
/// one.
fn find(entries: &Vec<Entry>, player: &Player) -> (found: Option<usize>)
    ensures
        match found {
            Some(at) => at < entries@.len() && views(entries@)[at as int].player.id == player@.id,
            None => !has_id(views(entries@), player@.id),
        },
{
    let n = entries.len();
    let mut i: usize = 0;
    while i < n
        invariant
            i <= n,
            n == entries@.len(),
            forall|k: int| 0 <= k < i ==> (#[trigger] views(entries@)[k]).player.id != player@.id,
        decreases n - i,
    {
        if Player::eq(&entries[i].player, player) {
            return Some(i);
        }
        i += 1;
    }
    None
}

/// The registry of connected participants.
pub struct Connections {
    entries: Vec<Entry>,
}

impl View for Connections {
    type V = Seq<EntryView>;

    closed spec fn view(&self) -> Seq<EntryView> {
        views(self.entries@)
    }
}

impl Connections {
    #[verifier::type_invariant]
    spec fn identities_are_distinct(self) -> bool {
        distinct_ids(views(self.entries@))
    }

    /// The empty registry.
    pub fn new() -> (connections: Connections)
        ensures
            connections@ == Seq::<EntryView>::empty(),
            distinct_ids(connections@),
    {
        Connections { entries: Vec::new() }
    }

    /// Writes `msg` to the channel of every registered participant.
    pub fn broadcast(&mut self, msg: String)
        ensures
            final(self)@ == sent_to_all(old(self)@, msg@),
            distinct_ids(final(self)@),
    {
        proof {
            use_type_invariant(&*self);
        }
        let mut entries: Vec<Entry> = Vec::new();
        core::mem::swap(&mut self.entries, &mut entries);
        let ghost before = views(entries@);
        let n = entries.len();
        let mut i: usize = 0;
        while i < n
            invariant
                i <= n,
                n == entries@.len(),
                before.len() == n,
                forall|k: int|
                    0 <= k < i ==> #[trigger] views(entries@)[k] == delivered(before[k], msg@),
                forall|k: int| i <= k < n ==> #[trigger] views(entries@)[k] == before[k],
            decreases n - i,
        {
            let ghost earlier = views(entries@);
            assert(earlier[i as int] == before[i as int]);
            entries[i].channel.write(msg.clone());
            assert forall|k: int| 0 <= k < n && k != i implies #[trigger] views(entries@)[k]
                == earlier[k] by {}
            i += 1;
        }
        self.entries = entries;
    }

    /// Writes `msg` to the channel of every registered participant but
    /// `except`.
    pub fn broadcast_to_everyone_else(&mut self, msg: String, except: &Player)
        ensures
            final(self)@ == sent_to_others(old(self)@, msg@, except@.id),
            distinct_ids(final(self)@),
    {
        proof {
            use_type_invariant(&*self);
        }
        let mut entries: Vec<Entry> = Vec::new();
        core::mem::swap(&mut self.entries, &mut entries);
        let ghost before = views(entries@);
        let n = entries.len();
        let mut i: usize = 0;
        while i < n
            invariant
                i <= n,
                n == entries@.len(),
                before.len() == n,
                forall|k: int|
                    0 <= k < i ==> #[trigger] views(entries@)[k] == sent_to_others(
                        before,
                        msg@,
                        except@.id,
                    )[k],
                forall|k: int| i <= k < n ==> #[trigger] views(entries@)[k] == before[k],
            decreases n - i,
        {
            let ghost earlier = views(entries@);
            assert(earlier[i as int] == before[i as int]);
            if !Player::eq(&entries[i].player, except) {
                entries[i].channel.write(msg.clone());
            }
            assert forall|k: int| 0 <= k < n && k != i implies #[trigger] views(entries@)[k]
                == earlier[k] by {}
            i += 1;
        }
        self.entries = entries;
    }

    /// Writes `msg` to the channel of the participant `to`, and to no
    /// other. Fails, and writes nothing, where `to` is not registered.
    pub fn send_private(&mut self, msg: String, to: &Player) -> (sent: Result<(), RelayError>)
        ensures
            has_id(old(self)@, to@.id) ==> sent == Ok::<(), RelayError>(()) && final(self)@
                == sent_to_one(old(self)@, msg@, to@.id),
            !has_id(old(self)@, to@.id) ==> sent == Err::<(), RelayError>(
                RelayError::ParticipantNotFound,
            ) && final(self)@ == old(self)@,
            distinct_ids(final(self)@),
    {
        proof {
            use_type_invariant(&*self);
        }
        let mut entries: Vec<Entry> = Vec::new();
        core::mem::swap(&mut self.entries, &mut entries);
        let ghost before = views(entries@);
        let sent = match find(&entries, to) {
            Some(at) => {
                entries[at].channel.write(msg);
                assert(views(entries@) =~= sent_to_one(before, msg@, to@.id));
                Ok(())
            },
            None => Err(RelayError::ParticipantNotFound),
        };
        self.entries = entries;
        sent
    }

    /// Registers `player` with its channel `writer`. Where the identity is
    /// registered already, the new record and channel take the place of the
    /// old ones.
    pub fn add_player(&mut self, player: Player, writer: Channel)
        ensures
            final(self)@ == with_entry(
                old(self)@,
                EntryView { player: player@, channel: writer@ },
            ),
            distinct_ids(final(self)@),
    {
        proof {
            use_type_invariant(&*self);
        }
        let mut entries: Vec<Entry> = Vec::new();
        core::mem::swap(&mut self.entries, &mut entries);
        let ghost before = views(entries@);
        let ghost entry = EntryView { player: player@, channel: writer@ };
        match find(&entries, &player) {
            Some(at) => {
                entries[at] = Entry { player, channel: writer };
                assert(views(entries@) =~= before.update(at as int, entry));
            },
            None => {
                entries.push(Entry { player, channel: writer });
                assert(views(entries@) =~= before.push(entry));
            },
        }
        self.entries = entries;
    }

    /// Takes the participant with the identity of `player` out of the
    /// registry, with its channel. Does nothing where it is not registered.
    pub fn remove_player(&mut self, player: &Player)
        ensures
            final(self)@ == without_id(old(self)@, player@.id),
            distinct_ids(final(self)@),
    {
        proof {
            use_type_invariant(&*self);
        }
        let mut entries: Vec<Entry> = Vec::new();
        core::mem::swap(&mut self.entries, &mut entries);
        let ghost before = views(entries@);
        match find(&entries, player) {
            Some(at) => {
                let _ = entries.remove(at);
                assert(views(entries@) =~= before.remove(at as int));
            },
            None => {},
        }
        self.entries = entries;
    }

    /// The records of the registered participants, in the order of their
    /// admission. No two of them hold the same identity.
    pub fn get_list_of_players(&self) -> (players: Vec<&Player>)
        ensures
            players@.len() == self@.len(),
            forall|i: int| 0 <= i < players@.len() ==> (#[trigger] players@[i])@ == self@[i].player,
            distinct_ids(self@),
    {
        proof {
            use_type_invariant(self);
        }
        let mut players: Vec<&Player> = Vec::new();
        let n = self.entries.len();
        let mut i: usize = 0;
        while i < n
            invariant
                i <= n,
                n == self.entries@.len(),
                players@.len() == i,
                forall|k: int| 0 <= k < i ==> (#[trigger] players@[k])@ == self@[k].player,
            decreases n - i,
        {
            players.push(&self.entries[i].player);
            i += 1;
        }
        players
    }

    /// The endpoints of the registered participants' channels, in the
    /// order of their admission.
    pub fn get_addresses(&self) -> (addresses: Vec<Endpoint>)
        ensures
            addresses@.len() == self@.len(),
            forall|i: int|
                0 <= i < addresses@.len() ==> (#[trigger] addresses@[i])@
                    == self@[i].channel.endpoint,
    {
        let mut addresses: Vec<Endpoint> = Vec::new();
        let n = self.entries.len();
        let mut i: usize = 0;
        while i < n
            invariant
                i <= n,
                n == self.entries@.len(),
                addresses@.len() == i,
                forall|k: int|
                    0 <= k < i ==> (#[trigger] addresses@[k])@ == self@[k].channel.endpoint,
            decreases n - i,
        {
            addresses.push(Endpoint::copy(self.entries[i].channel.endpoint()));
            i += 1;
        }
        addresses
    }

    /// The number of registered participants.
    pub fn len(&self) -> (count: usize)
        ensures
            count == self@.len(),
    {
        self.entries.len()
    }

    /// Whether the registry holds as many participants as may be connected
    /// at one time.
    pub fn is_full(&self) -> (full: bool)
        ensures
            full == (self@.len() >= MAX_PLAYERS),
    {
        self.entries.len() >= MAX_PLAYERS
    }

    /// Takes the pending messages out of every channel, to be sent: one item
    /// for each participant, in the order of their admission.
    pub fn flush(&mut self) -> (outgoing: Vec<Outgoing>)
        ensures
            final(self)@ == flushed(old(self)@),
            distinct_ids(final(self)@),
            outgoing@.len() == old(self)@.len(),
            forall|i: int|
                0 <= i < outgoing@.len() ==> (#[trigger] outgoing@[i]).to@ == old(self)@[i].player.id
                    && texts(outgoing@[i].messages@) == old(self)@[i].channel.pending,
    {
        proof {
            use_type_invariant(&*self);
        }
        let mut entries: Vec<Entry> = Vec::new();
        core::mem::swap(&mut self.entries, &mut entries);
        let ghost before = views(entries@);
        let mut outgoing: Vec<Outgoing> = Vec::new();
        let n = entries.len();
        let mut i: usize = 0;
        while i < n
            invariant
                i <= n,
                n == entries@.len(),
                before.len() == n,
                outgoing@.len() == i,
                forall|k: int| 0 <= k < i ==> views(entries@)[k] == flushed(before)[k],
                forall|k: int| i <= k < n ==> views(entries@)[k] == before[k],
                forall|k: int|
                    0 <= k < i ==> (#[trigger] outgoing@[k]).to@ == before[k].player.id && texts(
                        outgoing@[k].messages@,
                    ) == before[k].channel.pending,
            decreases n - i,
        {
            let messages = entries[i].channel.flush();
            outgoing.push(Outgoing { to: entries[i].player.id.clone(), messages });
            i += 1;
        }
        assert(views(entries@) =~= flushed(before));
        self.entries = entries;
        outgoing
    }
}

} // verus!
