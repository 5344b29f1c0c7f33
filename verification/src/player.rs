//! The identity and presence record of a connected participant.

use vstd::prelude::*;

verus! {

/// What a [`Player`] holds, as mathematical text.
pub ghost struct PlayerView {
    pub remote_address: Seq<char>,
    pub remote_port: u16,
    pub nickname: Seq<char>,
    pub id: Seq<char>,
    pub current_veh_id: Seq<char>,
}

/// A connected participant.
///
/// The `id` is issued by the server and is the participant's identity: two
/// records with the same `id` stand for the same participant, whatever
/// their other fields hold. The nickname is declared by the client and is
/// neither trusted nor unique.
#[derive(Debug)]
pub struct Player {
    /// The address of the endpoint observed for the participant.
    pub remote_address: String,
    /// The port of that endpoint.
    pub remote_port: u16,
    /// The display name that the client declared.
    pub nickname: String,
    /// The identity that the server issued.
    pub id: String,
    /// The vehicle that the client reported last.
    pub current_veh_id: String,
}

impl View for Player {
    type V = PlayerView;

    open spec fn view(&self) -> PlayerView {
        PlayerView {
            remote_address: self.remote_address@,
            remote_port: self.remote_port,
            nickname: self.nickname@,
            id: self.id@,
            current_veh_id: self.current_veh_id@,
        }
    }
}

impl PartialEq for Player {
    /// Two records are equal where their ids are the same text.
    fn eq(&self, other: &Player) -> (same: bool) {
        self.id == other.id
    }
}

impl vstd::std_specs::cmp::PartialEqSpecImpl for Player {
    open spec fn obeys_eq_spec() -> bool {
        true
    }

    open spec fn eq_spec(&self, other: &Player) -> bool {
        self.id@ == other.id@
    }
}

impl Eq for Player {

}

impl Player {
    /// Builds a record from its five fields.
    pub fn new(
        remote_address: String,
        remote_port: u16,
        nickname: String,
        id: String,
        current_veh_id: String,
    ) -> (player: Player)
        ensures
            player@ == (PlayerView {
                remote_address: remote_address@,
                remote_port: remote_port,
                nickname: nickname@,
                id: id@,
                current_veh_id: current_veh_id@,
            }),
    {
        Player { remote_address, remote_port, nickname, id, current_veh_id }
    }

    /// A second record with the same five fields.
    pub fn copy(other: &Player) -> (player: Player)
        ensures
            player@ == other@,
    {
        Player {
            remote_address: other.remote_address.clone(),
            remote_port: other.remote_port,
            nickname: other.nickname.clone(),
            id: other.id.clone(),
            current_veh_id: other.current_veh_id.clone(),
        }
    }

    /// Whether two records stand for the same participant: their ids are
    /// the same text.
    pub fn eq(this: &Player, other: &Player) -> (same: bool)
        ensures
            same == (this@.id == other@.id),
    {
        this.id == other.id
    }
}

} // verus!
