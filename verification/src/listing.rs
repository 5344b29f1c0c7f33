//! The list of participants as the clients receive it: a JSON array with
//! one object for each participant.
//!
//! The layout of the array and of its objects is laid down here. A text is
//! written as a JSON string by `serde_json`.

use crate::channel::texts;
use crate::player::{Player, PlayerView};
use crate::text::{decimal, decimal_text};
use vstd::prelude::*;
use vstd::string::*;

verus! {

/// Makes `serde_json::Error` known as a type. Nothing is said of what a
/// value of it holds.
#[verifier::external_type_specification]
#[verifier::external_body]
pub struct ExJsonError(serde_json::Error);

/// The character of the hexadecimal digit `d`, in lower case.
pub open spec fn hex_digit(d: nat) -> char {
    seq!['0', '1', '2', '3', '4', '5', '6', '7', '8', '9', 'a', 'b', 'c', 'd', 'e', 'f'][d as int]
}

/// How the character `c` stands inside a JSON string: the double quote
/// and the backslash behind a backslash, a control character below
/// U+0020 by its short name or by its number in four hexadecimal digits,
/// any other character as it is.
pub open spec fn escaped(c: char) -> Seq<char> {
    let u = c as u32;
    if c == '"' {
        seq!['\\', '"']
    } else if c == '\\' {
        seq!['\\', '\\']
    } else if u == 0x08 {
        seq!['\\', 'b']
    } else if u == 0x09 {
        seq!['\\', 't']
    } else if u == 0x0A {
        seq!['\\', 'n']
    } else if u == 0x0C {
        seq!['\\', 'f']
    } else if u == 0x0D {
        seq!['\\', 'r']
    } else if u < 0x20 {
        seq!['\\', 'u', '0', '0', hex_digit((u / 16) as nat), hex_digit((u % 16) as nat)]
    } else {
        seq![c]
    }
}

/// The characters of `s`, each as it stands inside a JSON string.
pub open spec fn escaped_text(s: Seq<char>) -> Seq<char>
    decreases s.len(),
{
    if s.len() == 0 {
        Seq::empty()
    } else {
        escaped_text(s.drop_last()) + escaped(s.last())
    }
}

/// The JSON string of the text `s`: its characters between double quotes,
/// each as it stands inside a JSON string.
pub open spec fn json_string(s: Seq<char>) -> Seq<char> {
    seq!['"'] + escaped_text(s) + seq!['"']
}

/// Writes `s` as a JSON string, by `serde_json::to_string`.
///
/// Not proved: that the call succeeds on every text, and that the text that
/// comes back is the JSON string of `s` as [`json_string`] lays it down.
/// Writing a text into memory is all the call does, and no step of that
/// can fail.
#[verifier::external_body]
fn quote(s: &str) -> (quoted: Result<String, serde_json::Error>)
    ensures
        quoted is Ok,
        quoted->Ok_0@ == json_string(s@),
{
    serde_json::to_string(s)
}

/// The object of one participant, from its fields as they stand in JSON.
pub open spec fn record(
    address: Seq<char>,
    port: u16,
    nickname: Seq<char>,
    id: Seq<char>,
    vehicle: Seq<char>,
) -> Seq<char> {
    "{\"remoteAddress\":"@ + address + ",\"remotePort\":"@ + decimal(port as nat)
        + ",\"nickname\":"@ + nickname + ",\"id\":"@ + id + ",\"currentVehID\":"@ + vehicle + "}"@
}

/// The object of the participant `player`.
pub open spec fn player_json(player: PlayerView) -> Seq<char> {
    record(
        json_string(player.remote_address),
        player.remote_port,
        json_string(player.nickname),
        json_string(player.id),
        json_string(player.current_veh_id),
    )
}

/// `records` one after the other, with a comma between each two.
pub open spec fn joined(records: Seq<Seq<char>>) -> Seq<char>
    decreases records.len(),
{
    if records.len() == 0 {
        Seq::empty()
    } else if records.len() == 1 {
        records[0]
    } else {
        joined(records.drop_last()) + ","@ + records.last()
    }
}

/// The array that holds `records`, in their order.
pub open spec fn array(records: Seq<Seq<char>>) -> Seq<char> {
    "["@ + joined(records) + "]"@
}

/// The array of the objects of `players`, in their order.
pub open spec fn players_json(players: Seq<PlayerView>) -> Seq<char> {
    array(Seq::new(players.len(), |i: int| player_json(players[i])))
}

/// The object of one participant, from its fields as they stand in JSON.
pub fn make_record(address: &str, port: u16, nickname: &str, id: &str, vehicle: &str) -> (text:
    String)
    ensures
        text@ == record(address@, port, nickname@, id@, vehicle@),
{
    let mut text = String::from_str("{\"remoteAddress\":");
    text.append(address);
    text.append(",\"remotePort\":");
    text.append(decimal_text(port).as_str());
    text.append(",\"nickname\":");
    text.append(nickname);
    text.append(",\"id\":");
    text.append(id);
    text.append(",\"currentVehID\":");
    text.append(vehicle);
    text.append("}");
    text
}

/// The array that holds `records`, in their order.
pub fn make_array(records: &Vec<String>) -> (text: String)
    ensures
        text@ == array(texts(records@)),
{
    let mut text = String::from_str("[");
    let n = records.len();
    let mut i: usize = 0;
    while i < n
        invariant
            i <= n,
            n == records@.len(),
            text@ == "["@ + joined(texts(records@).take(i as int)),
        decreases n - i,
    {
        assert(texts(records@).take(i + 1).drop_last() =~= texts(records@).take(i as int));
        if i > 0 {
            text.append(",");
        }
        text.append(records[i].as_str());
        i += 1;
    }
    assert(texts(records@).take(n as int) =~= texts(records@));
    text.append("]");
    text
}

/// `s` as a JSON string.
pub fn json_text(s: &str) -> (text: String)
    ensures
        text@ == json_string(s@),
{
    match quote(s) {
        Ok(text) => text,
        Err(_) => vstd::pervasive::unreached(),
    }
}

/// The object of the participant `player`.
pub fn encode_player(player: &Player) -> (text: String)
    ensures
        text@ == player_json(player@),
{
    let address = json_text(player.remote_address.as_str());
    let nickname = json_text(player.nickname.as_str());
    let id = json_text(player.id.as_str());
    let vehicle = json_text(player.current_veh_id.as_str());
    make_record(
        address.as_str(),
        player.remote_port,
        nickname.as_str(),
        id.as_str(),
        vehicle.as_str(),
    )
}

/// The array of the objects of `players`, in their order.
pub fn encode_players(players: &Vec<&Player>) -> (text: String)
    ensures
        text@ == players_json(Seq::new(players@.len(), |i: int| players@[i]@)),
{
    let ghost views = Seq::new(players@.len(), |i: int| players@[i]@);
    let mut records: Vec<String> = Vec::new();
    let n = players.len();
    let mut i: usize = 0;
    while i < n
        invariant
            i <= n,
            n == players@.len(),
            records@.len() == i,
            views == Seq::new(players@.len(), |i: int| players@[i]@),
            forall|k: int| 0 <= k < i ==> (#[trigger] records@[k])@ == player_json(views[k]),
        decreases n - i,
    {
        records.push(encode_player(players[i]));
        i += 1;
    }
    assert(texts(records@) =~= Seq::new(views.len(), |i: int| player_json(views[i])));
    make_array(&records)
}

} // verus!
