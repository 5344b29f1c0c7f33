//! The wire format of both channels: four-character codes, the commands
//! they select, and the lines the server sends.
//!
//! A message is a code of four characters followed by a payload. On the
//! reliable channel every message is one line.

use crate::text::{begins_with, chars_of, starts_with, trim, trimmed};
use vstd::prelude::*;
use vstd::string::*;

verus! {

/// The number of characters in a code.
pub const CODE_LEN: usize = 4;

/// The protocol version that the server announces.
pub const VERSION: &'static str = "0.0.4";

/// The text in a chat message by which a participant claims to be admin.
pub const ADMIN_TOKEN: &'static str = "!admin_plox";

/// The vehicle identifier of a participant that has reported none yet.
pub const NO_VEHICLE: &'static str = "0";

/// What ends every line.
pub const LINE_END: &'static str = "\n";

/// Client to server: declares the nickname.
pub const USER: &'static str = "USER";

/// Client to server: leaves.
pub const QUIT: &'static str = "QUIT";

/// Client to server: leaves (the older, numeric form).
pub const QUIT_LEGACY: &'static str = "2001";

/// Client to server: asks for a pong.
pub const PING: &'static str = "PING";

/// Both ways: a chat message.
pub const CHAT: &'static str = "CHAT";

/// Client to server: selects the map. Server to client: no map is selected.
pub const MAPS: &'static str = "MAPS";

/// Client to server: a vehicle was inserted.
pub const VEHICLE_INSERTED: &'static str = "U-VI";

/// Client to server: a vehicle was entered.
pub const VEHICLE_ENTERED: &'static str = "U-VE";

/// Client to server: a vehicle is new.
pub const VEHICLE_NEW: &'static str = "U-VN";

/// Client to server: a vehicle's position.
pub const VEHICLE_POSITION: &'static str = "U-VP";

/// Client to server: a vehicle was left.
pub const VEHICLE_LEFT: &'static str = "U-VL";

/// Client to server: a vehicle was removed.
pub const VEHICLE_REMOVED: &'static str = "U-VR";

/// Client to server: a vehicle was created, to be told to everyone.
pub const VEHICLE_CREATED: &'static str = "U-VC";

/// Client to server: a new vehicle identifier.
pub const NEW_VEHICLE_ID: &'static str = "U-NV";

/// Client to server: the vehicle state changed.
pub const VEHICLE_STATE: &'static str = "C-VS";

/// Client to server: sets the environment.
pub const SET_ENVIRONMENT: &'static str = "SENV";

/// Server to client: the identity issued to the client.
pub const HOLA: &'static str = "HOLA";

/// Server to client: the selected map.
pub const MAPC: &'static str = "MAPC";

/// Server to client: the protocol version.
pub const VCHK: &'static str = "VCHK";

/// Server to client: the environment.
pub const ENVT: &'static str = "ENVT";

/// Server to client: the list of participants.
pub const PLST: &'static str = "PLST";

/// Server to client: the answer to a ping.
pub const PONG: &'static str = "PONG";

/// Server to client: the receiver is admin now.
pub const ADMN: &'static str = "ADMN";

/// Server to client: a notice from the server.
pub const SMSG: &'static str = "SMSG";

/// What a message asks for, by its code.
#[derive(Debug, Clone, Copy, PartialEq, Eq, Structural)]
pub enum Command {
    /// Leave the session.
    Quit,
    /// Answer with a pong.
    Ping,
    /// A chat message, or a claim to be admin.
    Chat,
    /// Select the map.
    SelectMap,
    /// One of the six updates of a vehicle, for everyone else.
    VehicleUpdate,
    /// A vehicle was created, for everyone.
    VehicleCreated,
    /// A new vehicle identifier.
    NewVehicleId,
    /// The sender's vehicle state changed.
    VehicleState,
    /// Set the environment.
    SetEnvironment,
    /// None of these.
    Unknown,
}

/// What a read on the reliable channel brought.
#[derive(Debug)]
pub enum Received {
    /// A line, as it was read: the line ending included, if it had one. The
    /// empty line stands for the end of the stream.
    Line(String),
    /// The read failed.
    Failed,
}

impl View for Received {
    type V = Option<Seq<char>>;

    open spec fn view(&self) -> Option<Seq<char>> {
        match self {
            Received::Line(text) => Some(text@),
            Received::Failed => None,
        }
    }
}

/// Whether `message` has the room for a code.
pub open spec fn has_code(message: Seq<char>) -> bool {
    message.len() >= CODE_LEN
}

/// The payload of `message`: what follows the code, without the white
/// space at either end.
pub open spec fn payload_of(message: Seq<char>) -> Seq<char>
    recommends
        has_code(message),
{
    trimmed(message.subrange(CODE_LEN as int, message.len() as int))
}

/// Whether `message` begins with one of the six codes of a vehicle update.
pub open spec fn is_vehicle_update(message: Seq<char>) -> bool {
    ||| starts_with(message, VEHICLE_INSERTED@)
    ||| starts_with(message, VEHICLE_ENTERED@)
    ||| starts_with(message, VEHICLE_NEW@)
    ||| starts_with(message, VEHICLE_POSITION@)
    ||| starts_with(message, VEHICLE_LEFT@)
    ||| starts_with(message, VEHICLE_REMOVED@)
}

/// The command that the code of `message` selects. Codes are compared
/// exactly, letter case included.
pub open spec fn command_of(message: Seq<char>) -> Command {
    if starts_with(message, QUIT@) || starts_with(message, QUIT_LEGACY@) {
        Command::Quit
    } else if starts_with(message, PING@) {
        Command::Ping
    } else if starts_with(message, CHAT@) {
        Command::Chat
    } else if starts_with(message, MAPS@) {
        Command::SelectMap
    } else if is_vehicle_update(message) {
        Command::VehicleUpdate
    } else if starts_with(message, VEHICLE_CREATED@) {
        Command::VehicleCreated
    } else if starts_with(message, NEW_VEHICLE_ID@) {
        Command::NewVehicleId
    } else if starts_with(message, VEHICLE_STATE@) {
        Command::VehicleState
    } else if starts_with(message, SET_ENVIRONMENT@) {
        Command::SetEnvironment
    } else {
        Command::Unknown
    }
}

/// The line that carries `body` under `code`.
pub open spec fn line(code: Seq<char>, body: Seq<char>) -> Seq<char> {
    code + body + LINE_END@
}

/// The line that tells a client the identity issued to it.
pub open spec fn identity_line(id: Seq<char>) -> Seq<char> {
    line(HOLA@, id)
}

/// The line that tells a joining client the state of the map: that none is
/// selected where `map` is empty, else which one.
pub open spec fn map_state_line(map: Seq<char>) -> Seq<char> {
    if map.len() == 0 {
        line(MAPS@, Seq::empty())
    } else {
        line(MAPC@, map)
    }
}

/// The line that announces the protocol version.
pub open spec fn version_line() -> Seq<char> {
    line(VCHK@, VERSION@)
}

/// The three lines that greet a client, in the order in which they are
/// sent.
pub open spec fn greeting(id: Seq<char>, map: Seq<char>) -> Seq<Seq<char>> {
    seq![identity_line(id), map_state_line(map), version_line()]
}

/// The line that tells the environment.
pub open spec fn environment_line(env: Seq<char>) -> Seq<char> {
    line(ENVT@, env)
}

/// The line that carries the list of participants, given as JSON text.
pub open spec fn players_line(list: Seq<char>) -> Seq<char> {
    line(PLST@, list)
}

/// The line that answers a ping.
pub open spec fn pong_line() -> Seq<char> {
    line(PONG@, Seq::empty())
}

/// The line that carries the chat message `payload` to everyone.
pub open spec fn chat_line(payload: Seq<char>) -> Seq<char> {
    line(CHAT@, payload)
}

/// The line that tells the sender of a map selection which map is selected
/// now.
pub open spec fn map_selected_line(map: Seq<char>) -> Seq<char> {
    line(MAPC@, map)
}

/// The line that tells a participant that it is admin now.
pub open spec fn admin_grant_line() -> Seq<char> {
    line(ADMN@, Seq::empty())
}

/// The line that tells the others that the participant with this nickname
/// is admin now.
pub open spec fn admin_notice_line(nickname: Seq<char>) -> Seq<char> {
    line(SMSG@, "Player "@ + nickname + " is now admin"@)
}

/// The line that passes `message` on as it came: its code and its payload.
pub open spec fn relayed_line(message: Seq<char>) -> Seq<char>
    recommends
        has_code(message),
{
    line(message.subrange(0, CODE_LEN as int), payload_of(message))
}

/// The command that the code of `message` selects.
pub fn command(message: &str) -> (selected: Command)
    ensures
        selected == command_of(message@),
{
    let chars = chars_of(message);
    if begins_with(&chars, QUIT) || begins_with(&chars, QUIT_LEGACY) {
        Command::Quit
    } else if begins_with(&chars, PING) {
        Command::Ping
    } else if begins_with(&chars, CHAT) {
        Command::Chat
    } else if begins_with(&chars, MAPS) {
        Command::SelectMap
    } else if begins_with(&chars, VEHICLE_INSERTED) || begins_with(&chars, VEHICLE_ENTERED)
        || begins_with(&chars, VEHICLE_NEW) || begins_with(&chars, VEHICLE_POSITION)
        || begins_with(&chars, VEHICLE_LEFT) || begins_with(&chars, VEHICLE_REMOVED) {
        Command::VehicleUpdate
    } else if begins_with(&chars, VEHICLE_CREATED) {
        Command::VehicleCreated
    } else if begins_with(&chars, NEW_VEHICLE_ID) {
        Command::NewVehicleId
    } else if begins_with(&chars, VEHICLE_STATE) {
        Command::VehicleState
    } else if begins_with(&chars, SET_ENVIRONMENT) {
        Command::SetEnvironment
    } else {
        Command::Unknown
    }
}

/// The payload of `message`, and its code, where `message` has the room
/// for a code.
pub fn split(message: &str) -> (parts: Option<(&str, &str)>)
    ensures
        has_code(message@) <==> parts is Some,
        parts matches Some((code, payload)) ==> code@ == message@.subrange(0, CODE_LEN as int)
            && payload@ == payload_of(message@),
{
    let n = message.unicode_len();
    if n < CODE_LEN {
        None
    } else {
        Some((message.substring_char(0, CODE_LEN), trim(message.substring_char(CODE_LEN, n))))
    }
}

/// The line that carries `body` under `code`.
pub fn make_line(code: &str, body: &str) -> (text: String)
    ensures
        text@ == line(code@, body@),
{
    let mut text = String::from_str(code);
    text.append(body);
    text.append(LINE_END);
    text
}

/// The line that tells a joining client the state of the map.
pub fn make_map_state_line(map: &str) -> (text: String)
    ensures
        text@ == map_state_line(map@),
{
    if map.unicode_len() == 0 {
        make_bare_line(MAPS)
    } else {
        make_line(MAPC, map)
    }
}

/// The line that carries nothing under `code`.
pub fn make_bare_line(code: &str) -> (text: String)
    ensures
        text@ == line(code@, Seq::empty()),
{
    proof {
        reveal_strlit("");
    }
    make_line(code, "")
}

/// The line that tells the others that the participant with this nickname
/// is admin now.
pub fn make_admin_notice_line(nickname: &str) -> (text: String)
    ensures
        text@ == admin_notice_line(nickname@),
{
    let mut body = String::from_str("Player ");
    body.append(nickname);
    body.append(" is now admin");
    make_line(SMSG, body.as_str())
}

} // verus!
