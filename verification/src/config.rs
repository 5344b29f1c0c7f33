//! The configuration of the server, read from a JSON document.
//!
//! The document is an object. Its members `env` and `map` give the
//! environment and the map the session starts with, `tcp_port` and
//! `udp_port` the ports of the reliable and of the unreliable channel.

use vstd::prelude::*;
use vstd::string::*;

verus! {

/// Makes `serde_json::Value` known as a type. What a value of it holds is
/// spoken of through [`member_texts`] and [`member_numbers`] alone.
#[verifier::external_type_specification]
#[verifier::external_body]
pub struct ExJsonValue(serde_json::Value);

/// The members of a JSON document: for each name that the object holds,
/// the JSON text of the member, as `serde_json` prints it on one line. A
/// document that is no object has no members.
pub uninterp spec fn member_texts(document: serde_json::Value) -> Map<Seq<char>, Seq<char>>;

/// The members of a JSON document that `serde_json` holds as unsigned whole
/// numbers (those for which `as_u64` gives a number), each with its number.
/// A number written with a fraction or an exponent is none of them.
pub uninterp spec fn member_numbers(document: serde_json::Value) -> Map<Seq<char>, u64>;

/// The members of the JSON document that `serde_json` makes of `text`, as
/// [`member_texts`] and [`member_numbers`] give them, texts first. It is
/// nothing where `serde_json` makes no document of the text.
pub uninterp spec fn document_members(text: Seq<char>) -> Option<
    (Map<Seq<char>, Seq<char>>, Map<Seq<char>, u64>),
>;

/// The text that stands for a member that the document does not hold.
pub const NULL: &'static str = "null";

/// The least number that is too large for a port here.
pub const PORT_LIMIT: u64 = 65535;

/// Reads `text` as a JSON document, by `serde_json::from_str`.
///
/// Not proved: that the same text always makes a document with the same
/// members, or never makes one. Which texts are documents is not said.
#[verifier::external_body]
fn parse(text: &str) -> (document: Result<serde_json::Value, serde_json::Error>)
    ensures
        match document {
            Ok(made) => document_members(text@) == Some((member_texts(made), member_numbers(made))),
            Err(_) => document_members(text@) is None,
        },
{
    serde_json::from_str::<serde_json::Value>(text)
}

/// The JSON text of the member `name` of `document`: `document[name]`,
/// printed by `to_string`.
///
/// Not proved: that this is the text of that member, and `null` where the
/// document holds no member of that name.
#[verifier::external_body]
fn member_text(document: &serde_json::Value, name: &str) -> (text: String)
    ensures
        text@ == if member_texts(*document).contains_key(name@) {
            member_texts(*document)[name@]
        } else {
            NULL@
        },
{
    document[name].to_string()
}

/// The number of the member `name` of `document`: `document[name]`, read by
/// `as_u64`.
///
/// Not proved: that this is the number of that member, and nothing where
/// the document holds no such member or `serde_json` does not hold it as an
/// unsigned whole number.
#[verifier::external_body]
fn member_number(document: &serde_json::Value, name: &str) -> (number: Option<u64>)
    ensures
        number == if member_numbers(*document).contains_key(name@) {
            Some(member_numbers(*document)[name@])
        } else {
            None
        },
{
    document[name].as_u64()
}

/// Why a configuration was refused.
#[derive(Debug, Clone, Copy, PartialEq, Eq, Structural)]
pub enum ConfigError {
    /// The text is no JSON document.
    Malformed,
    /// The port of the reliable channel is missing, is no whole number, or
    /// is 65535 or more.
    TcpPort,
    /// The port of the unreliable channel is missing, is no whole number, or
    /// is 65535 or more.
    UdpPort,
}

/// What a [`ServerConfig`] holds.
pub ghost struct ServerConfigView {
    pub env: Seq<char>,
    pub map: Seq<char>,
    pub tcp_port: u16,
    pub udp_port: u16,
}

/// The configuration of the server.
#[derive(Debug)]
pub struct ServerConfig {
    /// The environment that the session starts with, as JSON text.
    pub env: String,
    /// The map that the session starts with, as JSON text; empty where none
    /// is selected.
    pub map: String,
    /// The port of the reliable channel.
    pub tcp_port: u16,
    /// The port of the unreliable channel.
    pub udp_port: u16,
}

impl View for ServerConfig {
    type V = ServerConfigView;

    open spec fn view(&self) -> ServerConfigView {
        ServerConfigView {
            env: self.env@,
            map: self.map@,
            tcp_port: self.tcp_port,
            udp_port: self.udp_port,
        }
    }
}

/// Whether `port` is given and is small enough for a port here.
pub open spec fn is_port(port: Option<u64>) -> bool {
    port matches Some(number) && number < PORT_LIMIT
}

/// The configuration that the four members give, or why they give none.
///
/// The ports are looked at in turn, that of the reliable channel first. A
/// map that reads `null` means that no map is selected.
pub open spec fn configured(
    env: Seq<char>,
    map: Seq<char>,
    tcp_port: Option<u64>,
    udp_port: Option<u64>,
) -> Result<ServerConfigView, ConfigError> {
    if !is_port(tcp_port) {
        Err(ConfigError::TcpPort)
    } else if !is_port(udp_port) {
        Err(ConfigError::UdpPort)
    } else {
        Ok(
            ServerConfigView {
                env,
                map: if map == NULL@ {
                    Seq::empty()
                } else {
                    map
                },
                tcp_port: tcp_port->0 as u16,
                udp_port: udp_port->0 as u16,
            },
        )
    }
}

/// The configuration that the members of `document` give.
pub open spec fn configured_by(document: serde_json::Value) -> Result<
    ServerConfigView,
    ConfigError,
> {
    configured_by_members(member_texts(document), member_numbers(document))
}

/// The configuration that the text `text` gives: that of the document it
/// holds, and none where it holds no document.
pub open spec fn configured_by_text(text: Seq<char>) -> Result<ServerConfigView, ConfigError> {
    match document_members(text) {
        Some((texts, numbers)) => configured_by_members(texts, numbers),
        None => Err(ConfigError::Malformed),
    }
}

/// Whether what `made` holds is what `expected` holds.
pub open spec fn matches_config(
    made: Result<ServerConfig, ConfigError>,
    expected: Result<ServerConfigView, ConfigError>,
) -> bool {
    match expected {
        Ok(config) => made is Ok && made->Ok_0@ == config,
        Err(e) => made is Err && made->Err_0 == e,
    }
}

/// The port that `port` gives, if it gives one.
fn port_of(port: Option<u64>) -> (number: Option<u16>)
    ensures
        number is Some == is_port(port),
        number matches Some(n) ==> n == port->0,
{
    match port {
        Some(number) => {
            if number < PORT_LIMIT {
                Some(number as u16)
            } else {
                None
            }
        },
        None => None,
    }
}

/// Makes the configuration from the four members of the document: the text
/// of `env` and of `map`, and the numbers of `tcp_port` and `udp_port`.
pub fn make_config(env: String, map: String, tcp_port: Option<u64>, udp_port: Option<u64>) -> (made:
    Result<ServerConfig, ConfigError>)
    ensures
        matches_config(made, configured(env@, map@, tcp_port, udp_port)),
{
    let tcp_port = match port_of(tcp_port) {
        Some(port) => port,
        None => {
            return Err(ConfigError::TcpPort);
        },
    };
    let udp_port = match port_of(udp_port) {
        Some(port) => port,
        None => {
            return Err(ConfigError::UdpPort);
        },
    };
    let map = if map == String::from_str(NULL) {
        String::new()
    } else {
        map
    };
    Ok(ServerConfig { env, map, tcp_port, udp_port })
}

/// Makes the configuration from a JSON document: from the text of its
/// members `env` and `map`, and the numbers of its members `tcp_port` and
/// `udp_port`.
pub fn config_of(document: &serde_json::Value) -> (made: Result<ServerConfig, ConfigError>)
    ensures
        matches_config(made, configured_by(*document)),
{
    let env = member_text(document, "env");
    let map = member_text(document, "map");
    let tcp_port = member_number(document, "tcp_port");
    let udp_port = member_number(document, "udp_port");
    make_config(env, map, tcp_port, udp_port)
}

/// Reads the configuration from the text of a JSON document.
///
/// Fails where the text is no JSON document, or where the document does
/// not give both ports. Else the configuration is what the members of the
/// document give. Which document a text makes is left to `serde_json`.
pub fn read_server_config(text: &str) -> (made: Result<ServerConfig, ConfigError>)
    ensures
        matches_config(made, configured_by_text(text@)),
{
    match parse(text) {
        Ok(document) => config_of(&document),
        Err(_) => Err(ConfigError::Malformed),
    }
}

/// The configuration that a document with the members `texts` and
/// `numbers` gives. A member that the document does not hold reads `null`
/// as a text and is no number.
pub open spec fn configured_by_members(
    texts: Map<Seq<char>, Seq<char>>,
    numbers: Map<Seq<char>, u64>,
) -> Result<ServerConfigView, ConfigError> {
    configured(
        if texts.contains_key("env"@) {
            texts["env"@]
        } else {
            NULL@
        },
        if texts.contains_key("map"@) {
            texts["map"@]
        } else {
            NULL@
        },
        if numbers.contains_key("tcp_port"@) {
            Some(numbers["tcp_port"@])
        } else {
            None
        },
        if numbers.contains_key("udp_port"@) {
            Some(numbers["udp_port"@])
        } else {
            None
        },
    )
}

} // verus!
