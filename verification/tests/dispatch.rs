use session_relay::channel::{Channel, Endpoint};
use session_relay::dispatch::{handle_client_msg, main_loop, on_close, on_write_failure, Handled};
use session_relay::error::RelayError;
use session_relay::handshake::{complete_handshake, get_player, open_handshake, IdentityStep};
use session_relay::player::Player;
use session_relay::protocol::{command, split, Command, Received};
use session_relay::registry::Connections;

fn player(id: &str, nickname: &str, port: u16) -> Player {
    Player::new(
        String::from("10.0.0.1"),
        port,
        String::from(nickname),
        String::from(id),
        String::from("0"),
    )
}

fn channel(port: u16) -> Channel {
    Channel::new(Endpoint::new(String::from("10.0.0.1"), port))
}

fn record(nickname: &str, id: &str, port: u16) -> String {
    format!(
        "{{\"remoteAddress\":\"10.0.0.1\",\"remotePort\":{},\"nickname\":\"{}\",\"id\":\"{}\",\"currentVehID\":\"0\"}}",
        port, nickname, id
    )
}

struct World {
    connections: Connections,
    map: String,
    env: String,
}

fn world() -> World {
    let mut connections = Connections::new();
    connections.add_player(player("a", "Alice", 1), channel(1));
    connections.add_player(player("b", "Bob", 2), channel(2));
    connections.add_player(player("c", "Carol", 3), channel(3));
    World { connections, map: String::from("gridmap"), env: String::from("noon") }
}

fn send(world: &mut World, sender: &mut Player, text: &str) -> Handled {
    handle_client_msg(
        String::from(text),
        &mut world.connections,
        sender,
        &mut world.map,
        &mut world.env,
    )
}

fn received(world: &mut World) -> Vec<Vec<String>> {
    world.connections.flush().into_iter().map(|o| o.messages).collect()
}

fn went_on(handled: Handled) {
    assert!(handled.online);
    assert_eq!(handled.failure, None);
}

fn ended(handled: Handled) {
    assert!(!handled.online);
    assert_eq!(handled.failure, None);
}

#[test]
fn codes_select_commands() {
    assert_eq!(command("QUIT\n"), Command::Quit);
    assert_eq!(command("2001\n"), Command::Quit);
    assert_eq!(command("PING\n"), Command::Ping);
    assert_eq!(command("CHAThello\n"), Command::Chat);
    assert_eq!(command("MAPSisland\n"), Command::SelectMap);
    for code in ["U-VI", "U-VE", "U-VN", "U-VP", "U-VL", "U-VR"] {
        assert_eq!(command(&format!("{}data\n", code)), Command::VehicleUpdate);
    }
    assert_eq!(command("U-VCdata\n"), Command::VehicleCreated);
    assert_eq!(command("U-NVdata\n"), Command::NewVehicleId);
    assert_eq!(command("C-VS12\n"), Command::VehicleState);
    assert_eq!(command("SENVnight\n"), Command::SetEnvironment);
}

#[test]
fn codes_are_case_sensitive_and_exact() {
    for text in ["quit\n", "Ping\n", "chat hello\n", " PING\n", "U-VX1\n", "USERAlice\n", "PIN", ""] {
        assert_eq!(command(text), Command::Unknown, "{:?}", text);
    }
}

#[test]
fn split_gives_code_and_trimmed_payload() {
    assert_eq!(split("CHAT hello world \r\n"), Some(("CHAT", "hello world")));
    assert_eq!(split("PING"), Some(("PING", "")));
    assert_eq!(split("PING\n"), Some(("PING", "")));
    assert_eq!(split("ab\r\n"), Some(("ab\r\n", "")));
    assert_eq!(split("PIN"), None);
    assert_eq!(split(""), None);
    assert_eq!(split("é€ab rest"), Some(("é€ab", "rest")));
}

#[test]
fn ping_is_answered_to_the_sender() {
    let mut w = world();
    let mut bob = player("b", "Bob", 2);
    went_on(send(&mut w, &mut bob, "PING\n"));
    assert_eq!(received(&mut w), vec![vec![], vec![String::from("PONG\n")], vec![]]);
    assert_eq!(w.map, "gridmap");
    assert_eq!(w.env, "noon");
}

#[test]
fn scenario_chat_reaches_everyone() {
    let mut w = world();
    let mut alice = player("a", "Alice", 1);
    went_on(send(&mut w, &mut alice, "CHAThello\n"));
    let chat = vec![String::from("CHAThello\n")];
    assert_eq!(received(&mut w), vec![chat.clone(), chat.clone(), chat]);
}

#[test]
fn scenario_admin_claim() {
    let mut w = world();
    let mut alice = player("a", "Alice", 1);
    went_on(send(&mut w, &mut alice, "CHATplease !admin_plox now\n"));
    let notice = vec![String::from("SMSGPlayer Alice is now admin\n")];
    assert_eq!(
        received(&mut w),
        vec![vec![String::from("ADMN\n")], notice.clone(), notice]
    );
}

#[test]
fn admin_token_must_be_whole() {
    let mut w = world();
    let mut alice = player("a", "Alice", 1);
    went_on(send(&mut w, &mut alice, "CHAT!admin_plo x\n"));
    let chat = vec![String::from("CHAT!admin_plo x\n")];
    assert_eq!(received(&mut w), vec![chat.clone(), chat.clone(), chat]);
}

#[test]
fn scenario_map_selection() {
    let mut connections = Connections::new();
    let mut map = String::new();
    let mut env = String::from("noon");
    let mut writer = channel(1);
    let alice_id = open_handshake(&connections, &mut writer, &map).unwrap();
    let mut alice = match get_player(
        &Received::Line(String::from("USERAlice\n")),
        0,
        &alice_id,
        writer.endpoint(),
    ) {
        IdentityStep::Declared(p) => p,
        other => panic!("{:?}", other),
    };
    assert_eq!(complete_handshake(&alice, writer, &mut connections, &env), Ok(()));
    let _ = connections.flush();

    let handled = handle_client_msg(
        String::from("MAPSisland\n"),
        &mut connections,
        &mut alice,
        &mut map,
        &mut env,
    );
    went_on(handled);
    assert_eq!(map, "island");
    let outgoing = connections.flush();
    assert_eq!(outgoing.len(), 1);
    assert_eq!(outgoing[0].to, alice_id);
    assert_eq!(outgoing[0].messages, vec![String::from("MAPCisland\n")]);

    let mut second = channel(2);
    let bob_id = open_handshake(&connections, &mut second, &map).unwrap();
    assert_eq!(
        second.flush(),
        vec![
            format!("HOLA{}\n", bob_id),
            String::from("MAPCisland\n"),
            String::from("VCHK0.0.4\n")
        ]
    );
}

#[test]
fn map_selection_is_private() {
    let mut w = world();
    let mut carol = player("c", "Carol", 3);
    went_on(send(&mut w, &mut carol, "MAPS  island  \n"));
    assert_eq!(w.map, "island");
    assert_eq!(w.env, "noon");
    assert_eq!(received(&mut w), vec![vec![], vec![], vec![String::from("MAPCisland\n")]]);
}

#[test]
fn empty_map_selection_clears_the_map() {
    let mut w = world();
    let mut carol = player("c", "Carol", 3);
    went_on(send(&mut w, &mut carol, "MAPS\n"));
    assert_eq!(w.map, "");
    assert_eq!(received(&mut w), vec![vec![], vec![], vec![String::from("MAPC\n")]]);
}

#[test]
fn scenario_vehicle_update_spares_the_sender() {
    for code in ["U-VI", "U-VE", "U-VN", "U-VP", "U-VL", "U-VR"] {
        let mut w = world();
        let mut bob = player("b", "Bob", 2);
        went_on(send(&mut w, &mut bob, &format!("{}12:[1,2,3]\n", code)));
        let update = vec![format!("{}12:[1,2,3]\n", code)];
        assert_eq!(received(&mut w), vec![update.clone(), vec![], update]);
        assert_eq!(w.map, "gridmap");
        assert_eq!(w.env, "noon");
    }
}

#[test]
fn vehicle_creation_reaches_everyone() {
    let mut w = world();
    let mut bob = player("b", "Bob", 2);
    went_on(send(&mut w, &mut bob, "U-VC{\"model\":\"pickup\"}\r\n"));
    let created = vec![String::from("U-VC{\"model\":\"pickup\"}\n")];
    assert_eq!(received(&mut w), vec![created.clone(), created.clone(), created]);
}

#[test]
fn new_vehicle_id_does_nothing() {
    let mut w = world();
    let mut bob = player("b", "Bob", 2);
    went_on(send(&mut w, &mut bob, "U-NV77\n"));
    assert_eq!(received(&mut w), vec![Vec::<String>::new(), vec![], vec![]]);
    assert_eq!(bob.current_veh_id, "0");
    assert_eq!(w.map, "gridmap");
    assert_eq!(w.env, "noon");
}

#[test]
fn vehicle_state_updates_the_sender_record() {
    let mut w = world();
    let mut bob = player("b", "Bob", 2);
    went_on(send(&mut w, &mut bob, "C-VS42\n"));
    assert_eq!(bob.current_veh_id, "42");
    went_on(send(&mut w, &mut bob, "C-VS42\n"));
    assert_eq!(bob.current_veh_id, "42");
    went_on(send(&mut w, &mut bob, "C-VS7\n"));
    assert_eq!(bob.current_veh_id, "7");
    assert_eq!(bob.nickname, "Bob");
    assert_eq!(bob.id, "b");
    assert_eq!(received(&mut w), vec![Vec::<String>::new(), vec![], vec![]]);
    assert_eq!(w.connections.get_list_of_players()[1].current_veh_id, "0");
}

#[test]
fn set_environment_tells_everyone_else() {
    let mut w = world();
    let mut alice = player("a", "Alice", 1);
    went_on(send(&mut w, &mut alice, "SENV{\"fog\":0.5}\n"));
    assert_eq!(w.env, "{\"fog\":0.5}");
    assert_eq!(w.map, "gridmap");
    let told = vec![String::from("ENVT{\"fog\":0.5}\n")];
    assert_eq!(received(&mut w), vec![vec![], told.clone(), told]);
}

#[test]
fn unknown_command_does_nothing() {
    let mut w = world();
    let mut alice = player("a", "Alice", 1);
    for text in ["XXXXwhat\n", "ping\n", "USERAlice\n", "ab\r\n"] {
        went_on(send(&mut w, &mut alice, text));
    }
    assert_eq!(received(&mut w), vec![Vec::<String>::new(), vec![], vec![]]);
    assert_eq!(w.connections.len(), 3);
    assert_eq!(w.map, "gridmap");
    assert_eq!(w.env, "noon");
}

#[test]
fn quit_runs_the_close_procedure() {
    for text in ["QUIT\n", "2001\n", "QUITbye\n"] {
        let mut w = world();
        let mut bob = player("b", "Bob", 2);
        ended(send(&mut w, &mut bob, text));
        assert_eq!(w.connections.len(), 2);
        let list = vec![format!(
            "PLST[{},{}]\n",
            record("Alice", "a", 1),
            record("Carol", "c", 3)
        )];
        assert_eq!(received(&mut w), vec![list.clone(), list]);
        assert_eq!(w.map, "gridmap");
        assert_eq!(w.env, "noon");
    }
}

#[test]
fn too_short_line_runs_the_close_procedure() {
    for text in ["", "\n", "abc", "PIN"] {
        let mut w = world();
        let mut bob = player("b", "Bob", 2);
        ended(send(&mut w, &mut bob, text));
        assert_eq!(w.connections.len(), 2);
        assert!(w.connections.get_list_of_players().iter().all(|p| p.id != "b"));
    }
}

#[test]
fn last_one_leaving_resets_the_map_not_the_environment() {
    let mut w = world();
    let mut alice = player("a", "Alice", 1);
    let mut bob = player("b", "Bob", 2);
    let mut carol = player("c", "Carol", 3);
    went_on(send(&mut w, &mut alice, "SENVdusk\n"));
    went_on(send(&mut w, &mut alice, "MAPSisland\n"));
    ended(send(&mut w, &mut alice, "QUIT\n"));
    assert_eq!(w.map, "island");
    ended(send(&mut w, &mut bob, "QUIT\n"));
    assert_eq!(w.map, "island");
    ended(send(&mut w, &mut carol, "QUIT\n"));
    assert_eq!(w.connections.len(), 0);
    assert_eq!(w.map, "");
    assert_eq!(w.env, "dusk");
}

#[test]
fn on_close_removes_announces_and_resets() {
    let mut connections = Connections::new();
    connections.add_player(player("a", "Alice", 1), channel(1));
    connections.add_player(player("b", "Bob", 2), channel(2));
    let mut map = String::from("island");
    on_close(&mut connections, &player("a", "Alice", 1), &mut map);
    assert_eq!(map, "island");
    let outgoing = connections.flush();
    assert_eq!(outgoing.len(), 1);
    assert_eq!(outgoing[0].to, "b");
    assert_eq!(outgoing[0].messages, vec![format!("PLST[{}]\n", record("Bob", "b", 2))]);
    on_close(&mut connections, &player("b", "Bob", 2), &mut map);
    assert_eq!(map, "");
    assert_eq!(connections.len(), 0);
}

#[test]
fn on_close_of_a_stranger_still_announces() {
    let mut connections = Connections::new();
    connections.add_player(player("a", "Alice", 1), channel(1));
    let mut map = String::from("island");
    on_close(&mut connections, &player("z", "Zed", 9), &mut map);
    assert_eq!(map, "island");
    assert_eq!(connections.len(), 1);
    let outgoing = connections.flush();
    assert_eq!(outgoing[0].messages, vec![format!("PLST[{}]\n", record("Alice", "a", 1))]);
}

#[test]
fn private_answer_to_an_unregistered_sender_is_reported() {
    for text in ["PING\n", "MAPSisland\n", "CHAT!admin_plox\n"] {
        let mut w = world();
        let mut zed = player("z", "Zed", 9);
        let handled = send(&mut w, &mut zed, text);
        assert!(handled.online);
        assert_eq!(handled.failure, Some(RelayError::ParticipantNotFound), "{:?}", text);
    }
}

#[test]
fn unregistered_sender_still_has_the_public_effects() {
    let mut w = world();
    let mut zed = player("z", "Zed", 9);
    let handled = send(&mut w, &mut zed, "CHATsay !admin_plox\n");
    assert_eq!(handled.failure, Some(RelayError::ParticipantNotFound));
    let notice = vec![String::from("SMSGPlayer Zed is now admin\n")];
    assert_eq!(received(&mut w), vec![notice.clone(), notice.clone(), notice]);
    let handled = send(&mut w, &mut zed, "MAPSisland\n");
    assert_eq!(handled.failure, Some(RelayError::ParticipantNotFound));
    assert_eq!(w.map, "island");
    went_on(send(&mut w, &mut zed, "CHAThello\n"));
    went_on(send(&mut w, &mut zed, "U-VP1\n"));
}

#[test]
fn main_loop_dispatches_lines() {
    let mut w = world();
    let mut bob = player("b", "Bob", 2);
    let handled = main_loop(
        Received::Line(String::from("CHAThello\n")),
        &mut w.connections,
        &mut bob,
        &mut w.map,
        &mut w.env,
    );
    went_on(handled);
    let chat = vec![String::from("CHAThello\n")];
    assert_eq!(received(&mut w), vec![chat.clone(), chat.clone(), chat]);
}

#[test]
fn main_loop_closes_on_an_empty_read() {
    let mut w = world();
    let mut bob = player("b", "Bob", 2);
    let handled = main_loop(
        Received::Line(String::new()),
        &mut w.connections,
        &mut bob,
        &mut w.map,
        &mut w.env,
    );
    ended(handled);
    assert_eq!(w.connections.len(), 2);
}

#[test]
fn main_loop_closes_on_a_failed_read() {
    let mut w = world();
    let mut bob = player("b", "Bob", 2);
    let handled =
        main_loop(Received::Failed, &mut w.connections, &mut bob, &mut w.map, &mut w.env);
    assert!(!handled.online);
    assert_eq!(handled.failure, Some(RelayError::TransportError));
    assert_eq!(w.connections.len(), 2);
    let list = vec![format!("PLST[{},{}]\n", record("Alice", "a", 1), record("Carol", "c", 3))];
    assert_eq!(received(&mut w), vec![list.clone(), list]);
    assert_eq!(w.map, "gridmap");
}

#[test]
fn failed_read_of_the_last_one_resets_the_map() {
    let mut connections = Connections::new();
    connections.add_player(player("a", "Alice", 1), channel(1));
    let mut alice = player("a", "Alice", 1);
    let mut map = String::from("island");
    let mut env = String::from("dusk");
    let handled = main_loop(Received::Failed, &mut connections, &mut alice, &mut map, &mut env);
    assert_eq!(handled.failure, Some(RelayError::TransportError));
    assert_eq!(connections.len(), 0);
    assert_eq!(map, "");
    assert_eq!(env, "dusk");
}

#[test]
fn write_failure_closes_the_session_of_the_receiver() {
    let mut connections = Connections::new();
    connections.add_player(player("a", "Alice", 1), channel(1));
    connections.add_player(player("b", "Bob", 2), channel(2));
    let mut map = String::from("island");
    on_write_failure(&mut connections, "a", &mut map);
    assert_eq!(map, "island");
    let outgoing = connections.flush();
    assert_eq!(outgoing.len(), 1);
    assert_eq!(outgoing[0].to, "b");
    assert_eq!(outgoing[0].messages, vec![format!("PLST[{}]\n", record("Bob", "b", 2))]);
    on_write_failure(&mut connections, "b", &mut map);
    assert_eq!(connections.len(), 0);
    assert_eq!(map, "");
}

#[test]
fn closing_twice_is_harmless() {
    let mut w = world();
    let bob = player("b", "Bob", 2);
    on_close(&mut w.connections, &bob, &mut w.map);
    let _ = w.connections.flush();
    on_close(&mut w.connections, &bob, &mut w.map);
    assert_eq!(w.connections.len(), 2);
    assert_eq!(w.map, "gridmap");
    let list = vec![format!("PLST[{},{}]\n", record("Alice", "a", 1), record("Carol", "c", 3))];
    assert_eq!(received(&mut w), vec![list.clone(), list]);
}

#[test]
fn quit_of_an_unregistered_sender_removes_nobody() {
    let mut w = world();
    let mut zed = player("z", "Zed", 9);
    ended(send(&mut w, &mut zed, "QUIT\n"));
    assert_eq!(w.connections.len(), 3);
    assert_eq!(w.map, "gridmap");
}

#[test]
fn environment_and_map_pass_through_other_commands() {
    let mut w = world();
    let mut alice = player("a", "Alice", 1);
    for text in ["PING\n", "CHAThi\n", "U-VP1\n", "U-VC1\n", "U-NV1\n", "C-VS1\n", "what?\n"] {
        went_on(send(&mut w, &mut alice, text));
        assert_eq!(w.map, "gridmap");
        assert_eq!(w.env, "noon");
        assert_eq!(w.connections.len(), 3);
    }
}
