use session_relay::player::Player;

#[test]
fn new_keeps_the_five_fields() {
    let p = Player::new(
        String::from("192.168.0.7"),
        30813,
        String::from("Alice"),
        String::from("id-1"),
        String::from("17"),
    );
    assert_eq!(p.remote_address, "192.168.0.7");
    assert_eq!(p.remote_port, 30813);
    assert_eq!(p.nickname, "Alice");
    assert_eq!(p.id, "id-1");
    assert_eq!(p.current_veh_id, "17");
}

#[test]
fn copy_has_the_same_fields() {
    let p = Player::new(
        String::from("192.168.0.7"),
        30813,
        String::from("Alice"),
        String::from("id-1"),
        String::from("17"),
    );
    let q = Player::copy(&p);
    assert_eq!(q.remote_address, p.remote_address);
    assert_eq!(q.remote_port, p.remote_port);
    assert_eq!(q.nickname, p.nickname);
    assert_eq!(q.id, p.id);
    assert_eq!(q.current_veh_id, p.current_veh_id);
}

#[test]
fn eq_looks_at_the_id_alone() {
    let a = Player::new(
        String::from("192.168.0.7"),
        1,
        String::from("Alice"),
        String::from("same"),
        String::from("0"),
    );
    let b = Player::new(
        String::from("10.1.1.1"),
        2,
        String::from("Bob"),
        String::from("same"),
        String::from("9"),
    );
    let c = Player::new(
        String::from("192.168.0.7"),
        1,
        String::from("Alice"),
        String::from("other"),
        String::from("0"),
    );
    assert!(Player::eq(&a, &b));
    assert!(!Player::eq(&a, &c));
    assert!(a == b);
    assert!(a != c);
}
