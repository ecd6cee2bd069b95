use toy_load_balancer::server_manager::{ServerManager, Strategy};

fn servers() -> Vec<String> {
    vec!["s0".to_string(), "s1".to_string(), "s2".to_string()]
}

#[test]
fn strategy_names() {
    assert!(matches!(Strategy::from_name("RR"), Strategy::RoundRobin));
    assert!(matches!(Strategy::from_name("RN"), Strategy::Random));
    assert!(matches!(Strategy::from_name(""), Strategy::Random));
    assert!(matches!(Strategy::from_name("RRR"), Strategy::Random));
}

#[test]
fn round_robin_cycles_through_the_servers() {
    let mut m = ServerManager::new(Strategy::RoundRobin, servers());
    let got: Vec<String> = (0..7).map(|_| m.assign_server()).collect();
    assert_eq!(got, vec!["s0", "s1", "s2", "s0", "s1", "s2", "s0"]);
}

#[test]
fn random_never_picks_the_last_server() {
    let mut m = ServerManager::new(Strategy::Random, servers());
    for _ in 0..200 {
        let s = m.assign_server();
        assert!(s == "s0" || s == "s1", "got {}", s);
    }
}

#[test]
fn drawn_server_is_at_the_drawn_position() {
    let m = ServerManager::new(Strategy::Random, servers());
    assert_eq!(m.assign_drawn(1), "s1");
    assert_eq!(m.assign_drawn(0), "s0");
}

#[test]
fn defaults_draw_among_the_first_three_servers() {
    let mut m = ServerManager::with_defaults();
    for _ in 0..200 {
        let s = m.assign_server();
        assert!(
            s == "http://192.0.0.1" || s == "http://192.0.0.2" || s == "http://192.0.0.3",
            "got {}",
            s
        );
    }
}
