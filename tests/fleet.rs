use catalyst_follower::supervisor::{same_config, ConfigDecision, FleetConfig, NetworkConfig, Supervisor};

fn net(name: &str) -> NetworkConfig {
    NetworkConfig { network: name.to_string(), relay: format!("relay.{}:3001", name) }
}

fn config(names: &[&str]) -> FleetConfig {
    FleetConfig { networks: names.iter().map(|n| net(n)).collect(), timing_pattern: 300 }
}

fn start_all(s: &mut Supervisor) {
    while let Some(i) = s.next_to_spawn() {
        assert_eq!(i, s.running.len());
        s.worker_started();
    }
}

#[test]
fn config_change_restarts_the_whole_fleet() {
    let mut s = Supervisor::new(config(&["networkA"]));
    start_all(&mut s);
    assert_eq!(s.running, vec!["networkA".to_string()]);
    match s.on_config(Some(config(&["networkA", "networkB"]))) {
        ConfigDecision::Restart(cancelled) => assert_eq!(cancelled, vec!["networkA".to_string()]),
        other => panic!("unexpected decision {:?}", other),
    }
    assert!(s.running.is_empty());
    start_all(&mut s);
    assert_eq!(s.running, vec!["networkA".to_string(), "networkB".to_string()]);
}

#[test]
fn unchanged_config_keeps_running() {
    let mut s = Supervisor::new(config(&["preprod", "preview"]));
    start_all(&mut s);
    assert!(matches!(s.on_config(Some(config(&["preprod", "preview"]))), ConfigDecision::KeepRunning));
    assert_eq!(s.running.len(), 2);
}

#[test]
fn missing_config_is_fatal() {
    let mut s = Supervisor::new(config(&["preprod"]));
    start_all(&mut s);
    assert!(matches!(s.on_config(None), ConfigDecision::ConfigDeleted));
    assert_eq!(s.running.len(), 1);
}

#[test]
fn config_equality_covers_every_field() {
    let a = config(&["preprod"]);
    assert!(same_config(&a, &config(&["preprod"])));
    assert!(!same_config(&a, &config(&["preview"])));
    assert!(!same_config(&a, &config(&["preprod", "preview"])));
    let mut b = config(&["preprod"]);
    b.timing_pattern = 60;
    assert!(!same_config(&a, &b));
    let mut c = config(&["preprod"]);
    c.networks[0].relay = "other:3001".to_string();
    assert!(!same_config(&a, &c));
}

#[test]
fn timing_change_alone_restarts() {
    let mut s = Supervisor::new(config(&["preprod"]));
    start_all(&mut s);
    let mut c = config(&["preprod"]);
    c.timing_pattern = 0;
    assert!(matches!(s.on_config(Some(c)), ConfigDecision::Restart(v) if v.len() == 1));
    assert_eq!(s.config.timing_pattern, 0);
}
