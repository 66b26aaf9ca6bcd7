use gold_dust_gateway::config::{load_config, BackendConfig, GoldDustConfig, DEFAULT_CONFIG_FILE};
use gold_dust_gateway::router::{
    answer_draws, answer_lowest_latency, backend_label, eligible_indices, lowest_latency,
    BackendChoice, BackendHealth, BackendKind, Router, RoutingPolicy, FAILURE_CEILING_PPM,
    NO_BACKEND_MESSAGE,
};

fn config(oxen_enabled: bool, tor_enabled: bool) -> GoldDustConfig {
    GoldDustConfig { backends: BackendConfig { oxen_enabled, tor_enabled } }
}

fn health(name: &str, kind: BackendKind, latency_us: u64, failure_ppm: u32, enabled: bool) -> BackendHealth {
    BackendHealth { name: name.to_string(), kind, latency_us, failure_ppm, enabled }
}

fn selected(h: &BackendHealth) -> BackendChoice {
    BackendChoice::Selected {
        name: h.name.clone(),
        kind: h.kind,
        latency_us: h.latency_us,
        failure_ppm: h.failure_ppm,
    }
}

fn no_backend() -> BackendChoice {
    BackendChoice::NoBackend { message: "no backend available".to_string() }
}

fn oxen_1() -> BackendHealth {
    health("oxen-node-1", BackendKind::Oxen, 60_000, 20_000, true)
}

fn oxen_2() -> BackendHealth {
    health("oxen-node-2", BackendKind::Oxen, 70_000, 30_000, true)
}

fn tor_1() -> BackendHealth {
    health("tor-exit-1", BackendKind::Tor, 250_000, 10_000, true)
}

const POLICIES: [RoutingPolicy; 2] = [RoutingPolicy::AnyEnabled, RoutingPolicy::LowestLatency];

#[test]
fn the_default_config_file_is_named() {
    assert_eq!(DEFAULT_CONFIG_FILE, "gold-dust-gateway.toml");
    assert_eq!(load_config(None), "gold-dust-gateway.toml");
}

#[test]
fn a_config_file_that_was_named_is_taken() {
    assert_eq!(load_config(Some("/etc/gateway.toml".to_string())), "/etc/gateway.toml");
    assert_eq!(load_config(Some(String::new())), "");
}

#[test]
fn labels_name_the_part_of_the_policy() {
    assert_eq!(backend_label(BackendKind::Oxen), "Oxen-first, Tor-fallback policy");
    assert_eq!(backend_label(BackendKind::Tor), "Tor fallback");
}

#[test]
fn the_constants_of_the_policy() {
    assert_eq!(FAILURE_CEILING_PPM, 50_000);
    assert_eq!(NO_BACKEND_MESSAGE, "no backend available");
}

#[test]
fn the_registry_follows_the_switches() {
    assert_eq!(Router::from_config(&config(false, false)).backend_health(), vec![]);
    assert_eq!(Router::from_config(&config(true, false)).backend_health(), vec![oxen_1(), oxen_2()]);
    assert_eq!(Router::from_config(&config(false, true)).backend_health(), vec![tor_1()]);
    assert_eq!(
        Router::from_config(&config(true, true)).backend_health(),
        vec![oxen_1(), oxen_2(), tor_1()]
    );
}

#[test]
fn a_router_is_built_with_the_policy_asked_for() {
    assert_eq!(Router::from_config(&config(true, true)).policy(), RoutingPolicy::AnyEnabled);
    for policy in POLICIES {
        let router = Router::with_policy(&config(true, true), policy);
        assert_eq!(router.policy(), policy);
        assert_eq!(router.backend_health(), vec![oxen_1(), oxen_2(), tor_1()]);
    }
}

#[test]
fn names_are_unique_within_a_registry() {
    let healths = Router::from_config(&config(true, true)).backend_health();
    for i in 0..healths.len() {
        for j in 0..i {
            assert_ne!(healths[i].name, healths[j].name);
        }
    }
}

#[test]
fn every_backend_is_enabled_with_a_failure_rate_below_one() {
    for h in Router::from_config(&config(true, true)).backend_health() {
        assert!(h.enabled);
        assert!(h.failure_ppm < 1_000_000);
        assert!(h.latency_us > 0);
    }
}

#[test]
fn the_snapshot_is_the_same_whenever_it_is_taken() {
    let router = Router::from_config(&config(true, true));
    assert_eq!(router.backend_health(), router.backend_health());
}

#[test]
fn nothing_enabled_means_no_backend() {
    for policy in POLICIES {
        let mut router = Router::with_policy(&config(false, false), policy);
        for target in ["example.com:80", "", "10.0.0.1:22"] {
            assert_eq!(router.choose_backend_for(target), no_backend());
        }
    }
    let mut router = Router::from_config(&config(false, false));
    assert_eq!(router.choose_backend_for("example.com:80"), no_backend());
}

#[test]
fn tor_alone_never_gives_an_oxen_node() {
    for policy in POLICIES {
        let mut router = Router::with_policy(&config(false, true), policy);
        for _ in 0..100 {
            assert_eq!(router.choose_backend_for("example.com:80"), selected(&tor_1()));
        }
    }
}

#[test]
fn oxen_is_preferred_to_tor() {
    let mut router = Router::from_config(&config(true, true));
    for _ in 0..100 {
        match router.choose_backend_for("example.com:80") {
            BackendChoice::Selected { kind, .. } => assert_eq!(kind, BackendKind::Oxen),
            other => panic!("expected a backend, got {:?}", other),
        }
    }
}

#[test]
fn any_enabled_draws_among_the_oxen_nodes() {
    let mut router = Router::from_config(&config(true, false));
    let mut first = 0;
    let mut second = 0;
    for _ in 0..400 {
        let choice = router.choose_backend_for("example.com:80");
        if choice == selected(&oxen_1()) {
            first += 1;
        } else if choice == selected(&oxen_2()) {
            second += 1;
        } else {
            panic!("not an Oxen node of the registry: {:?}", choice);
        }
    }
    assert_eq!(first + second, 400);
    assert!(first > 0 && second > 0);
}

#[test]
fn lowest_latency_gives_the_same_answer_every_time() {
    let mut router = Router::with_policy(&config(true, true), RoutingPolicy::LowestLatency);
    let first = router.choose_backend_for("example.com:80");
    assert_eq!(first, selected(&oxen_1()));
    for target in ["example.com:80", "other.example:443", ""] {
        assert_eq!(router.choose_backend_for(target), first);
    }
}

#[test]
fn choosing_leaves_the_registry_as_it_was() {
    for policy in POLICIES {
        let mut router = Router::with_policy(&config(true, true), policy);
        let before = router.backend_health();
        router.choose_backend_for("example.com:80");
        assert_eq!(router.backend_health(), before);
        assert_eq!(router.policy(), policy);
    }
}

#[test]
fn eligible_backends_are_the_enabled_ones_of_the_family() {
    let healths = vec![
        health("a", BackendKind::Oxen, 1, 0, true),
        health("b", BackendKind::Tor, 1, 0, true),
        health("c", BackendKind::Oxen, 1, 0, false),
        health("d", BackendKind::Oxen, 1, 999_999, true),
        health("e", BackendKind::Tor, 1, 0, false),
    ];
    assert_eq!(eligible_indices(&healths, BackendKind::Oxen), vec![0, 3]);
    assert_eq!(eligible_indices(&healths, BackendKind::Tor), vec![1]);
    assert_eq!(eligible_indices(&vec![], BackendKind::Oxen), Vec::<usize>::new());
}

#[test]
fn what_was_drawn_for_oxen_wins() {
    let healths = vec![oxen_1(), oxen_2(), tor_1()];
    assert_eq!(answer_draws(&healths, Some(&healths[1]), Some(&healths[2])), selected(&oxen_2()));
    assert_eq!(answer_draws(&healths, Some(&healths[0]), None), selected(&oxen_1()));
}

#[test]
fn what_was_drawn_for_tor_comes_second() {
    let healths = vec![oxen_1(), oxen_2(), tor_1()];
    assert_eq!(answer_draws(&healths, None, Some(&healths[2])), selected(&tor_1()));
}

#[test]
fn with_nothing_drawn_the_first_backend_is_the_fallback() {
    let healths = vec![
        health("down-1", BackendKind::Tor, 5, 900_000, false),
        health("down-2", BackendKind::Oxen, 1, 0, false),
    ];
    assert_eq!(answer_draws(&healths, None, None), selected(&healths[0]));
    assert_eq!(answer_draws(&vec![], None, None), no_backend());
}

#[test]
fn the_lowest_latency_below_the_ceiling_is_picked() {
    let healths = vec![
        health("slow", BackendKind::Oxen, 90_000, 10_000, true),
        health("flaky", BackendKind::Oxen, 10_000, 50_000, true),
        health("fast", BackendKind::Oxen, 40_000, 49_999, true),
        health("tor", BackendKind::Tor, 1_000, 0, true),
    ];
    assert_eq!(lowest_latency(&healths, BackendKind::Oxen), Some(2));
    assert_eq!(lowest_latency(&healths, BackendKind::Tor), Some(3));
    assert_eq!(answer_lowest_latency(&healths), selected(&healths[2]));
}

#[test]
fn the_ceiling_itself_rules_a_backend_out() {
    let at = vec![health("at", BackendKind::Oxen, 1, 50_000, true)];
    let below = vec![health("below", BackendKind::Oxen, 1, 49_999, true)];
    let above = vec![health("above", BackendKind::Oxen, 1, 50_001, true)];
    assert_eq!(lowest_latency(&at, BackendKind::Oxen), None);
    assert_eq!(lowest_latency(&below, BackendKind::Oxen), Some(0));
    assert_eq!(lowest_latency(&above, BackendKind::Oxen), None);
    assert_eq!(answer_lowest_latency(&at), no_backend());
}

#[test]
fn of_equal_latencies_the_first_is_picked() {
    let healths = vec![
        health("a", BackendKind::Tor, 30_000, 0, true),
        health("b", BackendKind::Oxen, 20_000, 0, true),
        health("c", BackendKind::Oxen, 20_000, 0, true),
        health("d", BackendKind::Oxen, 25_000, 0, true),
        health("e", BackendKind::Oxen, 20_000, 0, true),
    ];
    assert_eq!(lowest_latency(&healths, BackendKind::Oxen), Some(1));
    assert_eq!(answer_lowest_latency(&healths), selected(&healths[1]));
}

#[test]
fn an_oxen_node_wins_over_a_faster_tor_exit() {
    let healths = vec![
        health("tor", BackendKind::Tor, 1, 0, true),
        health("oxen", BackendKind::Oxen, 999_000, 49_999, true),
    ];
    assert_eq!(answer_lowest_latency(&healths), selected(&healths[1]));
}

#[test]
fn tor_is_the_fallback_when_no_oxen_node_is_acceptable() {
    let healths = vec![
        health("oxen", BackendKind::Oxen, 1, 60_000, true),
        health("tor-a", BackendKind::Tor, 300_000, 0, true),
        health("tor-b", BackendKind::Tor, 200_000, 0, true),
    ];
    assert_eq!(lowest_latency(&healths, BackendKind::Oxen), None);
    assert_eq!(answer_lowest_latency(&healths), selected(&healths[2]));
}

#[test]
fn lowest_latency_never_falls_back_to_a_backend_it_left_out() {
    let healths = vec![
        health("oxen", BackendKind::Oxen, 1, 50_000, true),
        health("tor", BackendKind::Tor, 1, 999_999, true),
    ];
    assert_eq!(answer_lowest_latency(&healths), no_backend());
    assert_eq!(answer_lowest_latency(&vec![]), no_backend());
}
