use switchboard_sfu::extip::{CandidateType, ExternalIpResolver};

#[test]
fn resolver_maps_the_outside_address_to_every_host() {
    let mut resolver = ExternalIpResolver::new();
    assert_eq!(resolver.on_candidate("10.0.0.1".to_string(), CandidateType::Host), None);
    assert_eq!(resolver.on_candidate("192.168.1.5".to_string(), CandidateType::Host), None);
    assert_eq!(resolver.host_count(), 2);
    let maps = resolver.on_candidate("203.0.113.9".to_string(), CandidateType::ServerReflexive);
    assert_eq!(
        maps,
        Some(vec!["203.0.113.9/10.0.0.1".to_string(), "203.0.113.9/192.168.1.5".to_string()])
    );
    assert_eq!(resolver.host_count(), 2);
}

#[test]
fn resolver_without_hosts_maps_nothing() {
    let mut resolver = ExternalIpResolver::new();
    assert_eq!(resolver.host_count(), 0);
    assert_eq!(
        resolver.on_candidate("203.0.113.9".to_string(), CandidateType::ServerReflexive),
        Some(Vec::new())
    );
}

#[test]
fn resolver_passes_over_other_candidates() {
    let mut resolver = ExternalIpResolver::new();
    for kind in [CandidateType::Unspecified, CandidateType::PeerReflexive, CandidateType::Relay] {
        assert_eq!(resolver.on_candidate("198.51.100.1".to_string(), kind), None);
    }
    assert_eq!(resolver.host_count(), 0);
    resolver.on_candidate("10.0.0.1".to_string(), CandidateType::Host);
    assert_eq!(
        resolver.on_candidate("203.0.113.9".to_string(), CandidateType::ServerReflexive),
        Some(vec!["203.0.113.9/10.0.0.1".to_string()])
    );
}
