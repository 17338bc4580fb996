use efm::candidate::{
    drop_known, first_seen, get_candidates, has_host, resolve, Announcement, Candidate, Collector,
    DiscoveryError, DiscoveryEvent, LOCAL_DOMAIN, SERVICE_BROWSE_DURATION_SEC, SERVICE_NAME,
    VERSION_PROPERTY,
};
use efm::member::Member;
use efm::time::Timestamp;

fn heard(hostname: &str, version: &str) -> Announcement {
    Announcement { hostname: hostname.to_string(), version: Some(version.to_string()) }
}

fn mute(hostname: &str) -> Announcement {
    Announcement { hostname: hostname.to_string(), version: None }
}

fn candidate(hostname: &str, version: &str) -> Candidate {
    Candidate { hostname: hostname.to_string(), version: version.to_string() }
}

fn member(hostname: &str, version: &str) -> Member {
    Member::new(hostname, version, Timestamp { secs: 1_700_000_000, nanos: 0 })
}

#[test]
fn discovery_constants() {
    assert_eq!(SERVICE_NAME, "_efm._tcp.local.");
    assert_eq!(SERVICE_BROWSE_DURATION_SEC, 1);
    assert_eq!(LOCAL_DOMAIN, ".local.");
    assert_eq!(VERSION_PROPERTY, "version");
}

#[test]
fn candidates_carry_hostname_and_version() {
    let announcements = vec![heard("esp-1.local.", "2.0.0"), heard("esp-2.local.", "1.9.3")];
    let found = get_candidates(&announcements, &vec![]);
    assert_eq!(found, Ok(vec![candidate("esp-1", "2.0.0"), candidate("esp-2", "1.9.3")]));
}

#[test]
fn empty_window_is_an_empty_list() {
    assert_eq!(get_candidates(&vec![], &vec![]), Ok(vec![]));
    assert_eq!(get_candidates(&vec![], &vec![member("esp-1", "1")]), Ok(vec![]));
}

#[test]
fn device_resolved_twice_appears_once() {
    let announcements = vec![
        heard("esp-1.local.", "2.0.0"),
        heard("esp-2.local.", "1.0.0"),
        heard("esp-1.local.", "2.0.1"),
        heard("esp-1.local.", "2.0.0"),
    ];
    let found = get_candidates(&announcements, &vec![]);
    assert_eq!(found, Ok(vec![candidate("esp-1", "2.0.0"), candidate("esp-2", "1.0.0")]));
}

#[test]
fn adopted_devices_are_not_candidates() {
    let announcements =
        vec![heard("esp-1.local.", "2.0.0"), heard("esp-2.local.", "2.0.0"), heard("esp-3.local.", "2.0.0")];
    let members = vec![member("esp-2", "1.0.0"), member("esp-9", "1.0.0")];
    let found = get_candidates(&announcements, &members);
    assert_eq!(found, Ok(vec![candidate("esp-1", "2.0.0"), candidate("esp-3", "2.0.0")]));
}

#[test]
fn all_devices_adopted_leaves_nothing() {
    let announcements = vec![heard("esp-1.local.", "2.0.0"), heard("esp-1.local.", "2.0.0")];
    assert_eq!(get_candidates(&announcements, &vec![member("esp-1", "0.1")]), Ok(vec![]));
}

#[test]
fn names_that_differ_only_by_the_domain_are_one_device() {
    let announcements = vec![heard("esp-1.local.", "2.0.0"), heard("esp-1", "3.0.0")];
    assert_eq!(get_candidates(&announcements, &vec![]), Ok(vec![candidate("esp-1", "2.0.0")]));
}

#[test]
fn only_the_domain_at_the_end_is_stripped() {
    let announcements = vec![heard("a.local.b.local.", "1"), heard("plain", "2"), heard("x.local", "3")];
    let found = get_candidates(&announcements, &vec![]);
    assert_eq!(
        found,
        Ok(vec![candidate("a.local.b", "1"), candidate("plain", "2"), candidate("x.local", "3")])
    );
}

#[test]
fn announcement_without_version_fails_the_window() {
    let announcements = vec![heard("esp-1.local.", "2.0.0"), mute("esp-2.local."), mute("esp-3.local.")];
    assert_eq!(
        get_candidates(&announcements, &vec![]),
        Err(DiscoveryError::MissingVersion { hostname: "esp-2".to_string() })
    );
}

#[test]
fn announcement_without_version_fails_even_for_a_member() {
    let announcements = vec![mute("esp-1.local.")];
    assert_eq!(
        get_candidates(&announcements, &vec![member("esp-1", "1")]),
        Err(DiscoveryError::MissingVersion { hostname: "esp-1".to_string() })
    );
}

#[test]
fn empty_version_record_is_a_version() {
    let announcements = vec![heard("esp-1.local.", "")];
    assert_eq!(get_candidates(&announcements, &vec![]), Ok(vec![candidate("esp-1", "")]));
}

#[test]
fn discovered_lists_are_fresh_and_without_repeats() {
    let names = ["a", "b", "a", "c", "b", "d", "a", "e"];
    let announcements: Vec<Announcement> =
        names.iter().map(|name| heard(&format!("{}.local.", name), "1")).collect();
    let members = vec![member("b", "1"), member("e", "1"), member("z", "1")];
    let found = get_candidates(&announcements, &members).unwrap();
    for (i, first) in found.iter().enumerate() {
        assert!(!members.iter().any(|known| known.hostname == first.hostname));
        for second in found.iter().skip(i + 1) {
            assert_ne!(first.hostname, second.hostname);
        }
    }
    assert_eq!(found, vec![candidate("a", "1"), candidate("c", "1"), candidate("d", "1")]);
}

#[test]
fn resolve_maps_each_announcement() {
    let announcements = vec![heard("esp-1.local.", "2"), heard("esp-1.local.", "3")];
    assert_eq!(resolve(&announcements), Ok(vec![candidate("esp-1", "2"), candidate("esp-1", "3")]));
    assert_eq!(resolve(&vec![]), Ok(vec![]));
    assert_eq!(
        resolve(&vec![mute("x.local.")]),
        Err(DiscoveryError::MissingVersion { hostname: "x".to_string() })
    );
}

#[test]
fn first_seen_keeps_first_sightings_in_order() {
    let list = vec![
        candidate("b", "1"),
        candidate("a", "1"),
        candidate("b", "2"),
        candidate("c", "1"),
        candidate("a", "3"),
    ];
    assert_eq!(first_seen(&list), vec![candidate("b", "1"), candidate("a", "1"), candidate("c", "1")]);
    assert_eq!(first_seen(&vec![]), vec![]);
}

#[test]
fn drop_known_keeps_repeats_of_strangers() {
    let list = vec![candidate("a", "1"), candidate("b", "1"), candidate("a", "2")];
    let members = vec![member("b", "7")];
    assert_eq!(drop_known(&list, &members), vec![candidate("a", "1"), candidate("a", "2")]);
    assert_eq!(drop_known(&list, &vec![]), list);
}

#[test]
fn has_host_looks_at_hostnames_only() {
    let list = vec![candidate("a", "1"), candidate("b", "2")];
    assert!(has_host(&list, &"a".to_string()));
    assert!(has_host(&list, &"b".to_string()));
    assert!(!has_host(&list, &"1".to_string()));
    assert!(!has_host(&vec![], &"a".to_string()));
}

#[test]
fn collector_keeps_resolved_announcements_in_order() {
    let mut collector = Collector::new();
    assert_eq!(collector.announcements(), &vec![]);
    collector.observe(DiscoveryEvent::Other);
    collector.observe(DiscoveryEvent::Resolved(heard("esp-2.local.", "1")));
    collector.observe(DiscoveryEvent::Other);
    collector.observe(DiscoveryEvent::Resolved(heard("esp-1.local.", "1")));
    collector.observe(DiscoveryEvent::Resolved(heard("esp-2.local.", "1")));
    assert_eq!(
        collector.announcements(),
        &vec![heard("esp-2.local.", "1"), heard("esp-1.local.", "1"), heard("esp-2.local.", "1")]
    );
}

#[test]
fn collector_yields_the_candidates_of_its_window() {
    let mut collector = Collector::new();
    assert_eq!(collector.candidates(&vec![]), Ok(vec![]));
    collector.observe(DiscoveryEvent::Resolved(heard("esp-2.local.", "1")));
    collector.observe(DiscoveryEvent::Resolved(heard("esp-1.local.", "2")));
    collector.observe(DiscoveryEvent::Resolved(heard("esp-2.local.", "3")));
    assert_eq!(
        collector.candidates(&vec![member("esp-1", "2")]),
        Ok(vec![candidate("esp-2", "1")])
    );
    collector.observe(DiscoveryEvent::Resolved(mute("esp-4.local.")));
    assert_eq!(
        collector.candidates(&vec![]),
        Err(DiscoveryError::MissingVersion { hostname: "esp-4".to_string() })
    );
}

#[test]
fn candidate_default_and_clone() {
    let empty = Candidate::default();
    assert_eq!(empty, candidate("", ""));
    let one = candidate("esp-1", "2.0.0");
    assert_eq!(one.clone(), one);
    let said = heard("esp-1.local.", "2.0.0");
    assert_eq!(said.clone(), said);
    assert_eq!(mute("x").clone(), mute("x"));
}
