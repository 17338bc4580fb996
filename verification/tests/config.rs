use efm::candidate::{get_candidates, Announcement, Candidate};
use efm::config::{Config, ConfigError, Stored};
use efm::member::{is_known, Member};
use efm::time::Timestamp;

fn at(secs: i64) -> Timestamp {
    Timestamp { secs, nanos: 0 }
}

fn member(hostname: &str, version: &str, secs: i64) -> Member {
    Member::new(hostname, version, at(secs))
}

fn candidate(hostname: &str, version: &str) -> Candidate {
    Candidate { hostname: hostname.to_string(), version: version.to_string() }
}

fn fleet() -> Config {
    Config { members: vec![member("a", "1.0", 10), member("b", "1.0", 20), member("c", "1.1", 30)] }
}

#[test]
fn new_registry_is_empty() {
    assert_eq!(Config::new().members, vec![]);
    assert_eq!(Config::default().members, vec![]);
    assert!(Config::new().is_empty());
    assert!(!fleet().is_empty());
}

#[test]
fn adopt_appends_in_order() {
    let mut config = Config { members: vec![member("a", "1.0", 10)] };
    config.adopt(&vec![candidate("b", "2.0"), candidate("c", "3.0")], at(99));
    assert_eq!(
        config.members,
        vec![member("a", "1.0", 10), member("b", "2.0", 99), member("c", "3.0", 99)]
    );
}

#[test]
fn adopt_of_nothing_changes_nothing() {
    let mut config = fleet();
    config.adopt(&vec![], at(99));
    assert_eq!(config, fleet());
}

#[test]
fn adopt_takes_each_hostname_once() {
    let mut config = Config::new();
    config.adopt(
        &vec![candidate("b", "2.0"), candidate("c", "3.0"), candidate("b", "2.1"), candidate("b", "2.0")],
        at(5),
    );
    assert_eq!(config.members, vec![member("b", "2.0", 5), member("c", "3.0", 5)]);
}

#[test]
fn adopt_does_not_look_at_the_members() {
    let mut config = Config { members: vec![member("a", "1.0", 10)] };
    config.adopt(&vec![candidate("a", "2.0")], at(99));
    assert_eq!(config.members, vec![member("a", "1.0", 10), member("a", "2.0", 99)]);
}

#[test]
fn adopt_stamps_each_new_member_with_the_given_moment() {
    let mut config = Config { members: vec![member("a", "1.0", 10)] };
    let moment = Timestamp { secs: 1_714_565_096, nanos: 987_654_321 };
    config.adopt(&vec![candidate("b", "2.0"), candidate("b", "2.1"), candidate("c", "3.0")], moment);
    assert_eq!(config.members.len(), 3);
    assert_eq!(config.members[0], member("a", "1.0", 10));
    assert_eq!(config.members[1], Member::new("b", "2.0", moment));
    assert_eq!(config.members[2], Member::new("c", "3.0", moment));
}

#[test]
fn adopting_what_discovery_found_keeps_hostnames_unique() {
    let mut config = fleet();
    let announcements: Vec<Announcement> = ["b", "d", "a", "d", "e"]
        .iter()
        .map(|name| Announcement {
            hostname: format!("{}.local.", name),
            version: Some("9".to_string()),
        })
        .collect();
    let found = get_candidates(&announcements, &config.members).unwrap();
    config.adopt(&found, at(50));
    let names: Vec<&str> = config.members.iter().map(|m| m.hostname.as_str()).collect();
    assert_eq!(names, vec!["a", "b", "c", "d", "e"]);
    let again = get_candidates(&announcements, &config.members).unwrap();
    assert_eq!(again, vec![]);
}

#[test]
fn forget_removes_by_hostname() {
    let mut config = fleet();
    config.forget(&vec![member("b", "other version", 12345)]);
    assert_eq!(config.members, vec![member("a", "1.0", 10), member("c", "1.1", 30)]);
}

#[test]
fn forget_removes_every_member_with_the_hostname() {
    let mut config = Config {
        members: vec![member("a", "1", 1), member("b", "1", 2), member("a", "2", 3), member("a", "3", 4)],
    };
    config.forget(&vec![member("a", "1", 1)]);
    assert_eq!(config.members, vec![member("b", "1", 2)]);
}

#[test]
fn forget_of_several_members() {
    let mut config = fleet();
    config.forget(&vec![member("c", "1.1", 30), member("a", "1.0", 10)]);
    assert_eq!(config.members, vec![member("b", "1.0", 20)]);
    config.forget(&vec![member("b", "1.0", 20)]);
    assert!(config.is_empty());
}

#[test]
fn forget_of_a_stranger_changes_nothing() {
    let mut config = fleet();
    config.forget(&vec![member("z", "1.0", 10)]);
    assert_eq!(config, fleet());
    config.forget(&vec![]);
    assert_eq!(config, fleet());
    let mut empty = Config::new();
    empty.forget(&vec![member("a", "1.0", 10)]);
    assert!(empty.is_empty());
}

#[test]
fn forget_twice_is_forget_once() {
    let gone = vec![member("a", "1.0", 10), member("x", "1.0", 10)];
    let mut once = fleet();
    once.forget(&gone);
    let mut twice = fleet();
    twice.forget(&gone);
    twice.forget(&gone);
    assert_eq!(once, twice);
    assert_eq!(once.members, vec![member("b", "1.0", 20), member("c", "1.1", 30)]);
}

#[test]
fn update_changes_one_version() {
    let mut config = fleet();
    let done = config.update(member("b", "1.0", 20), "2.1.0".to_string());
    assert_eq!(done, Ok(()));
    assert_eq!(
        config.members,
        vec![member("a", "1.0", 10), member("b", "2.1.0", 20), member("c", "1.1", 30)]
    );
}

#[test]
fn update_finds_the_member_by_hostname_alone() {
    let mut config = fleet();
    let done = config.update(member("c", "stale", 99999), "3".to_string());
    assert_eq!(done, Ok(()));
    assert_eq!(config.members[2], member("c", "3", 30));
    assert_eq!(config.members[0], member("a", "1.0", 10));
    assert_eq!(config.members[1], member("b", "1.0", 20));
}

#[test]
fn update_of_a_stranger_is_an_error() {
    let mut config = fleet();
    let done = config.update(member("z", "1.0", 10), "2.1.0".to_string());
    assert_eq!(done, Err(ConfigError::UnknownMember { hostname: "z".to_string() }));
    assert_eq!(config, fleet());
    let mut empty = Config::new();
    assert_eq!(
        empty.update(member("a", "1.0", 10), "2".to_string()),
        Err(ConfigError::UnknownMember { hostname: "a".to_string() })
    );
}

#[test]
fn update_with_a_shared_hostname_changes_the_first() {
    let mut config = Config { members: vec![member("a", "1", 1), member("b", "1", 2), member("b", "1", 3)] };
    assert_eq!(config.update(member("b", "1", 3), "2".to_string()), Ok(()));
    assert_eq!(config.members, vec![member("a", "1", 1), member("b", "2", 2), member("b", "1", 3)]);
}

#[test]
fn load_of_a_missing_file_is_an_empty_registry() {
    assert_eq!(Config::load(Stored::Missing), Ok(Config::new()));
}

#[test]
fn load_of_a_malformed_file_is_an_error() {
    assert_eq!(Config::load(Stored::Malformed), Err(ConfigError::Malformed));
}

#[test]
fn load_takes_the_members_as_listed() {
    let listed = vec![member("b", "1", 2), member("a", "1", 1)];
    assert_eq!(Config::load(Stored::Members(listed.clone())), Ok(Config { members: listed }));
    assert_eq!(Config::load(Stored::Members(vec![])), Ok(Config::new()));
}

#[test]
fn load_accepts_members_that_share_a_hostname() {
    let listed = vec![member("a", "1", 1), member("a", "2", 2)];
    let loaded = Config::load(Stored::Members(listed.clone())).unwrap();
    assert_eq!(loaded.members, listed);
}

#[test]
fn save_hands_out_every_member_in_order() {
    assert_eq!(fleet().save(), Stored::Members(fleet().members));
    assert_eq!(Config::new().save(), Stored::Members(vec![]));
}

#[test]
fn adopted_members_come_back_from_what_was_stored() {
    let mut config = Config::new();
    config.adopt(
        &vec![candidate("esp-1", "2.0.0"), candidate("esp-2", "2.0.1")],
        Timestamp { secs: 1_714_565_096, nanos: 123_456_789 },
    );
    let stored = config.save();
    let loaded = Config::load(stored).unwrap();
    assert_eq!(loaded, config);
    assert_eq!(loaded.members[1].adopted_at, Timestamp { secs: 1_714_565_096, nanos: 123_456_789 });
}

#[test]
fn select_without_a_hostname_is_everyone() {
    assert_eq!(fleet().select(&None), fleet().members);
    assert_eq!(Config::new().select(&None), vec![]);
}

#[test]
fn select_with_a_hostname_is_that_member() {
    assert_eq!(fleet().select(&Some("b".to_string())), vec![member("b", "1.0", 20)]);
    assert_eq!(fleet().select(&Some("z".to_string())), vec![]);
    let twins = Config { members: vec![member("a", "1", 1), member("b", "1", 2), member("a", "2", 3)] };
    assert_eq!(twins.select(&Some("a".to_string())), vec![member("a", "1", 1), member("a", "2", 3)]);
}

#[test]
fn position_and_membership() {
    let config = fleet();
    assert_eq!(config.position(&"a".to_string()), Some(0));
    assert_eq!(config.position(&"c".to_string()), Some(2));
    assert_eq!(config.position(&"z".to_string()), None);
    assert!(config.has_member(&"b".to_string()));
    assert!(!config.has_member(&"1.0".to_string()));
    assert!(is_known(&config.members, &"c".to_string()));
    assert!(!is_known(&vec![], &"c".to_string()));
}

#[test]
fn registry_clone_is_equal() {
    assert_eq!(fleet().clone(), fleet());
    assert_eq!(Config::new().clone(), Config::new());
}
