use tunnyd::cli::ContainerArgs;
use tunnyd::docker::{
    check_container_validity, find_ssh_enabled_container, resolve_container_id, ContainerRecord,
    Labels, SSH_ALLOWED_USERS_LABEL_KEY, SSH_ENABLE_LABEL_KEY, SSH_HOSTNAME_LABEL_KEY,
};
use tunnyd::error::GatewayError;

fn labels(enable: Option<&str>, hostname: Option<&str>, allowed: Option<&str>) -> Labels {
    let mut labels = Labels::new();
    if let Some(v) = enable {
        labels.insert(SSH_ENABLE_LABEL_KEY.to_string(), v.to_string());
    }
    if let Some(v) = hostname {
        labels.insert(SSH_HOSTNAME_LABEL_KEY.to_string(), v.to_string());
    }
    if let Some(v) = allowed {
        labels.insert(SSH_ALLOWED_USERS_LABEL_KEY.to_string(), v.to_string());
    }
    labels
}

fn record(id: &str, labels: Option<Labels>) -> ContainerRecord {
    ContainerRecord { id: Some(id.to_string()), labels }
}

fn request(target: &str, user: Option<&str>) -> ContainerArgs {
    ContainerArgs { user: user.map(|u| u.to_string()), target: target.to_string() }
}

fn db1_for_alice_and_bob() -> Vec<ContainerRecord> {
    vec![record("c-db1", Some(labels(Some("true"), Some("db1"), Some("alice,bob"))))]
}

#[test]
fn label_keys_have_their_names() {
    assert_eq!(SSH_ENABLE_LABEL_KEY, "enable");
    assert_eq!(SSH_HOSTNAME_LABEL_KEY, "hostname");
    assert_eq!(SSH_ALLOWED_USERS_LABEL_KEY, "allowed-users");
}

#[test]
fn labels_keep_the_last_value_of_a_key() {
    let mut l = Labels::new();
    assert!(l.get("k").is_none());
    l.insert("k".to_string(), "1".to_string());
    l.insert("k".to_string(), "2".to_string());
    assert_eq!(l.get("k"), Some(&"2".to_string()));
    assert!(l.get("other").is_none());
}

#[test]
fn listed_user_resolves_to_the_record() {
    let list = db1_for_alice_and_bob();
    let found = find_ssh_enabled_container(&list, &request("db1", Some("bob")));
    match found {
        Ok(c) => assert_eq!(c.id, Some("c-db1".to_string())),
        Err(_) => panic!("bob is on the allow-list of db1"),
    }
}

#[test]
fn unlisted_user_is_not_found() {
    let list = db1_for_alice_and_bob();
    let found = find_ssh_enabled_container(&list, &request("db1", Some("carol")));
    assert!(matches!(found, Err(GatewayError::NotFound)));
}

#[test]
fn no_allow_list_admits_the_unnamed_user() {
    let list = vec![record("c-db1", Some(labels(Some("true"), Some("db1"), None)))];
    let found = find_ssh_enabled_container(&list, &request("db1", Some("")));
    match found {
        Ok(c) => assert_eq!(c.id, Some("c-db1".to_string())),
        Err(_) => panic!("a container without allow-list is unrestricted"),
    }
    assert!(find_ssh_enabled_container(&list, &request("db1", None)).is_ok());
    assert!(find_ssh_enabled_container(&list, &request("db1", Some("anyone"))).is_ok());
}

#[test]
fn empty_allow_list_is_unrestricted() {
    let l = labels(Some("true"), Some("db1"), Some(""));
    assert!(check_container_validity(&l, "db1", ""));
    assert!(check_container_validity(&l, "db1", "carol"));
}

#[test]
fn unnamed_user_never_passes_a_non_empty_allow_list() {
    for list in ["alice,bob", "alice", ",", "a,,b", " "] {
        let l = labels(Some("true"), Some("db1"), Some(list));
        assert!(!check_container_validity(&l, "db1", ""));
        let records = vec![record("c", Some(labels(Some("true"), Some("db1"), Some(list))))];
        assert!(find_ssh_enabled_container(&records, &request("db1", None)).is_err());
        assert!(find_ssh_enabled_container(&records, &request("db1", Some(""))).is_err());
    }
}

#[test]
fn validity_needs_enable_to_read_true() {
    assert!(check_container_validity(&labels(Some("true"), Some("db1"), None), "db1", "bob"));
    assert!(!check_container_validity(&labels(Some("True"), Some("db1"), None), "db1", "bob"));
    assert!(!check_container_validity(&labels(Some("false"), Some("db1"), None), "db1", "bob"));
    assert!(!check_container_validity(&labels(Some(""), Some("db1"), None), "db1", "bob"));
    assert!(!check_container_validity(&labels(None, Some("db1"), None), "db1", "bob"));
}

#[test]
fn validity_needs_the_exact_hostname() {
    let l = labels(Some("true"), Some("db1"), None);
    assert!(check_container_validity(&l, "db1", ""));
    assert!(!check_container_validity(&l, "db", ""));
    assert!(!check_container_validity(&l, "db11", ""));
    assert!(!check_container_validity(&l, "DB1", ""));
    assert!(!check_container_validity(&l, "", ""));
}

#[test]
fn absent_hostname_reads_as_empty() {
    let l = labels(Some("true"), None, None);
    assert!(check_container_validity(&l, "", "bob"));
    assert!(!check_container_validity(&l, "db1", "bob"));
}

#[test]
fn allow_list_entries_match_whole_and_exactly() {
    let l = labels(Some("true"), Some("db1"), Some("alice,bob"));
    assert!(check_container_validity(&l, "db1", "alice"));
    assert!(check_container_validity(&l, "db1", "bob"));
    assert!(!check_container_validity(&l, "db1", "ali"));
    assert!(!check_container_validity(&l, "db1", "alice,bob"));
    assert!(!check_container_validity(&l, "db1", "Bob"));
    let spaced = labels(Some("true"), Some("db1"), Some("alice, bob"));
    assert!(!check_container_validity(&spaced, "db1", "bob"));
    assert!(check_container_validity(&spaced, "db1", " bob"));
}

#[test]
fn first_eligible_container_wins() {
    let list = vec![
        record("no-labels", None),
        record("disabled", Some(labels(Some("no"), Some("db1"), None))),
        record("other-host", Some(labels(Some("true"), Some("db2"), None))),
        record("first", Some(labels(Some("true"), Some("db1"), Some("bob")))),
        record("second", Some(labels(Some("true"), Some("db1"), None))),
    ];
    let bob = find_ssh_enabled_container(&list, &request("db1", Some("bob")));
    assert_eq!(bob.ok().and_then(|c| c.id.clone()), Some("first".to_string()));
    let carol = find_ssh_enabled_container(&list, &request("db1", Some("carol")));
    assert_eq!(carol.ok().and_then(|c| c.id.clone()), Some("second".to_string()));
    let db2 = find_ssh_enabled_container(&list, &request("db2", None));
    assert_eq!(db2.ok().and_then(|c| c.id.clone()), Some("other-host".to_string()));
    assert!(find_ssh_enabled_container(&list, &request("db3", None)).is_err());
}

#[test]
fn selection_agrees_with_the_policy_on_every_record() {
    let make = || {
        vec![
            record("a", Some(labels(Some("true"), Some("x"), Some("u1,u2")))),
            record("b", None),
            record("c", Some(labels(Some("true"), Some("y"), None))),
            record("d", Some(labels(Some("true"), Some("x"), Some("")))),
            record("e", Some(labels(None, Some("x"), None))),
        ]
    };
    for target in ["x", "y", "z", ""] {
        for user in [None, Some(""), Some("u1"), Some("u2"), Some("u3")] {
            let list = make();
            let args = request(target, user);
            let user_text = user.unwrap_or("");
            let expected = list.iter().position(|r| match &r.labels {
                Some(l) => check_container_validity(l, target, user_text),
                None => false,
            });
            let found = find_ssh_enabled_container(&list, &args);
            match (found, expected) {
                (Ok(c), Some(i)) => assert_eq!(c.id, list[i].id),
                (Err(GatewayError::NotFound), None) => {}
                _ => panic!("selection and policy disagree for {:?} {:?}", target, user),
            }
        }
    }
}

#[test]
fn empty_listing_finds_nothing() {
    let list: Vec<ContainerRecord> = Vec::new();
    assert!(matches!(
        find_ssh_enabled_container(&list, &request("db1", None)),
        Err(GatewayError::NotFound)
    ));
}

#[test]
fn resolution_yields_the_identifier() {
    let list = db1_for_alice_and_bob();
    match resolve_container_id(&list, &request("db1", Some("alice"))) {
        Ok(id) => assert_eq!(id, "c-db1"),
        Err(_) => panic!("alice is on the allow-list of db1"),
    }
    assert!(matches!(
        resolve_container_id(&list, &request("db1", Some("carol"))),
        Err(GatewayError::NotFound)
    ));
}

#[test]
fn resolution_fails_on_a_record_without_identifier() {
    let list = vec![
        ContainerRecord { id: None, labels: Some(labels(Some("true"), Some("db1"), None)) },
        record("later", Some(labels(Some("true"), Some("db1"), None))),
    ];
    match resolve_container_id(&list, &request("db1", None)) {
        Err(GatewayError::EngineError(text)) => assert_eq!(text, "Container Id not found"),
        _ => panic!("the first eligible record has no identifier"),
    }
}

fn written(pairs: &[(&str, &str)]) -> Labels {
    let mut labels = Labels::new();
    for (key, value) in pairs {
        labels.insert(key.to_string(), value.to_string());
    }
    labels
}

#[test]
fn labels_written_out_admit_a_listed_user() {
    let l = written(&[("enable", "true"), ("hostname", "db1"), ("allowed-users", "alice,bob")]);
    assert!(check_container_validity(&l, "db1", "bob"));
    assert!(check_container_validity(&l, "db1", "alice"));
    assert!(!check_container_validity(&l, "db1", "carol"));
    let list = vec![ContainerRecord { id: Some("r".to_string()), labels: Some(l) }];
    match find_ssh_enabled_container(&list, &request("db1", Some("bob"))) {
        Ok(c) => {
            assert_eq!(c.id, Some("r".to_string()));
            let kept = c.labels.as_ref().expect("the record keeps its labels");
            assert_eq!(kept.get("enable"), Some(&"true".to_string()));
            assert_eq!(kept.get("hostname"), Some(&"db1".to_string()));
            assert_eq!(kept.get("allowed-users"), Some(&"alice,bob".to_string()));
        }
        Err(_) => panic!("bob is on the allow-list of db1"),
    }
    assert!(matches!(
        find_ssh_enabled_container(&list, &request("db1", Some("carol"))),
        Err(GatewayError::NotFound)
    ));
}

#[test]
fn labels_written_out_without_allow_list_admit_the_unnamed_user() {
    let l = written(&[("enable", "true"), ("hostname", "db1")]);
    assert!(check_container_validity(&l, "db1", ""));
    let list = vec![ContainerRecord { id: Some("r".to_string()), labels: Some(l) }];
    let found = find_ssh_enabled_container(&list, &request("db1", Some("")));
    assert_eq!(found.ok().and_then(|c| c.id.clone()), Some("r".to_string()));
}

#[test]
fn labels_written_out_with_empty_allow_list_admit_anyone() {
    let l = written(&[("enable", "true"), ("hostname", "db1"), ("allowed-users", "")]);
    assert!(check_container_validity(&l, "db1", "bob"));
    assert!(check_container_validity(&l, "db1", ""));
}

#[test]
fn enable_alone_serves_the_empty_target() {
    let l = written(&[("enable", "true")]);
    assert!(check_container_validity(&l, "", ""));
    assert!(!check_container_validity(&l, "db1", ""));
}

#[test]
fn labels_under_other_keys_are_not_read() {
    let l = written(&[
        ("tunnel.enable", "true"),
        ("Enable", "true"),
        ("hostname", "db1"),
    ]);
    assert!(!check_container_validity(&l, "db1", ""));
    let shadow = written(&[
        ("enable", "true"),
        ("hostname", "db1"),
        ("allowed_users", "alice"),
    ]);
    assert!(check_container_validity(&shadow, "db1", "bob"));
}
