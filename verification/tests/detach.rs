use netns_bridge::bridge::Core;
use netns_bridge::detach::{DetachAction, DetachSession};
use netns_bridge::types::{
    find_entry, names_are_distinct, put_entry, CoreError, Event, Network, NetworkOptions,
    PerNetworkOptions,
};

const NETNS: &str = "/run/netns/test";

fn options(ifname: &str) -> PerNetworkOptions {
    PerNetworkOptions { interface_name: ifname.to_string(), static_ips: vec![] }
}

fn network(bridge: &str) -> Network {
    Network { network_interface: bridge.to_string(), subnets: vec![] }
}

fn two_networks() -> NetworkOptions {
    NetworkOptions {
        networks: vec![
            ("backend".to_string(), options("eth1")),
            ("frontend".to_string(), options("eth0")),
        ],
        network_info: vec![
            ("frontend".to_string(), network("br0")),
            ("backend".to_string(), network("br1")),
        ],
    }
}

fn ok() -> Event {
    Event::Completed(String::new())
}

fn started() -> DetachSession {
    Core::remove_interface_per_podman_network(&two_networks(), NETNS).unwrap()
}

#[test]
fn detach_removes_each_interface_once_in_order() {
    let mut session = started();
    assert_eq!(session.netns, NETNS);
    assert_eq!(session.interfaces, vec!["eth1".to_string(), "eth0".to_string()]);
    let mut asked = Vec::new();
    let mut removed = Vec::new();
    loop {
        let action = session.action();
        asked.push(action);
        match action {
            DetachAction::Finish => break,
            DetachAction::EnterNamespace { index } => {
                assert_eq!(session.pending_interface(), Some(&session.interfaces[index]));
            }
            DetachAction::Remove { index } => {
                assert_eq!(session.pending_interface(), Some(&session.interfaces[index]));
                removed.push(session.interfaces[index].clone());
            }
        }
        session = session.advance(ok());
    }
    assert_eq!(
        asked,
        vec![
            DetachAction::EnterNamespace { index: 0 },
            DetachAction::Remove { index: 0 },
            DetachAction::EnterNamespace { index: 1 },
            DetachAction::Remove { index: 1 },
            DetachAction::Finish,
        ]
    );
    assert_eq!(removed, vec!["eth1".to_string(), "eth0".to_string()]);
    assert_eq!(session.pending_interface(), None);
    assert_eq!(session.into_result(), Some(Ok(())));
}

#[test]
fn detach_namespace_that_cannot_be_opened_is_a_resource_error() {
    let session = started();
    assert_eq!(session.action(), DetachAction::EnterNamespace { index: 0 });
    let session = session.advance(Event::Failed("no such file".to_string()));
    assert_eq!(session.action(), DetachAction::Finish);
    assert_eq!(session.removed, 0);
    assert!(!session.entered);
    let later = session.clone().advance(ok());
    assert_eq!(later, session);
    assert_eq!(
        session.into_result(),
        Some(Err(CoreError::NamespaceOpen {
            netns: NETNS.to_string(),
            cause: "no such file".to_string(),
        }))
    );
}

#[test]
fn detach_namespace_that_cannot_be_opened_for_the_second_interface() {
    let session = started().advance(ok()).advance(ok());
    assert_eq!(session.removed, 1);
    assert_eq!(session.action(), DetachAction::EnterNamespace { index: 1 });
    let session = session.advance(Event::Failed("gone".to_string()));
    assert_eq!(session.removed, 1);
    assert_eq!(
        session.into_result(),
        Some(Err(CoreError::NamespaceOpen { netns: NETNS.to_string(), cause: "gone".to_string() }))
    );
}

#[test]
fn detach_stops_at_the_first_failed_removal() {
    let session = started().advance(ok());
    assert_eq!(session.action(), DetachAction::Remove { index: 0 });
    let session = session.advance(Event::Failed("no such device".to_string()));
    assert_eq!(session.action(), DetachAction::Finish);
    assert_eq!(session.removed, 0);
    let later = session.clone().advance(ok());
    assert_eq!(later, session);
    assert_eq!(
        session.into_result(),
        Some(Err(CoreError::Remove {
            ifname: "eth1".to_string(),
            netns: NETNS.to_string(),
            cause: "no such device".to_string(),
        }))
    );
}

#[test]
fn detach_failure_of_the_second_removal_names_the_second_interface() {
    let session = started().advance(ok()).advance(ok()).advance(ok());
    assert_eq!(session.action(), DetachAction::Remove { index: 1 });
    let session = session.advance(Event::Failed("busy".to_string()));
    assert_eq!(session.removed, 1);
    assert_eq!(
        session.into_result(),
        Some(Err(CoreError::Remove {
            ifname: "eth0".to_string(),
            netns: NETNS.to_string(),
            cause: "busy".to_string(),
        }))
    );
}

#[test]
fn detach_worker_death_is_a_worker_failure() {
    let session = started().advance(Event::WorkerDied("panicked".to_string()));
    assert_eq!(session.action(), DetachAction::Finish);
    let error = session.into_result().unwrap().unwrap_err();
    assert!(error.is_worker_failure());
    assert_eq!(
        error,
        CoreError::WorkerFailed { netns: NETNS.to_string(), cause: "panicked".to_string() }
    );
    let inside = started().advance(ok()).advance(Event::WorkerDied("killed".to_string()));
    assert_eq!(
        inside.into_result(),
        Some(Err(CoreError::WorkerFailed {
            netns: NETNS.to_string(),
            cause: "killed".to_string(),
        }))
    );
}

#[test]
fn detach_unfinished_session_has_no_result() {
    assert_eq!(started().into_result(), None);
    assert_eq!(started().advance(ok()).into_result(), None);
    assert_eq!(started().advance(ok()).advance(ok()).advance(ok()).into_result(), None);
}

#[test]
fn detach_of_nothing_succeeds_at_once() {
    let opts = NetworkOptions { networks: vec![], network_info: vec![] };
    let session: DetachSession =
        Core::remove_interface_per_podman_network(&opts, NETNS).unwrap();
    assert!(session.interfaces.is_empty());
    assert_eq!(session.action(), DetachAction::Finish);
    assert_eq!(session.into_result(), Some(Ok(())));
}

#[test]
fn detach_removes_the_interface_of_a_network_without_description() {
    let opts =
        NetworkOptions { networks: vec![("a".to_string(), options("eth0"))], network_info: vec![] };
    let session = Core::remove_interface_per_podman_network(&opts, NETNS).unwrap();
    assert_eq!(session.interfaces, vec!["eth0".to_string()]);
    assert_eq!(session.action(), DetachAction::EnterNamespace { index: 0 });
    let session = session.advance(ok());
    assert_eq!(session.action(), DetachAction::Remove { index: 0 });
    assert_eq!(session.clone().into_result(), None);
    assert_eq!(session.advance(ok()).into_result(), Some(Ok(())));
}

#[test]
fn detach_removes_every_named_interface_described_or_not() {
    let mut opts = two_networks();
    opts.networks.push(("other".to_string(), options("eth9")));
    let session = Core::remove_interface_per_podman_network(&opts, NETNS).unwrap();
    assert_eq!(
        session.interfaces,
        vec!["eth1".to_string(), "eth0".to_string(), "eth9".to_string()]
    );
}

#[test]
fn detach_network_without_parameters_is_refused() {
    let mut opts = two_networks();
    opts.network_info.push(("storage".to_string(), network("br2")));
    opts.network_info.push(("more".to_string(), network("br3")));
    let r = Core::remove_interface_per_podman_network(&opts, NETNS);
    assert_eq!(r, Err(CoreError::MissingNetworkOptions { network: "storage".to_string() }));
    assert!(r.unwrap_err().is_configuration());
}

#[test]
fn find_entry_takes_the_first_entry_of_the_name() {
    let networks = vec![
        ("a".to_string(), options("eth0")),
        ("b".to_string(), options("eth1")),
        ("a".to_string(), options("eth2")),
    ];
    assert_eq!(find_entry(&networks, &"a".to_string()), Some(0));
    assert_eq!(find_entry(&networks, &"b".to_string()), Some(1));
    assert_eq!(find_entry(&networks, &"c".to_string()), None);
    assert_eq!(find_entry(&Vec::<(String, PerNetworkOptions)>::new(), &"a".to_string()), None);
}

#[test]
fn names_are_distinct_finds_a_repeated_name() {
    let entry = |name: &str| (name.to_string(), 0u8);
    assert!(names_are_distinct(&Vec::<(String, u8)>::new()));
    assert!(names_are_distinct(&vec![entry("a")]));
    assert!(names_are_distinct(&vec![entry("a"), entry("b"), entry("c")]));
    assert!(!names_are_distinct(&vec![entry("a"), entry("a")]));
    assert!(!names_are_distinct(&vec![entry("a"), entry("b"), entry("a")]));
    assert!(!names_are_distinct(&vec![entry("a"), entry("b"), entry("c"), entry("c")]));
}

#[test]
fn network_options_validity_is_one_entry_per_name() {
    assert!(two_networks().is_valid());
    assert!(NetworkOptions::new().is_valid());
    let mut twice = two_networks();
    twice.network_info.push(("frontend".to_string(), network("br5")));
    assert!(!twice.is_valid());
    let mut twice = two_networks();
    twice.networks.push(("backend".to_string(), options("eth7")));
    assert!(!twice.is_valid());
}

#[test]
fn put_entry_replaces_or_appends() {
    let mut entries: Vec<(String, u8)> = Vec::new();
    put_entry(&mut entries, "a".to_string(), 1);
    put_entry(&mut entries, "b".to_string(), 2);
    put_entry(&mut entries, "a".to_string(), 3);
    assert_eq!(entries, vec![("a".to_string(), 3), ("b".to_string(), 2)]);
}

#[test]
fn network_options_hold_one_entry_per_name() {
    let mut opts = NetworkOptions::new();
    assert!(opts.networks.is_empty() && opts.network_info.is_empty());
    opts.insert_network("frontend".to_string(), options("eth0"));
    opts.insert_network("backend".to_string(), options("eth1"));
    opts.insert_network("frontend".to_string(), options("eth5"));
    opts.insert_network_info("backend".to_string(), network("br1"));
    opts.insert_network_info("frontend".to_string(), network("br0"));
    opts.insert_network_info("backend".to_string(), network("br9"));
    assert_eq!(opts.networks.len(), 2);
    assert_eq!(opts.network_info.len(), 2);
    assert_eq!(opts.networks[0], ("frontend".to_string(), options("eth5")));
    assert_eq!(opts.network_info[0], ("backend".to_string(), network("br9")));
    assert!(opts.is_valid());
    let session = Core::remove_interface_per_podman_network(&opts, NETNS).unwrap();
    assert_eq!(session.interfaces, vec!["eth5".to_string(), "eth1".to_string()]);
}
