use tunnel_client::client::{Client, ClientAction, ClientEvent, ClientPhase};
use tunnel_client::config::{
    ClientConfig, ClientServiceChange, ClientServiceConfig, ConfigChange, ServiceType,
    TransportType,
};
use tunnel_client::error::ClientError;
use tunnel_client::protocol::service_digest;
use tunnel_client::table::Table;

fn service(name: &str) -> ClientServiceConfig {
    ClientServiceConfig {
        service_type: ServiceType::Tcp,
        name: name.to_string(),
        local_addr: "127.0.0.1:80".to_string(),
        token: Some("t".to_string()),
        nodelay: None,
    }
}

fn config(transport_type: TransportType, names: &[&str]) -> ClientConfig {
    let mut services = Table::new();
    for n in names {
        services.insert(n.to_string(), service(n));
    }
    ClientConfig {
        remote_addr: "example.org:2333".to_string(),
        transport_type,
        heartbeat_timeout: 40,
        services,
    }
}

fn made<H>(config: ClientConfig) -> Client<&'static str, H> {
    match Client::from(config, Ok("tcp")) {
        Ok(client) => client,
        Err(_) => panic!("no client"),
    }
}

/// A client that has started `names` with the handles 0, 1, ...
fn running(names: &[&str]) -> Client<&'static str, u32> {
    let mut c = made(config(TransportType::Tcp, names));
    let mut a = c.begin();
    let mut next = 0;
    while let ClientAction::Start(_) = a {
        a = c.step(ClientEvent::Started(next)).0;
        next += 1;
    }
    assert!(matches!(a, ClientAction::Wait));
    c
}

fn update(change: ClientServiceChange) -> ClientEvent<u32> {
    ClientEvent::Update(Some(ConfigChange::ClientChange(change)))
}

#[test]
fn new_client_runs_nothing() {
    let c: Client<&str, u32> = made(config(TransportType::Tcp, &["a"]));
    assert_eq!(*c.transport, "tcp");
    assert_eq!(c.config.remote_addr, "example.org:2333");
    assert_eq!(c.service_handles.len(), 0);
    assert!(matches!(c.phase, ClientPhase::Idle));
}

#[test]
fn no_client_without_its_transport() {
    let made: Result<Client<(), u32>, ClientError> =
        Client::from(config(TransportType::Tcp, &["a"]), Err("no socket".to_string()));
    match made {
        Err(e) => assert_eq!(e.message(), "Failed to create the transport: no socket"),
        Ok(_) => panic!("no error"),
    }
}

#[test]
fn every_service_is_started_once() {
    let mut c: Client<&str, String> = made(config(TransportType::Tcp, &["a", "b", "c"]));
    let mut a = c.begin();
    let mut names = Vec::new();
    while let ClientAction::Start(channel) = a {
        assert_eq!(channel.digest, service_digest(&channel.service.name));
        assert_eq!(channel.remote_addr, "example.org:2333");
        assert_eq!(channel.heartbeat_timeout, 40);
        assert_eq!(*channel.transport, "tcp");
        names.push(channel.service.name.clone());
        let (next, ended) = c.step(ClientEvent::Started(channel.service.name));
        assert!(ended.is_none());
        a = next;
    }
    assert!(matches!(a, ClientAction::Wait));
    names.sort();
    assert_eq!(names, vec!["a", "b", "c"]);
    for n in names {
        assert_eq!(c.service_handles.get(&n), Some(&n));
    }
}

#[test]
fn a_client_without_services_waits() {
    let c = running(&[]);
    assert!(matches!(c.phase, ClientPhase::Waiting));
    assert_eq!(c.service_handles.len(), 0);
}

#[test]
fn added_service() {
    let mut c = running(&["a"]);
    let (a, ended) = c.step(update(ClientServiceChange::Add(service("b"))));
    assert!(ended.is_none());
    assert!(matches!(a, ClientAction::Start(channel) if channel.service.name == "b"));
    let (a, ended) = c.step(ClientEvent::Started(7));
    assert!(matches!(a, ClientAction::Wait));
    assert!(ended.is_none());
    assert_eq!(c.service_handles.get(&"b".to_string()), Some(&7));
    assert_eq!(c.service_handles.get(&"a".to_string()), Some(&0));
}

#[test]
fn replaced_service() {
    let mut c = running(&["a"]);
    c.step(update(ClientServiceChange::Add(service("a"))));
    let (_, ended) = c.step(ClientEvent::Started(7));
    assert_eq!(ended, Some(0));
    assert_eq!(c.service_handles.get(&"a".to_string()), Some(&7));
}

#[test]
fn deleted_service() {
    let mut c = running(&["a"]);
    let (a, ended) = c.step(update(ClientServiceChange::Delete("a".to_string())));
    assert!(matches!(a, ClientAction::Wait));
    assert_eq!(ended, Some(0));
    assert_eq!(c.service_handles.len(), 0);
    let (_, ended) = c.step(update(ClientServiceChange::Delete("a".to_string())));
    assert_eq!(ended, None);
}

#[test]
fn other_changes_are_ignored() {
    let mut c = running(&["a"]);
    let change = ConfigChange::Other("General".to_string());
    let (a, ended) = c.handle_hot_reload(change);
    assert!(matches!(a, ClientAction::Ignore(text) if text == "General"));
    assert!(ended.is_none());
    assert!(matches!(c.step(ClientEvent::Update(None)).0, ClientAction::Wait));
    assert_eq!(c.service_handles.len(), 1);
}

#[test]
fn shutdown_gives_up_every_handle() {
    for signal in [Ok(true), Err("lagged".to_string())] {
        let mut c = running(&["a", "b"]);
        match c.step(ClientEvent::Shutdown(signal)).0 {
            ClientAction::Finish(all) => {
                let mut names: Vec<String> = all.iter().map(|e| e.0.clone()).collect();
                names.sort();
                assert_eq!(names, vec!["a", "b"]);
                let mut handles: Vec<u32> = all.iter().map(|e| e.1).collect();
                handles.sort();
                assert_eq!(handles, vec![0, 1]);
            }
            _ => panic!("not finished"),
        }
        assert_eq!(c.service_handles.len(), 0);
        assert!(matches!(c.phase, ClientPhase::Closed));
    }
}
