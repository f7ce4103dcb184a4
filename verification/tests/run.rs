use tunnel_client::client::{ClientAction, ClientEvent};
use tunnel_client::config::{
    ClientConfig, ClientServiceConfig, Config, ServiceType, TransportType,
};
use tunnel_client::run::{run_client, ClientRun, Features, Launch, RunAction, RunEvent, RunPhase};
use tunnel_client::table::Table;

fn config(transport_type: TransportType) -> ClientConfig {
    let mut services = Table::new();
    let service = ClientServiceConfig {
        service_type: ServiceType::Tcp,
        name: "a".to_string(),
        local_addr: "127.0.0.1:80".to_string(),
        token: Some("t".to_string()),
        nodelay: None,
    };
    services.insert("a".to_string(), service);
    ClientConfig {
        remote_addr: "example.org:2333".to_string(),
        transport_type,
        heartbeat_timeout: 40,
        services,
    }
}

fn launch(transport_type: TransportType, tls: bool, noise: bool) -> Launch {
    let client = Some(config(transport_type));
    match run_client(Config { client }, Features { tls, noise }) {
        Ok(l) => l,
        Err(_) => panic!("no launch"),
    }
}

#[test]
fn a_client_needs_its_block() {
    match run_client(Config { client: None }, Features { tls: true, noise: true }) {
        Err(e) => assert_eq!(
            e.message(),
            "Try to run as a client, but the configuration is missing. Please add the `[client]` block"
        ),
        Ok(_) => panic!("no error"),
    }
}

#[test]
fn transports() {
    assert!(matches!(launch(TransportType::Tcp, false, false), Launch::OverTcp(_)));
    assert!(matches!(launch(TransportType::Tls, true, false), Launch::OverTls(_)));
    assert!(matches!(launch(TransportType::Noise, false, true), Launch::OverNoise(_)));
    assert!(matches!(launch(TransportType::Tls, false, true), Launch::NotCompiled(f) if f == "tls"));
    assert!(
        matches!(launch(TransportType::Noise, true, false), Launch::NotCompiled(f) if f == "noise")
    );
    assert!(matches!(launch(TransportType::Quic, true, true), Launch::Nothing));
}

#[test]
fn the_configuration_is_handed_on() {
    match launch(TransportType::Tcp, false, false) {
        Launch::OverTcp(c) => {
            assert_eq!(c.remote_addr, "example.org:2333");
            assert!(c.services.contains_key(&"a".to_string()));
        }
        _ => panic!("no launch"),
    }
}

#[test]
fn run_without_a_transport() {
    let mut run: ClientRun<(), u32> = ClientRun::new(config(TransportType::Tcp));
    match run.step(RunEvent::Made(Err("no socket".to_string()))) {
        RunAction::Return(Err(e)) => {
            assert_eq!(e.message(), "Failed to create the transport: no socket")
        }
        _ => panic!("no error"),
    }
    assert!(matches!(run.phase, RunPhase::Closed));
}

#[test]
fn run_from_start_to_shutdown() {
    let mut run: ClientRun<&str, u32> = ClientRun::new(config(TransportType::Tcp));
    match run.step(RunEvent::Made(Ok("tcp"))) {
        RunAction::Do { action: ClientAction::Start(channel), ended: None } => {
            assert_eq!(channel.service.name, "a");
            assert_eq!(*channel.transport, "tcp");
        }
        _ => panic!("not started"),
    }
    assert!(matches!(
        run.step(RunEvent::Client(ClientEvent::Started(1))),
        RunAction::Do { action: ClientAction::Wait, ended: None }
    ));
    match run.step(RunEvent::Client(ClientEvent::Shutdown(Ok(true)))) {
        RunAction::Do { action: ClientAction::Finish(all), .. } => {
            assert_eq!(all, vec![("a".to_string(), 1)])
        }
        _ => panic!("not finished"),
    }
    assert!(matches!(run.step(RunEvent::ShutDown), RunAction::Return(Ok(()))));
    assert!(matches!(run.phase, RunPhase::Closed));
}
