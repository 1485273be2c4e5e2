use crately::actors::config::{Config, PipelineConfig};
use crately::actors::keyboard_handler::{KeyInput, KeyPressed, CONTROL};
use crately::actors::server_actor::{
    crate_response, is_shutdown_key, listening_message, ActorDirectory, CrateRequest,
    ServerAction, ServerActor,
};
use crately::crate_specifier::CrateSpecifier;

fn all_actors() -> ActorDirectory {
    ActorDirectory {
        console: true,
        server: true,
        config_manager: true,
    }
}

fn port_config(port: u16) -> Config {
    Config {
        port,
        pipeline: PipelineConfig::default(),
    }
}

#[test]
fn test_server_actor_start_stop_cycle() {
    let mut server = ServerActor::new(port_config(0));
    let start = server.on_start();
    assert!(matches!(start.as_slice(), [ServerAction::Launch { port: 0 }]));
    assert!(server.is_running());
    let stop = server.on_stop(all_actors());
    assert_eq!(stop.len(), 2);
    assert!(matches!(stop[0], ServerAction::SignalShutdown));
    match &stop[1] {
        ServerAction::ConsoleSuccess(m) => assert_eq!(m, "Server stopped"),
        _ => panic!("expected a console line"),
    }
    assert!(!server.is_running());
}

#[test]
fn test_server_actor_ignores_duplicate_start() {
    let mut server = ServerActor::new(port_config(0));
    assert_eq!(server.on_start().len(), 1);
    assert!(server.on_start().is_empty());
    assert_eq!(server.on_stop(all_actors()).len(), 2);
    assert!(server.on_stop(all_actors()).is_empty());
}

#[test]
fn config_change_restarts_running_server_on_new_port() {
    let mut server = ServerActor::new(port_config(3000));
    server.on_start();
    let actions = server.on_config(port_config(4000), all_actors());
    assert_eq!(actions.len(), 3);
    assert!(matches!(actions[0], ServerAction::SignalShutdown));
    match &actions[1] {
        ServerAction::ConsoleProgress(m) => {
            assert_eq!(m, "Reloading server with new configuration...")
        }
        _ => panic!("expected progress"),
    }
    assert!(matches!(
        actions[2],
        ServerAction::Restart { delay_ms: 500, port: 4000 }
    ));
    assert_eq!(server.config().port, 4000);
    assert!(!server.is_running());
}

#[test]
fn config_change_while_stopped_only_updates() {
    let mut server = ServerActor::new(port_config(3000));
    assert!(server.on_config(port_config(5000), all_actors()).is_empty());
    assert_eq!(server.config().port, 5000);
}

#[test]
fn reload_and_stop_keys() {
    let server = ServerActor::new(port_config(3000));
    let reload = server.on_key(
        KeyPressed { key: KeyInput::Char('r'), modifiers: 0 },
        all_actors(),
    );
    assert_eq!(reload.len(), 2);
    assert!(matches!(reload[1], ServerAction::RequestConfigReload));
    let stop = server.on_key(
        KeyPressed { key: KeyInput::Char('s'), modifiers: 0 },
        all_actors(),
    );
    match &stop[0] {
        ServerAction::ConsoleProgress(m) => assert_eq!(m, "Stop requested via keyboard..."),
        _ => panic!("expected progress"),
    }
    let ctrl_r = server.on_key(
        KeyPressed { key: KeyInput::Char('r'), modifiers: CONTROL },
        all_actors(),
    );
    assert!(ctrl_r.is_empty());
    assert!(is_shutdown_key(KeyPressed { key: KeyInput::Char('q'), modifiers: 0 }));
    assert!(is_shutdown_key(KeyPressed { key: KeyInput::Char('c'), modifiers: CONTROL }));
    assert!(!is_shutdown_key(KeyPressed { key: KeyInput::Char('c'), modifiers: 0 }));
}

#[test]
fn crate_response_message() {
    let request = CrateRequest {
        specifier: CrateSpecifier::parse("serde@1.0.0").unwrap(),
        features: vec!["derive".to_string(), "std".to_string()],
    };
    let response = crate_response(&request);
    assert_eq!(response.name, "serde");
    assert_eq!(response.version, "1.0.0");
    assert_eq!(response.features, vec!["derive".to_string(), "std".to_string()]);
    assert_eq!(
        response.message,
        "Crate processing initiated for serde@1.0.0 with 2 feature(s)"
    );
    assert_eq!(
        listening_message("127.0.0.1:3000"),
        "Server listening → http://127.0.0.1:3000"
    );
}
