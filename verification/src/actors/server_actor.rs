//! The HTTP server's life cycle and the crate submission endpoint.
//!
//! The server accepts `POST /crate` on `127.0.0.1:<port>`. It is started and
//! stopped on request (a second start or a stop of a stopped server is
//! ignored), restarted with the new port when the configuration changes
//! while it runs, and reacts to the `r` (reload the configuration) and `s`
//! (stop requested) keys. What is sent where is decided here; the listening
//! socket and the messages are handled by the caller.

use vstd::prelude::*;
use vstd::string::StringExecFns;

use crate::actors::config::Config;
use crate::actors::keyboard_handler::{KeyInput, KeyPressed, CONTROL};
use crate::crate_specifier::{specifier_text, version_text, CrateSpecifier, CrateSpecifierView};
use crate::text::{clone_strings, decimal, push_decimal, strings_view};

verus! {

/// Which of the service's actors are registered.
#[derive(Debug, Clone, Copy, PartialEq, Eq, Structural)]
pub struct ActorDirectory {
    pub console: bool,
    pub server: bool,
    pub config_manager: bool,
}

/// What the server asks for in reaction to a request.
#[derive(Debug)]
pub enum ServerAction {
    /// Bind `127.0.0.1:<port>` and serve `POST /crate` until shut down.
    Launch { port: u16 },
    /// Tell the running server to shut down gracefully.
    SignalShutdown,
    /// Show a success line on the console.
    ConsoleSuccess(String),
    /// Show a progress line on the console.
    ConsoleProgress(String),
    /// Ask the configuration manager to reload the configuration.
    RequestConfigReload,
    /// Wait `delay_ms` milliseconds, start the server again, and announce
    /// that it was reloaded on `port`.
    Restart { delay_ms: u64, port: u16 },
}

/// The mathematical content of a [`ServerAction`].
pub enum ServerActionView {
    Launch { port: u16 },
    SignalShutdown,
    ConsoleSuccess(Seq<char>),
    ConsoleProgress(Seq<char>),
    RequestConfigReload,
    Restart { delay_ms: u64, port: u16 },
}

impl View for ServerAction {
    type V = ServerActionView;

    open spec fn view(&self) -> ServerActionView {
        match self {
            ServerAction::Launch { port } => ServerActionView::Launch { port: *port },
            ServerAction::SignalShutdown => ServerActionView::SignalShutdown,
            ServerAction::ConsoleSuccess(m) => ServerActionView::ConsoleSuccess(m@),
            ServerAction::ConsoleProgress(m) => ServerActionView::ConsoleProgress(m@),
            ServerAction::RequestConfigReload => ServerActionView::RequestConfigReload,
            ServerAction::Restart { delay_ms, port } => ServerActionView::Restart {
                delay_ms: *delay_ms,
                port: *port,
            },
        }
    }
}

pub open spec fn server_actions_view(v: Seq<ServerAction>) -> Seq<ServerActionView> {
    Seq::new(v.len(), |i: int| v[i]@)
}

/// `seq![a]` when `cond` holds, otherwise nothing.
pub open spec fn when(cond: bool, a: ServerActionView) -> Seq<ServerActionView> {
    if cond {
        seq![a]
    } else {
        Seq::empty()
    }
}

/// The actions of a key press.
pub open spec fn key_actions(key: KeyPressed, dir: ActorDirectory) -> Seq<ServerActionView> {
    if key.modifiers == 0 && key.key == KeyInput::Char('r') {
        when(
            dir.console,
            ServerActionView::ConsoleProgress("Reload requested - reloading configuration..."@),
        ) + when(dir.config_manager, ServerActionView::RequestConfigReload)
    } else if key.modifiers == 0 && key.key == KeyInput::Char('s') {
        when(dir.console, ServerActionView::ConsoleProgress("Stop requested via keyboard..."@))
    } else {
        Seq::empty()
    }
}

/// The server's state: its configuration and whether it runs.
pub struct ServerActor {
    config: Config,
    is_running: bool,
}

impl ServerActor {
    pub closed spec fn spec_config(&self) -> Config {
        self.config
    }

    pub closed spec fn spec_running(&self) -> bool {
        self.is_running
    }

    /// A server that is not running yet.
    pub fn new(config: Config) -> (s: Self)
        ensures
            s.spec_config() == config,
            !s.spec_running(),
    {
        ServerActor { config, is_running: false }
    }

    /// The configuration.
    pub fn config(&self) -> (c: &Config)
        ensures
            *c == self.spec_config(),
    {
        &self.config
    }

    /// Whether the server runs.
    pub fn is_running(&self) -> (b: bool)
        ensures
            b == self.spec_running(),
    {
        self.is_running
    }

    /// A start request: a stopped server is launched on the configured port;
    /// a running one ignores it.
    pub fn on_start(&mut self) -> (actions: Vec<ServerAction>)
        ensures
            final(self).spec_running(),
            final(self).spec_config() == old(self).spec_config(),
            server_actions_view(actions@) == if old(self).spec_running() {
                Seq::<ServerActionView>::empty()
            } else {
                seq![ServerActionView::Launch { port: old(self).spec_config().port }]
            },
    {
        let mut actions: Vec<ServerAction> = Vec::new();
        if !self.is_running {
            actions.push(ServerAction::Launch { port: self.config.port });
            self.is_running = true;
        }
        assert(server_actions_view(actions@) =~= if old(self).spec_running() {
            Seq::<ServerActionView>::empty()
        } else {
            seq![ServerActionView::Launch { port: old(self).spec_config().port }]
        });
        actions
    }

    /// A stop request: a running server is shut down (and the console told);
    /// a stopped one ignores it.
    pub fn on_stop(&mut self, dir: ActorDirectory) -> (actions: Vec<ServerAction>)
        ensures
            !final(self).spec_running(),
            final(self).spec_config() == old(self).spec_config(),
            server_actions_view(actions@) == if old(self).spec_running() {
                seq![ServerActionView::SignalShutdown] + when(
                    dir.console,
                    ServerActionView::ConsoleSuccess("Server stopped"@),
                )
            } else {
                Seq::<ServerActionView>::empty()
            },
    {
        let mut actions: Vec<ServerAction> = Vec::new();
        if self.is_running {
            actions.push(ServerAction::SignalShutdown);
            self.is_running = false;
            if dir.console {
                actions.push(ServerAction::ConsoleSuccess(String::from_str("Server stopped")));
            }
        }
        assert(server_actions_view(actions@) =~= if old(self).spec_running() {
            seq![ServerActionView::SignalShutdown] + when(
                dir.console,
                ServerActionView::ConsoleSuccess("Server stopped"@),
            )
        } else {
            Seq::<ServerActionView>::empty()
        });
        actions
    }

    /// A new configuration: it replaces the current one; a running server is
    /// shut down and, when the console and the server are registered,
    /// restarted after half a second on the new port.
    pub fn on_config(&mut self, config: Config, dir: ActorDirectory) -> (actions: Vec<ServerAction>)
        ensures
            !final(self).spec_running(),
            final(self).spec_config() == config,
            server_actions_view(actions@) == if old(self).spec_running() {
                seq![ServerActionView::SignalShutdown] + if dir.console && dir.server {
                    seq![
                        ServerActionView::ConsoleProgress(
                            "Reloading server with new configuration..."@,
                        ),
                        ServerActionView::Restart { delay_ms: 500, port: config.port },
                    ]
                } else {
                    Seq::<ServerActionView>::empty()
                }
            } else {
                Seq::<ServerActionView>::empty()
            },
    {
        let was_running = self.is_running;
        let port = config.port;
        let mut actions: Vec<ServerAction> = Vec::new();
        if self.is_running {
            actions.push(ServerAction::SignalShutdown);
            self.is_running = false;
        }
        self.config = config;
        if was_running && dir.console && dir.server {
            actions.push(
                ServerAction::ConsoleProgress(
                    String::from_str("Reloading server with new configuration..."),
                ),
            );
            actions.push(ServerAction::Restart { delay_ms: 500, port });
        }
        assert(server_actions_view(actions@) =~= if old(self).spec_running() {
            seq![ServerActionView::SignalShutdown] + if dir.console && dir.server {
                seq![
                    ServerActionView::ConsoleProgress("Reloading server with new configuration..."@),
                    ServerActionView::Restart { delay_ms: 500, port: port },
                ]
            } else {
                Seq::<ServerActionView>::empty()
            }
        } else {
            Seq::<ServerActionView>::empty()
        });
        actions
    }

    /// A key press (see [`key_actions`]); `q` and Ctrl+C are left to the
    /// application's shutdown, every other key is ignored.
    pub fn on_key(&self, key: KeyPressed, dir: ActorDirectory) -> (actions: Vec<ServerAction>)
        ensures
            server_actions_view(actions@) == key_actions(key, dir),
    {
        let mut actions: Vec<ServerAction> = Vec::new();
        if key.modifiers == 0 && key.key == KeyInput::Char('r') {
            if dir.console {
                actions.push(
                    ServerAction::ConsoleProgress(
                        String::from_str("Reload requested - reloading configuration..."),
                    ),
                );
            }
            if dir.config_manager {
                actions.push(ServerAction::RequestConfigReload);
            }
        } else if key.modifiers == 0 && key.key == KeyInput::Char('s') {
            if dir.console {
                actions.push(ServerAction::ConsoleProgress(String::from_str("Stop requested via keyboard...")));
            }
        }
        assert(server_actions_view(actions@) =~= key_actions(key, dir));
        actions
    }
}

/// Whether a key press asks the whole application to shut down: `q`, or Ctrl+C.
pub fn is_shutdown_key(key: KeyPressed) -> (b: bool)
    ensures
        b == ((key.modifiers == 0 && key.key == KeyInput::Char('q')) || (key.modifiers == CONTROL
            && key.key == KeyInput::Char('c'))),
{
    (key.modifiers == 0 && key.key == KeyInput::Char('q')) || (key.modifiers == CONTROL && key.key
        == KeyInput::Char('c'))
}

/// The console line once the server listens on `addr`.
pub fn listening_message(addr: &str) -> (s: String)
    ensures
        s@ == "Server listening → http://"@ + addr@,
{
    let mut s = String::from_str("Server listening → http://");
    s.append(addr);
    s
}

/// The console line when the server could not bind its address.
pub fn start_failure_message(error: &str) -> (s: String)
    ensures
        s@ == "Failed to start server: "@ + error@,
{
    let mut s = String::from_str("Failed to start server: ");
    s.append(error);
    s
}

/// The console line when the running server failed.
pub fn server_error_message(error: &str) -> (s: String)
    ensures
        s@ == "Server error: "@ + error@,
{
    let mut s = String::from_str("Server error: ");
    s.append(error);
    s
}

/// A request to process a crate.
pub struct CrateRequest {
    pub specifier: CrateSpecifier,
    pub features: Vec<String>,
}

/// The answer to a request to process a crate.
pub struct CrateResponse {
    pub name: String,
    pub version: String,
    pub features: Vec<String>,
    pub message: String,
}

/// The message of the answer to a request for a crate with `n` features.
pub open spec fn initiated_message(s: CrateSpecifierView, n: nat) -> Seq<char> {
    "Crate processing initiated for "@ + specifier_text(s) + " with "@ + decimal(n) + " feature(s)"@
}

/// The answer to a request: the crate's name and version, the requested
/// features, and a message saying that processing was initiated.
pub fn crate_response(request: &CrateRequest) -> (r: CrateResponse)
    ensures
        r.name@ == request.specifier@.name,
        r.version@ == version_text(request.specifier@.version),
        strings_view(r.features@) == strings_view(request.features@),
        r.message@ == initiated_message(request.specifier@, request.features@.len()),
{
    let mut message = String::from_str("Crate processing initiated for ");
    let text = request.specifier.to_text();
    message.append(text.as_str());
    message.append(" with ");
    push_decimal(&mut message, request.features.len() as u64);
    message.append(" feature(s)");
    CrateResponse {
        name: String::from_str(request.specifier.name()),
        version: request.specifier.version().to_text(),
        features: clone_strings(&request.features),
        message,
    }
}

} // verus!
