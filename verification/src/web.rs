//! The network-exposed control surface.
//!
//! HTTP parsing, TCP serving and the static assets live with the external
//! web collaborator. The core fixes the route table and the decision each
//! state-touching handler makes over the shared toggle; the collaborator
//! serves the asset routes verbatim.

use crate::state::SharedState;
use vstd::prelude::*;

verus! {

/// Fixed number of web-handler tasks spawned at startup.
pub const WEB_TASK_POOL_SIZE: usize = 3;

/// TCP port the control surface listens on.
pub const WEB_PORT: u16 = 80;

/// Receive buffer of one connection, in bytes.
pub const TCP_RX_BUFFER_LEN: usize = 1024;

/// Transmit buffer of one connection, in bytes.
pub const TCP_TX_BUFFER_LEN: usize = 1024;

/// Request scratch of one connection, in bytes.
pub const HTTP_BUFFER_LEN: usize = 2048;

/// What a route serves.
#[derive(Clone, Copy, PartialEq, Eq, Structural, Debug)]
pub enum RouteHandler {
    /// The page, served verbatim by the collaborator.
    StaticHtml,
    /// The stylesheet, served verbatim.
    StaticCss,
    /// The script, served verbatim.
    StaticJs,
    /// Answers the current toggle value as a JSON boolean.
    GetState,
    /// Toggles and answers the new value as a JSON boolean.
    TogglePower,
}

/// One route of the control surface.
pub struct Route {
    pub path: &'static str,
    pub handler: RouteHandler,
}

/// Connection timeouts the web collaborator is configured with, and
/// whether a connection is kept alive between requests.
pub struct WebTimeouts {
    pub start_read_request_ms: u64,
    pub read_request_ms: u64,
    pub write_ms: u64,
    pub keep_connection_alive: bool,
}

/// The timeouts of this device's control surface.
pub fn web_timeouts() -> (t: WebTimeouts)
    ensures
        t.start_read_request_ms == 5000,
        t.read_request_ms == 1000,
        t.write_ms == 1000,
        t.keep_connection_alive,
{
    WebTimeouts {
        start_read_request_ms: 5000,
        read_request_ms: 1000,
        write_ms: 1000,
        keep_connection_alive: true,
    }
}

/// The declaration of the control surface's application.
pub struct AppProps;

impl AppProps {
    /// The route table, in routing order: the three static assets, the
    /// state query, and the toggle.
    pub fn build_app(self) -> (routes: Vec<Route>)
        ensures
            routes@.len() == 5,
            routes@[0].path@ == "/"@ && routes@[0].handler is StaticHtml,
            routes@[1].path@ == "/style.css"@ && routes@[1].handler is StaticCss,
            routes@[2].path@ == "/script.js"@ && routes@[2].handler is StaticJs,
            routes@[3].path@ == "/state"@ && routes@[3].handler is GetState,
            routes@[4].path@ == "/power"@ && routes@[4].handler is TogglePower,
    {
        let mut routes: Vec<Route> = Vec::new();
        routes.push(Route { path: "/", handler: RouteHandler::StaticHtml });
        routes.push(Route { path: "/style.css", handler: RouteHandler::StaticCss });
        routes.push(Route { path: "/script.js", handler: RouteHandler::StaticJs });
        routes.push(Route { path: "/state", handler: RouteHandler::GetState });
        routes.push(Route { path: "/power", handler: RouteHandler::TogglePower });
        routes
    }
}

/// The state query: reads the toggle — under its lock, held by the caller
/// for exactly this call — and answers it.
pub fn get_state(s: &SharedState) -> (v: bool)
    ensures
        v == s.power,
{
    s.get()
}

/// The toggle request: inverts the toggle — under its lock, held by the
/// caller for exactly this call — and answers the new value.
pub fn post_power(s: &mut SharedState) -> (v: bool)
    ensures
        final(s).power == !old(s).power,
        v == final(s).power,
{
    s.toggle()
}

} // verus!
