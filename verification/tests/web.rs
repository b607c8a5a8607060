use control_panel::state::SharedState;
use control_panel::web::{
    get_state, post_power, web_timeouts, AppProps, RouteHandler, HTTP_BUFFER_LEN,
    TCP_RX_BUFFER_LEN, TCP_TX_BUFFER_LEN, WEB_PORT, WEB_TASK_POOL_SIZE,
};

#[test]
fn route_table_in_routing_order() {
    let routes = AppProps.build_app();
    let paths: Vec<&str> = routes.iter().map(|r| r.path).collect();
    assert_eq!(paths, vec!["/", "/style.css", "/script.js", "/state", "/power"]);
    assert_eq!(routes[0].handler, RouteHandler::StaticHtml);
    assert_eq!(routes[1].handler, RouteHandler::StaticCss);
    assert_eq!(routes[2].handler, RouteHandler::StaticJs);
    assert_eq!(routes[3].handler, RouteHandler::GetState);
    assert_eq!(routes[4].handler, RouteHandler::TogglePower);
}

#[test]
fn state_handlers_read_and_toggle() {
    let mut s = SharedState::new();
    assert_eq!(get_state(&s), true);
    assert_eq!(post_power(&mut s), false);
    assert_eq!(get_state(&s), false);
    assert_eq!(post_power(&mut s), true);
    assert_eq!(get_state(&s), true);
}

#[test]
fn web_parameters() {
    assert_eq!(WEB_PORT, 80);
    assert_eq!(WEB_TASK_POOL_SIZE, 3);
    assert_eq!(TCP_RX_BUFFER_LEN, 1024);
    assert_eq!(TCP_TX_BUFFER_LEN, 1024);
    assert_eq!(HTTP_BUFFER_LEN, 2048);
    let t = web_timeouts();
    assert_eq!(t.start_read_request_ms, 5000);
    assert_eq!(t.read_request_ms, 1000);
    assert_eq!(t.write_ms, 1000);
    assert!(t.keep_connection_alive);
}
