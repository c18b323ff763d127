use video_qos::capability::{
    capabilities_url, capability_plan, select_capabilities_body, CapabilitiesResponse, Endpoints,
    HttpResponseBody,
};

fn response(native_websocket: bool, endpoints: Option<Endpoints>) -> CapabilitiesResponse {
    CapabilitiesResponse {
        tcp_rendezvous: true,
        tcp_relay: false,
        websocket_rendezvous: true,
        websocket_relay: false,
        native_websocket,
        tcp_only_registration: true,
        force_relay: false,
        endpoints,
    }
}

#[test]
fn url_trims_trailing_slashes() {
    assert_eq!(capabilities_url(""), None);
    assert_eq!(
        capabilities_url("https://api.example.com//").as_deref(),
        Some("https://api.example.com/api/v1/capabilities")
    );
    assert_eq!(
        capabilities_url("http://10.0.0.1:21114").as_deref(),
        Some("http://10.0.0.1:21114/api/v1/capabilities")
    );
    assert_eq!(capabilities_url("/").as_deref(), Some("/api/v1/capabilities"));
}

#[test]
fn envelope_selection() {
    let raw = "{\"native_websocket\":true}".to_string();
    assert_eq!(select_capabilities_body(raw.clone(), None), Some(raw.clone()));
    let ok = HttpResponseBody { body: "inner".to_string(), status_code: 200 };
    assert_eq!(select_capabilities_body(raw.clone(), Some(ok)), Some("inner".to_string()));
    let empty = HttpResponseBody { body: String::new(), status_code: 0 };
    assert_eq!(select_capabilities_body(raw.clone(), Some(empty)), Some(raw.clone()));
    let not_found = HttpResponseBody { body: "x".to_string(), status_code: 404 };
    assert_eq!(select_capabilities_body(raw.clone(), Some(not_found)), None);
    let redirect = HttpResponseBody { body: "x".to_string(), status_code: 300 };
    assert_eq!(select_capabilities_body(raw.clone(), Some(redirect)), None);
    let edge = HttpResponseBody { body: "y".to_string(), status_code: 299 };
    assert_eq!(select_capabilities_body(raw, Some(edge)), Some("y".to_string()));
}

#[test]
fn plan_fills_only_empty_settings() {
    let ep = Endpoints { ws_id: "wss://h/ws/id".to_string(), ws_relay: "wss://h/ws/relay".to_string() };
    let plan = capability_plan(response(true, Some(ep)), true, false, true);
    assert!(plan.caps.tcp_rendezvous);
    assert!(!plan.caps.tcp_relay);
    assert!(plan.caps.native_websocket);
    assert!(plan.caps.tcp_only_registration);
    assert_eq!(plan.websocket_id_server.as_deref(), Some("wss://h/ws/id"));
    assert_eq!(plan.websocket_relay_server, None);
    assert!(plan.enable_native_websocket);

    let ep = Endpoints { ws_id: String::new(), ws_relay: "r".to_string() };
    let plan = capability_plan(response(true, Some(ep)), true, true, false);
    assert_eq!(plan.websocket_id_server, None);
    assert_eq!(plan.websocket_relay_server.as_deref(), Some("r"));
    assert!(!plan.enable_native_websocket);

    let plan = capability_plan(response(false, None), true, true, true);
    assert_eq!(plan.websocket_id_server, None);
    assert_eq!(plan.websocket_relay_server, None);
    assert!(!plan.enable_native_websocket);
}
