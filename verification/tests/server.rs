use config_agent::options::AppOptions;
use config_agent::server::{route, test_response, Route};

#[test]
fn liveness_check_answers_ok() {
    assert_eq!(route("GET", "/v1/test"), Route::Test);
    let (status, body) = test_response();
    assert_eq!(status, 200);
    assert_eq!(body, r#"{"server":"miru-config-agent","status":"ok"}"#);
}

#[test]
fn requests_reach_their_handlers() {
    assert_eq!(route("GET", "/v1/version"), Route::Version);
    assert_eq!(route("POST", "/v1/test"), Route::NotFound);
    assert_eq!(route("GET", "/v1/tests"), Route::NotFound);
    assert_eq!(route("GET", "/"), Route::NotFound);
}

#[test]
fn server_listens_on_the_agent_socket() {
    assert_eq!(AppOptions::default().server.socket_file.path, "/run/miru/miru.sock");
}
