use nightingale::config::{Config, SessionConfig, PLACEHOLDER_USER_ID};
use nightingale::session::{SessionId, SessionState};
use nightingale::source::{SearchRoute, Youtube};
use nightingale::text::push_decimal;

fn decimal(n: u64) -> String {
    let mut s = String::new();
    push_decimal(&mut s, n);
    s
}

#[test]
fn decimal_rendering() {
    assert_eq!(decimal(0), "0");
    assert_eq!(decimal(7), "7");
    assert_eq!(decimal(10), "10");
    assert_eq!(decimal(8081), "8081");
    assert_eq!(decimal(u64::MAX), "18446744073709551615");
    let mut s = String::from("x=");
    push_decimal(&mut s, 42);
    assert_eq!(s, "x=42");
}

#[test]
fn default_config() {
    let c = Config::default();
    assert_eq!(c.host, "localhost");
    assert_eq!(c.port, 8081);
    assert_eq!(c.password, "mypassword");
    assert!(!c.ssl);
    assert_eq!(c.user_id, PLACEHOLDER_USER_ID);
    assert_eq!(c.shards, 1);
    assert_eq!(c.connection_attempts, 5);
    assert!(!c.has_user_id());
    let s = SessionConfig::default();
    assert!(s.enable_resume);
    assert_eq!(s.reconnect_secs, 60);
}

#[test]
fn user_id_validity() {
    let mut c = Config::default();
    c.user_id = 0;
    assert!(!c.has_user_id());
    c.user_id = 42;
    assert!(c.has_user_id());
}

fn state() -> SessionState {
    let mut c = Config::default();
    c.user_id = 1234;
    c.shards = 2;
    SessionState::new(c)
}

#[test]
fn connect_address_plain_and_secure() {
    let mut s = state();
    assert!(s.session.is_nil());
    assert_eq!(s.socket_base(), "ws://localhost:8081/ws");
    assert_eq!(s.connect_address(), "ws://localhost:8081/ws?shards=2&user_id=1234");
    s.config.ssl = true;
    s.config.host = String::from("audio.example");
    s.config.port = 443;
    assert_eq!(s.connect_address(), "wss://audio.example:443/ws?shards=2&user_id=1234");
    assert_eq!(s.api_base(), "https://audio.example:443/api/v1");
}

#[test]
fn resume_address_needs_a_session() {
    let mut s = state();
    assert_eq!(s.resume_address(), None);
    s.on_ready(SessionId { value: 0x0123456789abcdef0123456789abcdef });
    assert_eq!(
        s.resume_address().unwrap(),
        "ws://localhost:8081/ws/resume/01234567-89ab-cdef-0123-456789abcdef"
    );
}

#[test]
fn session_text_is_hyphenated_lowercase() {
    assert_eq!(SessionId::nil().text(), "00000000-0000-0000-0000-000000000000");
    assert_eq!(
        SessionId { value: 0xA1B2C3D4E5F60718293A4B5C6D7E8F90 }.text(),
        "a1b2c3d4-e5f6-0718-293a-4b5c6d7e8f90"
    );
}

#[test]
fn rest_routes() {
    let mut s = state();
    s.on_ready(SessionId { value: 1 });
    assert_eq!(s.api_base(), "http://localhost:8081/api/v1");
    assert_eq!(
        s.player_route(99, "pause"),
        "http://localhost:8081/api/v1/00000000-0000-0000-0000-000000000001/players/99/pause"
    );
    assert_eq!(s.info_route(false), "http://localhost:8081/api/v1/info");
    assert_eq!(
        s.info_route(true),
        "http://localhost:8081/api/v1/info/00000000-0000-0000-0000-000000000001"
    );
    assert_eq!(
        s.search_route(&Youtube::track(String::from("lofi"))),
        "http://localhost:8081/api/v1/search/youtube/search?query=lofi"
    );
}

#[test]
fn initialise_sets_shards_and_user() {
    let mut s = state();
    s.initialise(8, 777);
    assert_eq!(s.config.shards, 8);
    assert_eq!(s.config.user_id, 777);
    assert_eq!(s.config.port, 8081);
    assert!(s.session.is_nil());
}

#[test]
fn youtube_routes_are_encoded() {
    assert_eq!(
        Youtube::track(String::from("never gonna give/you up?")),
        "/youtube/search?query=never%20gonna%20give%2Fyou%20up%3F"
    );
    assert_eq!(
        Youtube::playlist(String::from("PL&x=1")),
        "/youtube/playlist?playlist=PL%26x%3D1"
    );
    assert_eq!(Youtube::search_route(""), "/youtube/search?query=");
}
