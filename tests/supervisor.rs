use nightingale::config::Config;
use nightingale::json::Json;
use nightingale::model::{Envelope, Forward, Ready};
use nightingale::session::{SessionId, SessionState};
use nightingale::shard::ShardStorage;
use nightingale::socket::{
    connect_wait_step, dispatch, Dispatch, IncomingEvent, SocketAction, SocketCommand,
    SocketReply, Socket, WaitStep,
};

fn session(attempts: u32) -> SessionState {
    let mut c = Config::default();
    c.user_id = 77;
    c.connection_attempts = attempts;
    SessionState::new(c)
}

fn is_attempt(a: &SocketAction, url: &str) -> bool {
    matches!(a, SocketAction::Attempt(u) if u == url)
}

fn is_reply(a: &SocketAction, r: SocketReply) -> bool {
    matches!(a, SocketAction::Reply(x) if *x == r)
}

const URL: &str = "ws://localhost:8081/ws?shards=1&user_id=77";

#[test]
fn connect_gives_up_after_configured_attempts() {
    let s = session(3);
    let mut sup = Socket::new();
    let acts = sup.handle_command(SocketCommand::Connect, &s);
    assert_eq!(acts.len(), 1);
    assert!(is_attempt(&acts[0], URL));
    let mut attempts = 1;
    loop {
        let a = sup.attempt_failed();
        if is_reply(&a, SocketReply::FailedToConnect) {
            break;
        }
        assert!(is_attempt(&a, URL));
        attempts += 1;
        assert!(attempts <= 3);
    }
    assert_eq!(attempts, 3);
    assert!(!sup.is_connecting() && !sup.is_connected());
}

#[test]
fn zero_attempts_fails_at_once() {
    let s = session(0);
    let mut sup = Socket::new();
    let acts = sup.handle_command(SocketCommand::Connect, &s);
    assert_eq!(acts.len(), 1);
    assert!(is_reply(&acts[0], SocketReply::FailedToConnect));
    assert!(!sup.is_connecting());
}

#[test]
fn connect_succeeds_then_reconnect_closes_first() {
    let s = session(2);
    let mut sup = Socket::new();
    sup.handle_command(SocketCommand::Connect, &s);
    assert!(sup.attempt_failed().is_attempt_like());
    assert!(is_reply(&sup.attempt_succeeded(), SocketReply::ConnectedSuccessfully));
    assert!(sup.is_connected());
    let acts = sup.handle_command(SocketCommand::Reconnect, &s);
    assert_eq!(acts.len(), 3);
    assert!(matches!(acts[0], SocketAction::Close));
    assert!(is_reply(&acts[1], SocketReply::Disconnected));
    assert!(is_attempt(&acts[2], URL));
}

trait AttemptLike {
    fn is_attempt_like(&self) -> bool;
}

impl AttemptLike for SocketAction {
    fn is_attempt_like(&self) -> bool {
        matches!(self, SocketAction::Attempt(_))
    }
}

#[test]
fn send_only_when_connected() {
    let s = session(1);
    let mut sup = Socket::new();
    assert!(sup.handle_command(SocketCommand::Send(String::from("{}")), &s).is_empty());
    sup.handle_command(SocketCommand::Connect, &s);
    sup.attempt_succeeded();
    let acts = sup.handle_command(SocketCommand::Send(String::from("{\"a\":1}")), &s);
    assert_eq!(acts.len(), 1);
    assert!(matches!(&acts[0], SocketAction::SendFrame(t) if t == "{\"a\":1}"));
}

#[test]
fn disconnect_and_transport_failure() {
    let s = session(1);
    let mut sup = Socket::new();
    let acts = sup.handle_command(SocketCommand::Disconnect, &s);
    assert_eq!(acts.len(), 1);
    assert!(is_reply(&acts[0], SocketReply::Disconnected));
    sup.handle_command(SocketCommand::Connect, &s);
    sup.attempt_succeeded();
    let acts = sup.handle_command(SocketCommand::Disconnect, &s);
    assert_eq!(acts.len(), 2);
    assert!(matches!(acts[0], SocketAction::Close));
    assert!(is_reply(&acts[1], SocketReply::Disconnected));
    assert!(sup.transport_failed().is_none());
    sup.handle_command(SocketCommand::Connect, &s);
    sup.attempt_succeeded();
    let a = sup.transport_failed().unwrap();
    assert!(is_reply(&a, SocketReply::Disconnected));
    assert!(!sup.is_connected());
}

#[test]
fn resume_attempts_the_session_address() {
    let mut s = session(2);
    let mut sup = Socket::new();
    s.on_ready(SessionId { value: 0xff });
    let acts = sup.handle_command(SocketCommand::Resume, &s);
    assert_eq!(acts.len(), 1);
    assert!(is_attempt(
        &acts[0],
        "ws://localhost:8081/ws/resume/00000000-0000-0000-0000-0000000000ff"
    ));
}

#[test]
fn kill_stops_everything() {
    let s = session(2);
    let mut sup = Socket::new();
    let acts = sup.handle_command(SocketCommand::Kill, &s);
    assert!(matches!(acts[..], [SocketAction::Stop]));
    assert!(sup.is_stopped());
    assert!(sup.handle_command(SocketCommand::Connect, &s).is_empty());
}

#[test]
fn wait_policy() {
    assert_eq!(connect_wait_step(SocketReply::ConnectedSuccessfully), WaitStep::Connected);
    assert_eq!(connect_wait_step(SocketReply::FailedToConnect), WaitStep::Failed);
    assert_eq!(connect_wait_step(SocketReply::Disconnected), WaitStep::Skip);
}

#[test]
fn forward_goes_to_registered_shard_only() {
    let mut shards: ShardStorage<u8> = ShardStorage::new();
    shards.register(1, 0);
    let mut s = session(1);
    let d = dispatch(
        Envelope::Forward(Forward { shard: 1, payload: Json::UInt(4) }),
        &shards,
        &mut s,
    );
    assert!(matches!(d, Dispatch::ToShard { shard: 1, payload: Json::UInt(4) }));
    let d = dispatch(
        Envelope::Forward(Forward { shard: 3, payload: Json::Null }),
        &shards,
        &mut s,
    );
    assert!(matches!(d, Dispatch::UnknownShard(3)));
    assert!(s.session.is_nil());
}

#[test]
fn ready_records_session() {
    let shards: ShardStorage<u8> = ShardStorage::new();
    let mut s = session(1);
    let d = dispatch(
        Envelope::Ready(Ready { resumed: false, session: SessionId { value: 9 }, players: None }),
        &shards,
        &mut s,
    );
    assert_eq!(s.session, SessionId { value: 9 });
    assert!(matches!(d, Dispatch::Emit(IncomingEvent::Ready(r)) if !r.resumed));
}
