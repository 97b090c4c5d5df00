//! The decisions of the connection supervisor: which handshakes to try, what to report to the
//! caller, and where each message from the server goes. The loop that owns the connection
//! performs the actions these functions return and feeds their outcomes back.

use crate::json::Json;
use crate::model::{Envelope, Event, Ready, UpdateState};
use crate::session::{SessionState, connect_address, resume_address};
use crate::shard::ShardStorage;
use vstd::prelude::*;

verus! {

/// A command to the supervisor.
pub enum SocketCommand {
    /// Open a new session, closing the current connection first.
    Connect,
    /// Close the connection.
    Disconnect,
    /// Open a new session, closing the current connection first.
    Reconnect,
    /// Resume the current session, closing the current connection first.
    Resume,
    /// Send a JSON text frame on the connection.
    Send(String),
    /// Stop the supervisor for good.
    Kill,
}

/// What the supervisor reports to whoever issued the commands.
#[derive(Clone, Copy, Debug, PartialEq, Eq, Structural)]
pub enum SocketReply {
    /// A handshake succeeded.
    ConnectedSuccessfully,
    /// The connection closed.
    Disconnected,
    /// Every handshake attempt failed.
    FailedToConnect,
}

/// Work the supervisor's loop must carry out, in order.
pub enum SocketAction {
    /// Close the connection with a normal close frame, ignoring errors.
    Close,
    /// Report to the command issuer.
    Reply(SocketReply),
    /// Try one handshake at the address, with the password as authorization header.
    Attempt(String),
    /// Send a text frame on the connection.
    SendFrame(String),
    /// Leave the loop.
    Stop,
}

/// Where the supervisor stands.
pub enum LinkState {
    /// No connection.
    Disconnected,
    /// Trying handshakes at `address`; `attempts_made` have been started.
    Connecting { address: String, attempts_made: u32 },
    /// A connection is open.
    Connected,
    /// Killed; nothing more is processed.
    Stopped,
}

/// The abstract state of a supervisor.
pub ghost struct SocketView {
    pub state: LinkState,
    pub max_attempts: u32,
}

/// The state after one failed handshake: retry while attempts remain, else give up.
pub open spec fn after_failure(s: SocketView) -> SocketView {
    match s.state {
        LinkState::Connecting { address, attempts_made } => if attempts_made < s.max_attempts {
            SocketView {
                state: LinkState::Connecting { address, attempts_made: (attempts_made + 1) as u32 },
                ..s
            }
        } else {
            SocketView { state: LinkState::Disconnected, ..s }
        },
        _ => s,
    }
}

/// The state after `k` failed handshakes in a row.
pub open spec fn after_failures(s: SocketView, k: nat) -> SocketView
    decreases k,
{
    if k == 0 {
        s
    } else {
        after_failure(after_failures(s, (k - 1) as nat))
    }
}

/// Whether a failure in state `s` exhausts the attempts.
pub open spec fn gives_up(s: SocketView) -> bool {
    match s.state {
        LinkState::Connecting { attempts_made, .. } => attempts_made >= s.max_attempts,
        _ => false,
    }
}

/// The actions that close the connection in state `s`: the close and its report when a
/// connection is open, nothing otherwise.
pub open spec fn closing(s: SocketView) -> Seq<SocketAction> {
    if s.state is Connected {
        seq![SocketAction::Close, SocketAction::Reply(SocketReply::Disconnected)]
    } else {
        Seq::empty()
    }
}

/// `after` and `r` are what starting handshakes at `address` with `n` attempts allowed gives,
/// after the actions `prefix`: the first attempt, or FailedToConnect when `n` is zero.
pub open spec fn starts(
    prefix: Seq<SocketAction>,
    n: u32,
    address: Seq<char>,
    after: SocketView,
    r: Seq<SocketAction>,
) -> bool {
    if n == 0 {
        &&& after.state is Disconnected
        &&& r == prefix.push(SocketAction::Reply(SocketReply::FailedToConnect))
    } else {
        &&& after.state matches LinkState::Connecting { address: a, attempts_made }
        &&& a@ == address && attempts_made == 1
        &&& after.max_attempts == n
        &&& r.len() == prefix.len() + 1
        &&& r.drop_last() == prefix
        &&& r.last() matches SocketAction::Attempt(t) && t@ == address
    }
}

/// An event from the server for the application.
pub enum IncomingEvent {
    /// The connection is ready.
    Ready(Ready),
    /// A voice connection change.
    UpdateState(UpdateState),
    /// A playback event of a guild's player.
    Event { guild_id: u64, event: Event },
}

/// Where a message from the server goes.
pub enum Dispatch {
    /// Hand the event to the application.
    Emit(IncomingEvent),
    /// Send the payload on the gateway shard `shard`.
    ToShard { shard: u64, payload: Json },
    /// The shard is not registered; the payload is dropped.
    UnknownShard(u64),
}

/// The connection supervisor's state machine.
pub struct Socket {
    state: LinkState,
    max_attempts: u32,
}

impl View for Socket {
    type V = SocketView;

    closed spec fn view(&self) -> SocketView {
        SocketView { state: self.state, max_attempts: self.max_attempts }
    }
}

impl Socket {
    /// While connecting, at least one and at most `max_attempts` attempts have started.
    pub open spec fn wf(&self) -> bool {
        match self@.state {
            LinkState::Connecting { attempts_made, .. } => 1 <= attempts_made
                <= self@.max_attempts,
            _ => true,
        }
    }

    /// A disconnected supervisor.
    pub fn new() -> (r: Self)
        ensures
            r@.state is Disconnected,
            r.wf(),
    {
        Socket { state: LinkState::Disconnected, max_attempts: 0 }
    }

    /// Where the supervisor stands.
    pub fn state(&self) -> (r: &LinkState)
        ensures
            *r == self@.state,
    {
        &self.state
    }

    /// Whether a connection is open.
    pub fn is_connected(&self) -> (r: bool)
        ensures
            r == self@.state is Connected,
    {
        match self.state {
            LinkState::Connected => true,
            _ => false,
        }
    }

    /// Whether the supervisor is trying handshakes.
    pub fn is_connecting(&self) -> (r: bool)
        ensures
            r == self@.state is Connecting,
    {
        match self.state {
            LinkState::Connecting { .. } => true,
            _ => false,
        }
    }

    /// Whether the supervisor was killed.
    pub fn is_stopped(&self) -> (r: bool)
        ensures
            r == self@.state is Stopped,
    {
        match self.state {
            LinkState::Stopped => true,
            _ => false,
        }
    }

    /// Closes an open connection: the close and its report, or nothing.
    fn close(&mut self, actions: &mut Vec<SocketAction>)
        requires
            !(old(self)@.state is Connecting),
        ensures
            old(self)@.state is Connected ==> final(actions)@ == old(actions)@.push(
                SocketAction::Close,
            ).push(SocketAction::Reply(SocketReply::Disconnected)) && final(self)@ == (
            SocketView { state: LinkState::Disconnected, ..old(self)@ }),
            !(old(self)@.state is Connected) ==> final(actions)@ == old(actions)@ && final(self)@
                == old(self)@,
    {
        if self.is_connected() {
            actions.push(SocketAction::Close);
            actions.push(SocketAction::Reply(SocketReply::Disconnected));
            self.state = LinkState::Disconnected;
        }
    }

    /// Starts handshakes at `address`, at most `max_attempts` of them.
    fn start(&mut self, address: String, max_attempts: u32, actions: &mut Vec<SocketAction>)
        ensures
            max_attempts == 0 ==> final(self)@ == (SocketView {
                state: LinkState::Disconnected,
                max_attempts,
            }) && final(actions)@ == old(actions)@.push(
                SocketAction::Reply(SocketReply::FailedToConnect),
            ),
            max_attempts > 0 ==> starts(
                old(actions)@,
                max_attempts,
                address@,
                final(self)@,
                final(actions)@,
            ),
    {
        self.max_attempts = max_attempts;
        if max_attempts == 0 {
            self.state = LinkState::Disconnected;
            actions.push(SocketAction::Reply(SocketReply::FailedToConnect));
        } else {
            let a = address.clone();
            self.state = LinkState::Connecting { address, attempts_made: 1 };
            actions.push(SocketAction::Attempt(a));
            assert(actions@.drop_last() =~= old(actions)@);
        }
    }

    /// Handles a command and returns the actions to carry out, in order.
    ///
    /// Connect and Reconnect close an open connection (reporting Disconnected) and start
    /// handshakes at the connect address; with no attempts allowed they report
    /// FailedToConnect at once. Resume does the same at the resume address of the current
    /// session, which must not be nil. Disconnect, in any state, closes an open connection
    /// (best effort), stands disconnected and reports Disconnected. Send sends the frame when
    /// connected and drops it otherwise. Kill stops the supervisor. A stopped supervisor
    /// ignores every command.
    pub fn handle_command(&mut self, cmd: SocketCommand, session: &SessionState) -> (r: Vec<
        SocketAction,
    >)
        requires
            old(self).wf(),
            !(old(self)@.state is Connecting),
            cmd is Resume ==> session.session.value != 0,
        ensures
            final(self).wf(),
            old(self)@.state is Stopped ==> r@.len() == 0 && final(self)@ == old(self)@,
            !(old(self)@.state is Stopped) ==> {
                let prefix = closing(old(self)@);
                let n = session.config.connection_attempts;
                match cmd {
                    SocketCommand::Connect => starts(
                        prefix,
                        n,
                        connect_address(session.config),
                        final(self)@,
                        r@,
                    ),
                    SocketCommand::Reconnect => starts(
                        prefix,
                        n,
                        connect_address(session.config),
                        final(self)@,
                        r@,
                    ),
                    SocketCommand::Resume => starts(
                        prefix,
                        n,
                        resume_address(session.config, session.session),
                        final(self)@,
                        r@,
                    ),
                    SocketCommand::Disconnect => {
                        &&& final(self)@.state is Disconnected
                        &&& r@ == if old(self)@.state is Connected {
                            seq![SocketAction::Close, SocketAction::Reply(SocketReply::Disconnected)]
                        } else {
                            seq![SocketAction::Reply(SocketReply::Disconnected)]
                        }
                    },
                    SocketCommand::Send(text) => {
                        &&& final(self)@ == old(self)@
                        &&& r@ == if old(self)@.state is Connected {
                            seq![SocketAction::SendFrame(text)]
                        } else {
                            Seq::empty()
                        }
                    },
                    SocketCommand::Kill => {
                        &&& final(self)@.state is Stopped
                        &&& r@ == seq![SocketAction::Stop]
                    },
                }
            },
    {
        let mut actions: Vec<SocketAction> = Vec::new();
        if self.is_stopped() {
            return actions;
        }
        match cmd {
            SocketCommand::Connect | SocketCommand::Reconnect => {
                self.close(&mut actions);
                assert(actions@ =~= closing(old(self)@));
                let address = session.connect_address();
                self.start(address, session.config.connection_attempts, &mut actions);
            },
            SocketCommand::Resume => {
                self.close(&mut actions);
                assert(actions@ =~= closing(old(self)@));
                match session.resume_address() {
                    None => vstd::pervasive::unreached(),
                    Some(address) => {
                        self.start(address, session.config.connection_attempts, &mut actions);
                    },
                }
            },
            SocketCommand::Disconnect => {
                let connected = self.is_connected();
                if connected {
                    actions.push(SocketAction::Close);
                }
                actions.push(SocketAction::Reply(SocketReply::Disconnected));
                self.state = LinkState::Disconnected;
                proof {
                    if connected {
                        assert(actions@ =~= seq![
                            SocketAction::Close,
                            SocketAction::Reply(SocketReply::Disconnected),
                        ]);
                    } else {
                        assert(actions@ =~= seq![SocketAction::Reply(SocketReply::Disconnected)]);
                    }
                }
            },
            SocketCommand::Send(text) => {
                if self.is_connected() {
                    actions.push(SocketAction::SendFrame(text));
                    assert(actions@ =~= seq![SocketAction::SendFrame(text)]);
                }
            },
            SocketCommand::Kill => {
                self.state = LinkState::Stopped;
                actions.push(SocketAction::Stop);
                assert(actions@ =~= seq![SocketAction::Stop]);
            },
        }
        actions
    }

    /// A handshake succeeded: the connection is open and the caller is told so.
    pub fn attempt_succeeded(&mut self) -> (r: SocketAction)
        requires
            old(self).wf(),
            old(self)@.state is Connecting,
        ensures
            final(self).wf(),
            final(self)@ == (SocketView { state: LinkState::Connected, ..old(self)@ }),
            r == SocketAction::Reply(SocketReply::ConnectedSuccessfully),
    {
        self.state = LinkState::Connected;
        SocketAction::Reply(SocketReply::ConnectedSuccessfully)
    }

    /// A handshake failed: try again at the same address while attempts remain; after the
    /// last one, report FailedToConnect and stand disconnected.
    pub fn attempt_failed(&mut self) -> (r: SocketAction)
        requires
            old(self).wf(),
            old(self)@.state is Connecting,
        ensures
            final(self).wf(),
            final(self)@ == after_failure(old(self)@),
            gives_up(old(self)@) ==> r == SocketAction::Reply(SocketReply::FailedToConnect),
            !gives_up(old(self)@) ==> (r matches SocketAction::Attempt(a) && old(
                self,
            )@.state matches LinkState::Connecting { address, .. } && a == address),
    {
        let max = self.max_attempts;
        match &self.state {
            LinkState::Connecting { address, attempts_made } => {
                if *attempts_made < max {
                    let next = *attempts_made + 1;
                    let a = address.clone();
                    let b = address.clone();
                    self.state = LinkState::Connecting { address: a, attempts_made: next };
                    SocketAction::Attempt(b)
                } else {
                    self.state = LinkState::Disconnected;
                    SocketAction::Reply(SocketReply::FailedToConnect)
                }
            },
            _ => vstd::pervasive::unreached(),
        }
    }

    /// The connection broke: stand disconnected and report it. Nothing happens when no
    /// connection was open.
    pub fn transport_failed(&mut self) -> (r: Option<SocketAction>)
        requires
            old(self).wf(),
        ensures
            final(self).wf(),
            old(self)@.state is Connected ==> final(self)@ == (SocketView {
                state: LinkState::Disconnected,
                ..old(self)@
            }) && r == Some(SocketAction::Reply(SocketReply::Disconnected)),
            !(old(self)@.state is Connected) ==> final(self)@ == old(self)@ && r is None,
    {
        if self.is_connected() {
            self.state = LinkState::Disconnected;
            Some(SocketAction::Reply(SocketReply::Disconnected))
        } else {
            None
        }
    }
}

/// What a caller waiting for the outcome of a Connect or Reconnect does with a reply.
#[derive(Clone, Copy, Debug, PartialEq, Eq, Structural)]
pub enum WaitStep {
    /// The connection is open: stop waiting, successfully.
    Connected,
    /// Every attempt failed: stop waiting with the failure.
    Failed,
    /// A reply about something else, such as the close that precedes a reconnect: keep
    /// waiting.
    Skip,
}

/// The waiting policy of Connect and Reconnect: only ConnectedSuccessfully and
/// FailedToConnect end the wait; a Disconnected reply is skipped.
pub fn connect_wait_step(reply: SocketReply) -> (r: WaitStep)
    ensures
        reply == SocketReply::ConnectedSuccessfully ==> r == WaitStep::Connected,
        reply == SocketReply::FailedToConnect ==> r == WaitStep::Failed,
        reply == SocketReply::Disconnected ==> r == WaitStep::Skip,
{
    match reply {
        SocketReply::ConnectedSuccessfully => WaitStep::Connected,
        SocketReply::FailedToConnect => WaitStep::Failed,
        SocketReply::Disconnected => WaitStep::Skip,
    }
}

/// Decides where a message from the server goes. A ready message records its session and is
/// handed on; a forward request goes to its shard when that shard is registered and is
/// dropped otherwise; everything else is handed on as is.
pub fn dispatch<S>(envelope: Envelope, shards: &ShardStorage<S>, session: &mut SessionState) -> (r:
    Dispatch)
    ensures
        envelope matches Envelope::Ready(ready) ==> final(session).session == ready.session && (
        r matches Dispatch::Emit(IncomingEvent::Ready(e)) && e == ready),
        !(envelope is Ready) ==> *final(session) == *old(session),
        final(session).config == old(session).config,
        envelope matches Envelope::Forward(f) ==> if shards@.contains_key(f.shard) {
            r == (Dispatch::ToShard { shard: f.shard, payload: f.payload })
        } else {
            r == Dispatch::UnknownShard(f.shard)
        },
        envelope matches Envelope::UpdateState(u) ==> r == Dispatch::Emit(
            IncomingEvent::UpdateState(u),
        ),
        envelope matches Envelope::Event { guild_id, event } ==> r == Dispatch::Emit(
            IncomingEvent::Event { guild_id, event },
        ),
{
    match envelope {
        Envelope::Ready(ready) => {
            session.on_ready(ready.session);
            Dispatch::Emit(IncomingEvent::Ready(ready))
        },
        Envelope::Forward(f) => {
            if shards.contains(f.shard) {
                Dispatch::ToShard { shard: f.shard, payload: f.payload }
            } else {
                Dispatch::UnknownShard(f.shard)
            }
        },
        Envelope::UpdateState(u) => Dispatch::Emit(IncomingEvent::UpdateState(u)),
        Envelope::Event { guild_id, event } => Dispatch::Emit(IncomingEvent::Event { guild_id, event }),
    }
}

/// Handshake attempts are bounded: starting a connect with `n` attempts allowed, the first
/// `n - 1` failures each lead to one more attempt, never beyond the `n`-th, and the `n`-th
/// failure gives up, reporting FailedToConnect, and leaves the supervisor disconnected.
pub proof fn lemma_attempts_bounded(address: String, n: u32, k: nat)
    requires
        n >= 1,
        k < n,
    ensures
        ({
            let s0 = SocketView {
                state: LinkState::Connecting { address, attempts_made: 1 },
                max_attempts: n,
            };
            let s = after_failures(s0, k);
            &&& s.state matches LinkState::Connecting { address: a, attempts_made } && a == address
                && attempts_made == k + 1 && attempts_made <= n
            &&& s.max_attempts == n
            &&& gives_up(s) <==> k + 1 == n
            &&& k + 1 == n ==> after_failures(s0, n as nat).state is Disconnected
        }),
    decreases k,
{
    let s0 = SocketView {
        state: LinkState::Connecting { address, attempts_made: 1 },
        max_attempts: n,
    };
    if k > 0 {
        lemma_attempts_bounded(address, n, (k - 1) as nat);
    }
    if k + 1 == n {
        assert(after_failures(s0, n as nat) == after_failure(after_failures(s0, k)));
    }
}

} // verus!
