use vstd::prelude::*;
use crate::connection::{Connection, ConnectionView, READ_CAPACITY};
use crate::event::{EventSet, Outcome, PollOpt, Registration, Token};
use crate::table::{
    no_entries, table_entries, table_get, table_get_mut, table_insert_with, table_new,
    table_remove, table_span, ConnectionTable,
};

verus! {

/// The token of the listening socket.
pub const LISTENER: usize = 1;

/// The lowest token that a connection can get.
pub const FIRST_CONNECTION: usize = 2;

/// The number of connections that can be live at once.
pub const MAX_CONNECTIONS: usize = 128;

/// What the caller is asked to do next on the sockets it holds. After
/// `Wait`, `Shutdown` and `Close` the notification is served; after each of
/// the others the caller reports what the operation came to.
#[derive(Debug, PartialEq, Eq)]
pub enum Action {
    /// Nothing more: wait for the next notification.
    Wait,
    /// Stop the event loop: the listener is lost.
    Shutdown,
    /// Make one accept attempt on the listener.
    Accept,
    /// Register the socket that was just accepted.
    Register(Registration),
    /// Arm the socket of a connection again.
    Reregister(Registration),
    /// Make one read attempt on the socket of `token`, for at most
    /// `capacity` bytes.
    Read { token: Token, capacity: usize },
    /// Make one write attempt on the socket of `token` with `message`.
    Write { token: Token, message: Vec<u8> },
    /// The connection of `token` is gone: close its socket.
    Close { token: Token },
}

/// An action as contracts speak of it.
pub enum ActionView {
    Wait,
    Shutdown,
    Accept,
    Register(Registration),
    Reregister(Registration),
    Read { token: Token, capacity: usize },
    Write { token: Token, message: Seq<u8> },
    Close { token: Token },
}

impl View for Action {
    type V = ActionView;

    open spec fn view(&self) -> ActionView {
        match *self {
            Action::Wait => ActionView::Wait,
            Action::Shutdown => ActionView::Shutdown,
            Action::Accept => ActionView::Accept,
            Action::Register(registration) => ActionView::Register(registration),
            Action::Reregister(registration) => ActionView::Reregister(registration),
            Action::Read { token, capacity } => ActionView::Read { token, capacity },
            Action::Write { token, message } => ActionView::Write { token, message: message@ },
            Action::Close { token } => ActionView::Close { token },
        }
    }
}

/// Which operation the reactor has asked for and not yet heard of.
#[derive(Clone, Copy, Debug, PartialEq, Eq, Structural)]
pub enum Phase {
    /// None.
    Idle,
    /// An accept on the listener.
    Accepting,
    /// The registration of the new connection `token`.
    Registering { token: Token },
    /// A write for `token`; `then_read` says whether the same notification
    /// also signalled data to read.
    Writing { token: Token, then_read: bool },
    /// The re-arming of `token`; `then_read` as above.
    Rearming { token: Token, then_read: bool },
    /// A read for `token`.
    Reading { token: Token },
}

/// The reactor's state as contracts speak of it.
pub struct ServerView {
    /// The listener's token.
    pub token: Token,
    /// The live connections, each under the number of its token.
    pub table: Map<usize, ConnectionView>,
    /// The operation that is outstanding.
    pub phase: Phase,
    /// Whether the event loop is still meant to run.
    pub running: bool,
}

impl ServerView {
    /// The state of a reactor that was just made.
    pub open spec fn initial() -> ServerView {
        ServerView { token: Token(LISTENER), table: no_entries(), phase: Phase::Idle, running: true }
    }

    /// Whether `key` is a number that a connection's token can have.
    pub open spec fn is_connection_key(key: usize) -> bool {
        FIRST_CONNECTION <= key < FIRST_CONNECTION + MAX_CONNECTIONS
    }

    /// The invariant of the reactor: every live connection is well-formed,
    /// stands under its own token, and that token is not the listener's;
    /// and once the loop is stopped nothing is outstanding.
    pub open spec fn wf(self) -> bool {
        &&& self.token == Token(LISTENER)
        &&& self.table.dom().finite()
        &&& forall|key: usize| #[trigger]
            self.table.contains_key(key) ==> {
                &&& Self::is_connection_key(key)
                &&& self.table[key].token == Token(key)
                &&& self.table[key].wf()
            }
        &&& !self.running ==> self.phase is Idle
    }

    /// Whether `token` names a live connection.
    pub open spec fn is_live(self, token: Token) -> bool {
        self.table.contains_key(token.0)
    }

    /// Whether a new connection still finds a place.
    pub open spec fn has_room(self) -> bool {
        self.table.dom().len() < MAX_CONNECTIONS
    }

    /// The state with nothing outstanding.
    pub open spec fn idle(self) -> ServerView {
        ServerView { phase: Phase::Idle, ..self }
    }

    /// Tearing down `token`: the listener's loss stops the loop; a live
    /// connection leaves the table; any other token changes nothing.
    pub open spec fn reset(self, token: Token) -> (ServerView, ActionView) {
        if token == self.token {
            (ServerView { phase: Phase::Idle, running: false, ..self }, ActionView::Shutdown)
        } else if self.is_live(token) {
            (
                ServerView { table: self.table.remove(token.0), phase: Phase::Idle, ..self },
                ActionView::Close { token },
            )
        } else {
            (self.idle(), ActionView::Wait)
        }
    }

    /// Serving the readable part of a notification for `token`.
    pub open spec fn begin_read(self, token: Token) -> (ServerView, ActionView) {
        if token == self.token {
            (ServerView { phase: Phase::Accepting, ..self }, ActionView::Accept)
        } else if self.is_live(token) {
            (
                ServerView { phase: Phase::Reading { token }, ..self },
                ActionView::Read { token, capacity: READ_CAPACITY },
            )
        } else {
            (self.idle(), ActionView::Wait)
        }
    }

    /// What follows the writable part of a notification for `token`.
    pub open spec fn after_write(self, token: Token, then_read: bool) -> (ServerView, ActionView) {
        if then_read {
            self.begin_read(token)
        } else {
            (self.idle(), ActionView::Wait)
        }
    }

    /// Arming `token` again after it was served.
    pub open spec fn rearm(self, token: Token, then_read: bool) -> (ServerView, ActionView) {
        if self.is_live(token) {
            (
                ServerView { phase: Phase::Rearming { token, then_read }, ..self },
                ActionView::Reregister(self.table[token.0].registration()),
            )
        } else {
            (self.idle(), ActionView::Wait)
        }
    }

    /// Serving the writable part of a notification for `token`: the
    /// connection gives up the message that it queued last, which is to be
    /// written; with nothing queued it is armed again at once.
    pub open spec fn begin_write(self, token: Token, then_read: bool) -> (ServerView, ActionView) {
        if self.is_live(token) {
            let before = self.table[token.0];
            let served = ServerView { table: self.table.insert(token.0, before.drained()), ..self };
            match before.outgoing() {
                Some(message) => (
                    ServerView { phase: Phase::Writing { token, then_read }, ..served },
                    ActionView::Write { token, message },
                ),
                None => served.rearm(token, then_read),
            }
        } else {
            self.after_write(token, then_read)
        }
    }

    /// Routing one notification: an error or a hang-up tears the token
    /// down; otherwise the writable part is served before the readable
    /// part. A stopped reactor serves nothing.
    pub open spec fn ready(self, token: Token, events: EventSet) -> (ServerView, ActionView) {
        if !self.running {
            (self, ActionView::Shutdown)
        } else if events.error || events.hup {
            self.reset(token)
        } else if events.writable {
            self.begin_write(token, events.readable)
        } else {
            self.after_write(token, events.readable)
        }
    }

    /// Taking in what a read for `token` came to.
    pub open spec fn read_done(self, token: Token, outcome: Outcome) -> (ServerView, ActionView) {
        if outcome is Failed {
            self.reset(token)
        } else if self.is_live(token) {
            ServerView {
                table: self.table.insert(token.0, self.table[token.0].received(outcome)),
                ..self
            }.rearm(token, false)
        } else {
            (self.idle(), ActionView::Wait)
        }
    }

    /// The state after a peer with `address` was given the free place
    /// `key`, and the request to register it.
    pub open spec fn accepted(self, address: Seq<char>, key: usize) -> (ServerView, ActionView) {
        let connection = ConnectionView::fresh(address, Token(key));
        (
            ServerView {
                table: self.table.insert(key, connection),
                phase: Phase::Registering { token: Token(key) },
                ..self
            },
            ActionView::Register(connection.registration()),
        )
    }

    /// Whether adding a peer with `address` can lead from `self` to `next`
    /// with `action`: with room left the peer gets some free place, and
    /// without room nothing changes.
    pub open spec fn adds(self, address: Seq<char>, next: ServerView, action: ActionView) -> bool {
        if self.has_room() {
            &&& action matches ActionView::Register(registration)
            &&& Self::is_connection_key(registration.token.0)
            &&& !self.is_live(registration.token)
            &&& (next, action) == self.accepted(address, registration.token.0)
        } else {
            (next, action) == (self.idle(), ActionView::Wait)
        }
    }

    /// Whether taking in what an accept came to can lead from `self` to
    /// `next` with `action`.
    pub open spec fn accepts(self, outcome: Outcome, next: ServerView, action: ActionView) -> bool {
        match outcome {
            Outcome::Peer(address) => self.adds(address@, next, action),
            _ => (next, action) == (self.idle(), ActionView::Wait),
        }
    }

    /// Whether taking in what the outstanding operation came to can lead
    /// from `self` to `next` with `action`.
    pub open spec fn completes(self, outcome: Outcome, next: ServerView, action: ActionView) -> bool {
        match self.phase {
            Phase::Idle => (next, action) == (self, ActionView::Wait),
            Phase::Accepting => self.accepts(outcome, next, action),
            Phase::Registering { token } => (next, action) == if outcome is Failed {
                self.reset(token)
            } else {
                (self.idle(), ActionView::Wait)
            },
            Phase::Writing { token, then_read } => (next, action) == if outcome is Failed {
                self.reset(token)
            } else {
                self.rearm(token, then_read)
            },
            Phase::Rearming { token, then_read } => (next, action) == if outcome is Failed {
                self.reset(token)
            } else {
                self.after_write(token, then_read)
            },
            Phase::Reading { token } => (next, action) == self.read_done(token, outcome),
        }
    }
}

/// The reactor: the listener's token, the table of live connections, and
/// the operation that is outstanding. It decides; the caller, which holds
/// the sockets, performs.
pub struct Server {
    token: Token,
    connections: ConnectionTable,
    phase: Phase,
    running: bool,
}

impl View for Server {
    type V = ServerView;

    closed spec fn view(&self) -> ServerView {
        ServerView {
            token: self.token,
            table: table_entries(self.connections),
            phase: self.phase,
            running: self.running,
        }
    }
}

impl Server {
    /// The invariant that every function here keeps.
    pub closed spec fn wf(&self) -> bool {
        &&& table_span(self.connections) == (FIRST_CONNECTION, MAX_CONNECTIONS)
        &&& self@.wf()
    }

    /// A well-formed reactor's state is well-formed.
    pub proof fn lemma_wf(&self)
        requires
            self.wf(),
        ensures
            self@.wf(),
    {
    }

    /// A reactor with no connection yet.
    pub fn new() -> (server: Server)
        ensures
            server.wf(),
            server@ == ServerView::initial(),
    {
        Server {
            token: Token(LISTENER),
            connections: table_new(FIRST_CONNECTION, MAX_CONNECTIONS),
            phase: Phase::Idle,
            running: true,
        }
    }

    /// What to hand to the notification facility for the listening socket:
    /// readable interest only, edge-triggered and not one-shot.
    pub fn register(&self) -> (registration: Registration)
        ensures
            registration == (Registration {
                token: self@.token,
                interest: EventSet { readable: true, writable: false, error: false, hup: false },
                opts: PollOpt { edge: true, level: false, oneshot: false },
            }),
    {
        Registration { token: self.token, interest: EventSet::readable(), opts: PollOpt::edge() }
    }

    /// The listener's token.
    pub fn token(&self) -> (token: Token)
        ensures
            token == self@.token,
    {
        self.token
    }

    /// Whether the event loop is still meant to run.
    pub fn is_running(&self) -> (running: bool)
        ensures
            running == self@.running,
    {
        self.running
    }

    /// The operation that is outstanding.
    pub fn phase(&self) -> (phase: Phase)
        ensures
            phase == self@.phase,
    {
        self.phase
    }

    /// Whether `token` is one that the table can hand out.
    fn is_connection_token(token: Token) -> (yes: bool)
        ensures
            yes == ServerView::is_connection_key(token.0),
    {
        token.0 >= FIRST_CONNECTION && token.0 - FIRST_CONNECTION < MAX_CONNECTIONS
    }

    /// The live connection of `token`, if there is one.
    pub fn get_connection(&self, token: Token) -> (found: Option<&Connection>)
        requires
            self.wf(),
        ensures
            match found {
                Some(connection) => self@.is_live(token) && connection@ == self@.table[token.0],
                None => !self@.is_live(token),
            },
    {
        if Self::is_connection_token(token) {
            table_get(&self.connections, token.0)
        } else {
            None
        }
    }

    /// Tears `token` down. For the listener that stops the event loop. A
    /// live connection is removed from the table, and its socket is to be
    /// closed. A token that names neither is left alone, so that tearing
    /// down twice does no harm.
    pub fn reset_connection(&mut self, token: Token) -> (action: Action)
        requires
            old(self).wf(),
        ensures
            final(self).wf(),
            (final(self)@, action@) == old(self)@.reset(token),
    {
        self.phase = Phase::Idle;
        if token == self.token {
            self.running = false;
            return Action::Shutdown;
        }
        if Self::is_connection_token(token) {
            if table_get(&self.connections, token.0).is_some() {
                let _ = table_remove(&mut self.connections, token.0);
                return Action::Close { token };
            }
        }
        Action::Wait
    }

    /// Serves the readable part of a notification: an accept for the
    /// listener, a read for a live connection.
    fn begin_read(&mut self, token: Token) -> (action: Action)
        requires
            old(self).wf(),
            old(self)@.running,
        ensures
            final(self).wf(),
            (final(self)@, action@) == old(self)@.begin_read(token),
    {
        if token == self.token {
            self.phase = Phase::Accepting;
            return Action::Accept;
        }
        if self.get_connection(token).is_some() {
            self.phase = Phase::Reading { token };
            return Action::Read { token, capacity: READ_CAPACITY };
        }
        self.phase = Phase::Idle;
        Action::Wait
    }

    /// Goes on to the readable part of a notification, if it has one.
    fn after_write(&mut self, token: Token, then_read: bool) -> (action: Action)
        requires
            old(self).wf(),
            old(self)@.running,
        ensures
            final(self).wf(),
            (final(self)@, action@) == old(self)@.after_write(token, then_read),
    {
        if then_read {
            self.begin_read(token)
        } else {
            self.phase = Phase::Idle;
            Action::Wait
        }
    }

    /// Asks to arm a served connection again.
    fn rearm(&mut self, token: Token, then_read: bool) -> (action: Action)
        requires
            old(self).wf(),
            old(self)@.running,
        ensures
            final(self).wf(),
            (final(self)@, action@) == old(self)@.rearm(token, then_read),
    {
        match self.get_connection(token) {
            Some(connection) => {
                let registration = connection.reregister();
                self.phase = Phase::Rearming { token, then_read };
                Action::Reregister(registration)
            },
            None => {
                self.phase = Phase::Idle;
                Action::Wait
            },
        }
    }

    /// Serves the writable part of a notification for a live connection.
    fn begin_write(&mut self, token: Token, then_read: bool) -> (action: Action)
        requires
            old(self).wf(),
            old(self)@.running,
        ensures
            final(self).wf(),
            (final(self)@, action@) == old(self)@.begin_write(token, then_read),
    {
        if Self::is_connection_token(token) {
            match table_get_mut(&mut self.connections, token.0) {
                Some(connection) => {
                    let message = connection.writable();
                    assert(self@.table =~= old(self)@.table.insert(
                        token.0,
                        old(self)@.table[token.0].drained(),
                    ));
                    match message {
                        Some(message) => {
                            self.phase = Phase::Writing { token, then_read };
                            return Action::Write { token, message };
                        },
                        None => {
                            return self.rearm(token, then_read);
                        },
                    }
                },
                None => {},
            }
        }
        self.after_write(token, then_read)
    }

    /// Routes one readiness notification and says what to do first. An
    /// error or a hang-up tears the token down. Otherwise the writable part
    /// is served before the readable part, so that queued data leaves
    /// before more comes in. A notification supersedes whatever was still
    /// outstanding, and a stopped reactor serves none.
    pub fn ready(&mut self, token: Token, events: EventSet) -> (action: Action)
        requires
            old(self).wf(),
        ensures
            final(self).wf(),
            (final(self)@, action@) == old(self)@.ready(token, events),
    {
        if !self.running {
            return Action::Shutdown;
        }
        if events.is_error() {
            return self.reset_connection(token);
        }
        if events.is_hup() {
            return self.reset_connection(token);
        }
        if events.is_writable() {
            self.begin_write(token, events.is_readable())
        } else {
            self.after_write(token, events.is_readable())
        }
    }

    /// Gives a newly accepted peer a place in the table and asks for its
    /// socket to be registered. With the table full the peer is turned
    /// away and nothing changes.
    fn add_connection(&mut self, address: String) -> (action: Action)
        requires
            old(self).wf(),
            old(self)@.running,
        ensures
            final(self).wf(),
            old(self)@.adds(address@, final(self)@, action@),
    {
        match table_insert_with(&mut self.connections, address) {
            Some(key) => {
                let token = Token(key);
                match self.get_connection(token) {
                    Some(connection) => {
                        let registration = connection.register();
                        self.phase = Phase::Registering { token };
                        Action::Register(registration)
                    },
                    None => {
                        self.phase = Phase::Idle;
                        Action::Wait
                    },
                }
            },
            None => {
                self.phase = Phase::Idle;
                Action::Wait
            },
        }
    }

    /// Takes in what one accept attempt came to. A new peer is added to
    /// the table. An attempt that would have blocked, or that failed,
    /// changes nothing: the listener stays.
    fn accept(&mut self, outcome: Outcome) -> (action: Action)
        requires
            old(self).wf(),
            old(self)@.running,
        ensures
            final(self).wf(),
            old(self)@.accepts(outcome, final(self)@, action@),
    {
        match outcome {
            Outcome::Peer(address) => self.add_connection(address),
            _ => {
                self.phase = Phase::Idle;
                Action::Wait
            },
        }
    }

    /// Takes in what a read came to: the connection queues what it
    /// received and is armed again, or is torn down after a failure.
    fn read_done(&mut self, token: Token, outcome: Outcome) -> (action: Action)
        requires
            old(self).wf(),
            old(self)@.running,
        ensures
            final(self).wf(),
            (final(self)@, action@) == old(self)@.read_done(token, outcome),
    {
        if Self::is_connection_token(token) {
            match table_get_mut(&mut self.connections, token.0) {
                Some(connection) => {
                    let result = connection.readable(outcome);
                    assert(self@.table =~= old(self)@.table.insert(
                        token.0,
                        old(self)@.table[token.0].received(outcome),
                    ));
                    match result {
                        Ok(()) => {
                            return self.rearm(token, false);
                        },
                        Err(_) => {
                            assert(self@.table =~= old(self)@.table);
                            return self.reset_connection(token);
                        },
                    }
                },
                None => {},
            }
        }
        match outcome {
            Outcome::Failed => self.reset_connection(token),
            _ => {
                self.phase = Phase::Idle;
                Action::Wait
            },
        }
    }

    /// Takes in what the operation that was asked for came to, and says
    /// what to do next. A failure tears the connection down; otherwise a
    /// served connection is armed again, a write is followed by the
    /// readable part of the same notification, and a new connection is
    /// left registered.
    pub fn complete(&mut self, outcome: Outcome) -> (action: Action)
        requires
            old(self).wf(),
        ensures
            final(self).wf(),
            old(self)@.completes(outcome, final(self)@, action@),
    {
        match self.phase {
            Phase::Idle => Action::Wait,
            Phase::Accepting => self.accept(outcome),
            Phase::Registering { token } => {
                match outcome {
                    Outcome::Failed => self.reset_connection(token),
                    _ => {
                        self.phase = Phase::Idle;
                        Action::Wait
                    },
                }
            },
            Phase::Writing { token, then_read } => {
                match outcome {
                    Outcome::Failed => self.reset_connection(token),
                    _ => self.rearm(token, then_read),
                }
            },
            Phase::Rearming { token, then_read } => {
                match outcome {
                    Outcome::Failed => self.reset_connection(token),
                    _ => self.after_write(token, then_read),
                }
            },
            Phase::Reading { token } => self.read_done(token, outcome),
        }
    }
}

} // verus!
