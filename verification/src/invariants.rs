use vstd::prelude::*;
use crate::connection::{frame, is_message_end, lemma_message_end_exists, lemma_message_end_unique,
    read_window, ConnectionView, READ_CAPACITY};
use crate::event::{EventSet, Outcome, Token};
use crate::server::{ActionView, Phase, ServerView};

verus! {

/// A message is the start of what was received, holds no zero byte, is no
/// longer than one read attempt takes, and stops short of that only before
/// a zero byte.
pub proof fn lemma_frame_is_zero_free_prefix(bytes: Seq<u8>)
    ensures
        frame(bytes).len() <= bytes.len(),
        frame(bytes).len() <= READ_CAPACITY,
        frame(bytes) == bytes.take(frame(bytes).len() as int),
        forall|i: int| 0 <= i < frame(bytes).len() ==> frame(bytes)[i] != 0,
        frame(bytes).len() == bytes.len() || frame(bytes).len() == READ_CAPACITY || bytes[frame(
            bytes,
        ).len() as int] == 0,
{
    let window = read_window(bytes);
    lemma_message_end_exists(window);
    assert(frame(bytes) =~= bytes.take(frame(bytes).len() as int));
}

/// Bytes without a zero byte that fit into one read attempt are their own
/// message.
pub proof fn lemma_frame_keeps_zero_free(bytes: Seq<u8>)
    requires
        bytes.len() <= READ_CAPACITY,
        forall|i: int| 0 <= i < bytes.len() ==> bytes[i] != 0,
    ensures
        frame(bytes) == bytes,
{
    assert(is_message_end(bytes, bytes.len() as int));
    lemma_message_end_unique(bytes, bytes.len() as int);
    assert(frame(bytes) =~= bytes);
}

/// A message stops before the first zero byte of what was received.
pub proof fn lemma_frame_stops_at_zero(bytes: Seq<u8>, at: int)
    requires
        0 <= at < bytes.len(),
        at < READ_CAPACITY,
        bytes[at] == 0,
        forall|i: int| 0 <= i < at ==> bytes[i] != 0,
    ensures
        frame(bytes) == bytes.take(at),
{
    let window = read_window(bytes);
    assert(is_message_end(window, at));
    lemma_message_end_unique(window, at);
    assert(frame(bytes) =~= bytes.take(at));
}

/// Queuing a message, serving a writable notification and taking in a read
/// each keep a connection well-formed.
pub proof fn lemma_connection_stays_well_formed(connection: ConnectionView, message: Seq<u8>, outcome: Outcome)
    requires
        connection.wf(),
    ensures
        connection.queued(message).wf(),
        connection.drained().wf(),
        connection.received(outcome).wf(),
        connection.queued(message).token == connection.token,
        connection.drained().token == connection.token,
        connection.received(outcome).token == connection.token,
{
}

/// After a message is queued the connection asks for writable
/// notifications; once a writable notification has emptied the queue it no
/// longer does.
pub proof fn lemma_writable_interest_follows_queue(connection: ConnectionView, message: Seq<u8>)
    ensures
        connection.queued(message).interest.writable,
        connection.drained().queue.len() == 0 ==> !connection.drained().interest.writable,
{
}

/// What a connection receives is what its next writable notification
/// writes, once and whole: the message leaves the queue as it came.
pub proof fn lemma_connection_echoes(connection: ConnectionView, bytes: Vec<u8>)
    ensures
        connection.received(Outcome::Data(bytes)).outgoing() == Some(frame(bytes@)),
        connection.received(Outcome::Data(bytes)).drained().queue == connection.queue,
{
    let got = connection.received(Outcome::Data(bytes));
    assert(got.queue.drop_last() =~= connection.queue);
    assert(got.drained().queue =~= connection.queue);
}

/// Tearing a token down twice is tearing it down once: the second time
/// changes nothing, and for a connection it finds nothing to close.
pub proof fn lemma_reset_twice(state: ServerView, token: Token)
    requires
        state.wf(),
    ensures
        state.reset(token).0.wf(),
        state.reset(token).0.reset(token).0 == state.reset(token).0,
        token != state.token ==> state.reset(token).0.reset(token).1 == ActionView::Wait,
        token == state.token ==> state.reset(token).0.reset(token).1 == ActionView::Shutdown,
{
}

/// Routing a notification keeps the reactor well-formed.
pub proof fn lemma_ready_keeps_wf(state: ServerView, token: Token, events: EventSet)
    requires
        state.wf(),
    ensures
        state.ready(token, events).0.wf(),
{
}

/// Taking in what an operation came to keeps the reactor well-formed.
pub proof fn lemma_complete_keeps_wf(
    state: ServerView,
    outcome: Outcome,
    next: ServerView,
    action: ActionView,
)
    requires
        state.wf(),
        state.completes(outcome, next, action),
    ensures
        next.wf(),
{
}

/// A notification for one token leaves every other connection as it was.
pub proof fn lemma_ready_touches_one_token(
    state: ServerView,
    token: Token,
    events: EventSet,
    other: Token,
)
    requires
        state.wf(),
        other != token,
    ensures
        state.ready(token, events).0.is_live(other) == state.is_live(other),
        state.is_live(other) ==> state.ready(token, events).0.table[other.0]
            == state.table[other.0],
{
}

/// A live connection stays in the table, under its token, until it is torn
/// down: a notification either asks to close it or leaves it live, and
/// then the token still names the connection of the same peer.
pub proof fn lemma_ready_keeps_or_closes(
    state: ServerView,
    token: Token,
    events: EventSet,
    other: Token,
)
    requires
        state.wf(),
        state.is_live(other),
    ensures
        state.ready(token, events).0.is_live(other) || state.ready(token, events).1
            == (ActionView::Close { token: other }),
        state.ready(token, events).0.is_live(other) ==> {
            &&& state.ready(token, events).0.table[other.0].token == other
            &&& state.ready(token, events).0.table[other.0].address
                == state.table[other.0].address
        },
{
}

/// The same holds when an operation's outcome is taken in.
pub proof fn lemma_complete_keeps_or_closes(
    state: ServerView,
    outcome: Outcome,
    next: ServerView,
    action: ActionView,
    other: Token,
)
    requires
        state.wf(),
        state.completes(outcome, next, action),
        state.is_live(other),
    ensures
        next.is_live(other) || action == (ActionView::Close { token: other }),
        next.is_live(other) ==> {
            &&& next.table[other.0].token == other
            &&& next.table[other.0].address == state.table[other.0].address
        },
{
}

/// The token that a new connection gets named no live connection before
/// and is not the listener's; it now names the new connection, and every
/// other connection is as it was.
pub proof fn lemma_new_token_is_fresh(
    state: ServerView,
    address: Seq<char>,
    next: ServerView,
    action: ActionView,
    other: Token,
)
    requires
        state.wf(),
        state.adds(address, next, action),
        state.has_room(),
    ensures
        action matches ActionView::Register(registration) && {
            &&& registration.token != state.token
            &&& !state.is_live(registration.token)
            &&& next.is_live(registration.token)
            &&& next.table[registration.token.0] == ConnectionView::fresh(
                address,
                registration.token,
            )
            &&& other != registration.token ==> next.is_live(other) == state.is_live(other)
            &&& state.is_live(other) ==> next.table[other.0] == state.table[other.0]
        },
{
}

/// An error or a hang-up on the listener stops the reactor.
pub proof fn lemma_listener_loss_stops(state: ServerView, events: EventSet)
    requires
        state.wf(),
        state.running,
        events.error || events.hup,
    ensures
        !state.ready(state.token, events).0.running,
        state.ready(state.token, events).1 == ActionView::Shutdown,
{
}

/// A stopped reactor serves nothing: no notification and no outcome changes
/// it, accepts a peer or asks for an operation on a socket.
pub proof fn lemma_stopped_serves_nothing(
    state: ServerView,
    token: Token,
    events: EventSet,
    outcome: Outcome,
    next: ServerView,
    action: ActionView,
)
    requires
        state.wf(),
        !state.running,
        state.completes(outcome, next, action),
    ensures
        state.ready(token, events) == (state, ActionView::Shutdown),
        next == state,
        action == ActionView::Wait,
{
}

/// Whoever serves a connection ends by arming it again or by tearing it
/// down: a write or a read for a live connection is never followed by
/// `Wait`, only by the request to arm that connection again or to close it.
pub proof fn lemma_served_is_rearmed_or_closed(
    state: ServerView,
    outcome: Outcome,
    next: ServerView,
    action: ActionView,
    token: Token,
)
    requires
        state.wf(),
        state.is_live(token),
        state.completes(outcome, next, action),
        state.phase == (Phase::Reading { token }) || (exists|then_read: bool|
            state.phase == (Phase::Writing { token, then_read })),
    ensures
        action == (ActionView::Close { token }) || action == ActionView::Reregister(
            next.table[token.0].registration(),
        ),
        action == (ActionView::Close { token }) <==> outcome is Failed,
        action == (ActionView::Close { token }) ==> !next.is_live(token),
        action != (ActionView::Close { token }) ==> next.is_live(token) && next.table[token.0].wf(),
{
}

/// Echo: a live connection that is being read receives bytes without a
/// zero byte that fit into one read attempt, and is armed again. Then it
/// asks for writable notifications, and the next one for it asks to write
/// exactly those bytes and leaves the connection's queue as it was before
/// the read: nothing is cut off and nothing is written twice.
pub proof fn lemma_reactor_echoes(
    state: ServerView,
    token: Token,
    bytes: Vec<u8>,
    read: ServerView,
    rearm: ActionView,
    armed: ServerView,
    wait: ActionView,
    events: EventSet,
)
    requires
        state.wf(),
        state.is_live(token),
        state.phase == (Phase::Reading { token }),
        bytes@.len() <= READ_CAPACITY,
        forall|i: int| 0 <= i < bytes@.len() ==> bytes@[i] != 0,
        state.completes(Outcome::Data(bytes), read, rearm),
        read.completes(Outcome::Done, armed, wait),
        events.writable,
        !events.error,
        !events.hup,
    ensures
        read.is_live(token),
        rearm == ActionView::Reregister(read.table[token.0].registration()),
        read.table[token.0].interest.writable,
        wait == ActionView::Wait,
        armed.ready(token, events).1 == (ActionView::Write { token, message: bytes@ }),
        armed.ready(token, events).0.table[token.0].queue == state.table[token.0].queue,
{
    lemma_frame_keeps_zero_free(bytes@);
    lemma_connection_echoes(state.table[token.0], bytes);
}

/// One thing that happens to the reactor: a notification arrives, or the
/// operation that it asked for comes to an end.
pub enum Input {
    Ready { token: Token, events: EventSet },
    Completed { outcome: Outcome },
}

/// Whether `input` can lead from `state` to `next` with `action`.
pub open spec fn steps(state: ServerView, input: Input, next: ServerView, action: ActionView) -> bool {
    match input {
        Input::Ready { token, events } => (next, action) == state.ready(token, events),
        Input::Completed { outcome } => state.completes(outcome, next, action),
    }
}

/// Whether `input` can lead from `state` to `next`.
pub open spec fn follows(state: ServerView, input: Input, next: ServerView) -> bool {
    exists|action: ActionView| #[trigger] steps(state, input, next, action)
}

/// Whether `states` are the states that a new reactor passes through under
/// `inputs`.
pub open spec fn is_run(states: Seq<ServerView>, inputs: Seq<Input>) -> bool {
    &&& states.len() == inputs.len() + 1
    &&& states[0] == ServerView::initial()
    &&& forall|at: int|
        0 <= at < inputs.len() ==> follows(states[at], #[trigger] inputs[at], states[at + 1])
}

/// Whatever notifications and outcomes arrive, in whatever order, every
/// state that the reactor passes through is well-formed: each live
/// connection stands under its own token, which no other connection and
/// not the listener has.
pub proof fn lemma_every_run_is_well_formed(states: Seq<ServerView>, inputs: Seq<Input>, at: int)
    requires
        is_run(states, inputs),
        0 <= at < states.len(),
    ensures
        states[at].wf(),
    decreases at,
{
    if at > 0 {
        lemma_every_run_is_well_formed(states, inputs, at - 1);
        let input = inputs[at - 1];
        assert(follows(states[at - 1], input, states[at - 1 + 1]));
        let action = choose|action: ActionView|
            #[trigger] steps(states[at - 1], input, states[at], action);
        match input {
            Input::Ready { token, events } => {
                lemma_ready_keeps_wf(states[at - 1], token, events);
            },
            Input::Completed { outcome } => {
                lemma_complete_keeps_wf(states[at - 1], outcome, states[at], action);
            },
        }
    }
}

} // verus!
