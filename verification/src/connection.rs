use vstd::prelude::*;
use crate::event::{EventSet, Outcome, PollOpt, Registration, Teardown, Token};

verus! {

/// The number of bytes that one read attempt takes at most.
pub const READ_CAPACITY: usize = 1024;

/// Whether `end` is where the message in `bytes` stops: no zero byte lies
/// before it, and it is the place of a zero byte or the end of `bytes`.
pub open spec fn is_message_end(bytes: Seq<u8>, end: int) -> bool {
    &&& 0 <= end <= bytes.len()
    &&& forall|i: int| 0 <= i < end ==> bytes[i] != 0
    &&& end == bytes.len() || bytes[end] == 0
}

/// The place of the first zero byte in `bytes`, or its length where it
/// holds none.
pub open spec fn message_end(bytes: Seq<u8>) -> int {
    choose|end: int| is_message_end(bytes, end)
}

/// What one read attempt can take of `bytes`.
pub open spec fn read_window(bytes: Seq<u8>) -> Seq<u8> {
    if bytes.len() <= READ_CAPACITY {
        bytes
    } else {
        bytes.take(READ_CAPACITY as int)
    }
}

/// The message that received bytes stand for: what one read attempt takes
/// of them, cut before its first zero byte.
pub open spec fn frame(bytes: Seq<u8>) -> Seq<u8> {
    read_window(bytes).take(message_end(read_window(bytes)))
}

/// The place where a message stops is the only one of its kind.
pub proof fn lemma_message_end_unique(bytes: Seq<u8>, end: int)
    requires
        is_message_end(bytes, end),
    ensures
        message_end(bytes) == end,
{
    let chosen = message_end(bytes);
    assert(is_message_end(bytes, chosen));
    if chosen < end {
        assert(bytes[chosen] != 0);
    }
    if end < chosen {
        assert(bytes[end] != 0);
    }
}

/// Every sequence of bytes has a place where its message stops.
pub proof fn lemma_message_end_exists(bytes: Seq<u8>)
    ensures
        is_message_end(bytes, message_end(bytes)),
    decreases bytes.len(),
{
    if bytes.len() == 0 {
        assert(is_message_end(bytes, 0));
    } else {
        let front = bytes.drop_last();
        lemma_message_end_exists(front);
        let end = message_end(front);
        if end < front.len() {
            assert(bytes[end] == front[end]);
            assert forall|i: int| 0 <= i < end implies bytes[i] != 0 by {
                assert(bytes[i] == front[i]);
            }
            assert(is_message_end(bytes, end));
        } else {
            assert forall|i: int| 0 <= i < end implies bytes[i] != 0 by {
                assert(bytes[i] == front[i]);
            }
            if bytes[end] == 0 {
                assert(is_message_end(bytes, end));
            } else {
                assert(is_message_end(bytes, end + 1));
            }
        }
    }
}

/// Cuts received bytes down to the message they stand for.
pub fn frame_message(received: &Vec<u8>) -> (message: Vec<u8>)
    ensures
        message@ == frame(received@),
        message@ == received@.take(message@.len() as int),
        is_message_end(read_window(received@), message@.len() as int),
{
    let limit: usize = if received.len() <= READ_CAPACITY {
        received.len()
    } else {
        READ_CAPACITY
    };
    let ghost window = read_window(received@);
    let mut message: Vec<u8> = Vec::new();
    let mut i: usize = 0;
    while i < limit && received[i] != 0
        invariant
            i <= limit,
            limit == window.len(),
            limit <= received.len(),
            window == read_window(received@),
            forall|j: int| 0 <= j < limit ==> window[j] == received@[j],
            message@ == window.take(i as int),
            forall|j: int| 0 <= j < i ==> window[j] != 0,
        decreases limit - i,
    {
        message.push(received[i]);
        i += 1;
        assert(message@ =~= window.take(i as int));
    }
    proof {
        assert(is_message_end(window, i as int));
        lemma_message_end_unique(window, i as int);
        assert(message@ =~= received@.take(i as int));
    }
    message
}

/// The state of one live connection, as contracts speak of it.
pub struct ConnectionView {
    /// The peer's address, kept for diagnostics.
    pub address: Seq<char>,
    /// The token under which the connection is known.
    pub token: Token,
    /// The conditions the connection wants to be notified about.
    pub interest: EventSet,
    /// The messages that wait to be written, oldest first.
    pub queue: Seq<Seq<u8>>,
}

impl ConnectionView {
    /// A connection as it is right after its peer was accepted.
    pub open spec fn fresh(address: Seq<char>, token: Token) -> ConnectionView {
        ConnectionView {
            address,
            token,
            interest: EventSet { readable: true, writable: false, error: false, hup: true },
            queue: Seq::empty(),
        }
    }

    /// The invariant of a live connection: it always watches for data and
    /// for a hang-up, and it watches for room to write exactly while a
    /// message waits.
    pub open spec fn wf(self) -> bool {
        &&& self.interest.readable
        &&& self.interest.hup
        &&& self.interest.writable <==> self.queue.len() > 0
    }

    /// The connection after `message` was queued.
    pub open spec fn queued(self, message: Seq<u8>) -> ConnectionView {
        ConnectionView {
            interest: EventSet { writable: true, ..self.interest },
            queue: self.queue.push(message),
            ..self
        }
    }

    /// The connection after one writable notification was served.
    pub open spec fn drained(self) -> ConnectionView {
        if self.queue.len() > 1 {
            ConnectionView { queue: self.queue.drop_last(), ..self }
        } else {
            ConnectionView {
                interest: EventSet { writable: false, ..self.interest },
                queue: Seq::empty(),
                ..self
            }
        }
    }

    /// The message that one writable notification hands to the socket.
    pub open spec fn outgoing(self) -> Option<Seq<u8>> {
        if self.queue.len() == 0 {
            None
        } else {
            Some(self.queue.last())
        }
    }

    /// The connection after a read attempt came to `received`.
    pub open spec fn received(self, received: Outcome) -> ConnectionView {
        match received {
            Outcome::Data(bytes) => self.queued(frame(bytes@)),
            _ => self,
        }
    }

    /// What is handed to the notification facility to arm the connection.
    pub open spec fn registration(self) -> Registration {
        Registration {
            token: self.token,
            interest: self.interest,
            opts: PollOpt { edge: true, level: false, oneshot: true },
        }
    }
}

/// One accepted peer: its token, what it wants to be notified about, and
/// the messages that wait to be written to it.
#[derive(Debug)]
pub struct Connection {
    address: String,
    token: Token,
    interest: EventSet,
    send_queue: Vec<Vec<u8>>,
}

impl View for Connection {
    type V = ConnectionView;

    closed spec fn view(&self) -> ConnectionView {
        ConnectionView {
            address: self.address@,
            token: self.token,
            interest: self.interest,
            queue: Seq::new(self.send_queue@.len(), |i: int| self.send_queue@[i]@),
        }
    }
}

impl Connection {
    /// A connection for a peer that was just accepted. Nothing is read yet.
    pub fn new(address: String, token: Token) -> (connection: Connection)
        ensures
            connection@ == ConnectionView::fresh(address@, token),
            connection@.wf(),
    {
        let connection = Connection {
            address,
            token,
            interest: EventSet::hup().union(EventSet::readable()),
            send_queue: Vec::new(),
        };
        assert(connection@.queue =~= Seq::empty());
        connection
    }

    /// The token under which the connection is known.
    pub fn token(&self) -> (token: Token)
        ensures
            token == self@.token,
    {
        self.token
    }

    /// The conditions the connection wants to be notified about.
    pub fn interest(&self) -> (interest: EventSet)
        ensures
            interest == self@.interest,
    {
        self.interest
    }

    /// The peer's address.
    pub fn address(&self) -> (address: &String)
        ensures
            address@ == self@.address,
    {
        &self.address
    }

    /// The number of messages that wait to be written.
    pub fn pending(&self) -> (count: usize)
        ensures
            count == self@.queue.len(),
    {
        self.send_queue.len()
    }

    /// The waiting message at `index`, counted from the oldest.
    pub fn message(&self, index: usize) -> (message: Option<&Vec<u8>>)
        ensures
            match message {
                Some(m) => index < self@.queue.len() && m@ == self@.queue[index as int],
                None => index >= self@.queue.len(),
            },
    {
        if index < self.send_queue.len() {
            Some(&self.send_queue[index])
        } else {
            None
        }
    }

    /// What to hand to the notification facility when the connection's
    /// socket is registered: edge-triggered and one-shot, so that one
    /// notification is armed for each watched condition.
    pub fn register(&self) -> (registration: Registration)
        ensures
            registration == self@.registration(),
    {
        Registration {
            token: self.token,
            interest: self.interest,
            opts: PollOpt::edge().union(PollOpt::oneshot()),
        }
    }

    /// What to hand to the notification facility to arm the connection
    /// again after a notification for it was served.
    pub fn reregister(&self) -> (registration: Registration)
        ensures
            registration == self@.registration(),
    {
        Registration {
            token: self.token,
            interest: self.interest,
            opts: PollOpt::edge().union(PollOpt::oneshot()),
        }
    }

    /// Takes what one read attempt on the socket came to. Received bytes
    /// are cut before their first zero byte and queued to be echoed, valid
    /// text or not. A failed read is handed on as the signal to tear the
    /// connection down, and leaves it as it was; an attempt that would have
    /// blocked changes nothing.
    pub fn readable(&mut self, received: Outcome) -> (result: Result<(), Teardown>)
        ensures
            result is Err <==> received is Failed,
            final(self)@ == old(self)@.received(received),
            old(self)@.wf() ==> final(self)@.wf(),
    {
        match received {
            Outcome::Data(bytes) => {
                let message = frame_message(&bytes);
                self.send(message);
                Ok(())
            },
            Outcome::Failed => Err(Teardown),
            _ => Ok(()),
        }
    }

    /// Queues `message` and asks to be notified when the socket can be
    /// written to. Nothing is written yet.
    pub fn send(&mut self, message: Vec<u8>)
        ensures
            final(self)@ == old(self)@.queued(message@),
            final(self)@.interest.writable,
            old(self)@.wf() ==> final(self)@.wf(),
    {
        self.send_queue.push(message);
        self.interest = self.interest.union(EventSet::writable());
        assert(self@.queue =~= old(self)@.queue.push(message@));
    }

    /// Serves one writable notification: takes the message that was queued
    /// last, if any, to be written in one attempt, and stops asking for
    /// writable notifications once nothing waits.
    pub fn writable(&mut self) -> (message: Option<Vec<u8>>)
        ensures
            final(self)@ == old(self)@.drained(),
            match message {
                Some(m) => old(self)@.outgoing() == Some(m@),
                None => old(self)@.outgoing() is None,
            },
            final(self)@.queue.len() == 0 ==> !final(self)@.interest.writable,
            old(self)@.wf() ==> final(self)@.wf(),
    {
        let message = self.send_queue.pop();
        if self.send_queue.is_empty() {
            self.interest.remove(EventSet::writable());
        }
        assert(self@.queue =~= old(self)@.drained().queue);
        message
    }
}

} // verus!
