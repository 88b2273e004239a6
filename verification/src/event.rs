use vstd::prelude::*;

verus! {

/// Identity of one registration with the notification facility: the listener
/// or one live connection.
#[derive(Clone, Copy, Debug, PartialEq, Eq, Structural)]
pub struct Token(pub usize);

/// A set of readiness conditions. It is used both for what a notification
/// reports and for what a connection wants to be notified about.
#[derive(Clone, Copy, Debug, PartialEq, Eq, Structural)]
pub struct EventSet {
    pub readable: bool,
    pub writable: bool,
    pub error: bool,
    pub hup: bool,
}

impl EventSet {
    /// The set that holds every condition of `self` and of `other`.
    pub open spec fn spec_union(self, other: EventSet) -> EventSet {
        EventSet {
            readable: self.readable || other.readable,
            writable: self.writable || other.writable,
            error: self.error || other.error,
            hup: self.hup || other.hup,
        }
    }

    /// The set that holds the conditions of `self` that `other` lacks.
    pub open spec fn spec_difference(self, other: EventSet) -> EventSet {
        EventSet {
            readable: self.readable && !other.readable,
            writable: self.writable && !other.writable,
            error: self.error && !other.error,
            hup: self.hup && !other.hup,
        }
    }

    /// Whether every condition of `other` is also one of `self`.
    pub open spec fn spec_contains(self, other: EventSet) -> bool {
        &&& other.readable ==> self.readable
        &&& other.writable ==> self.writable
        &&& other.error ==> self.error
        &&& other.hup ==> self.hup
    }

    /// The set without any condition.
    pub fn none() -> (set: EventSet)
        ensures
            set == (EventSet { readable: false, writable: false, error: false, hup: false }),
    {
        EventSet { readable: false, writable: false, error: false, hup: false }
    }

    /// The set of the one condition that data can be read.
    pub fn readable() -> (set: EventSet)
        ensures
            set == (EventSet { readable: true, writable: false, error: false, hup: false }),
    {
        EventSet { readable: true, writable: false, error: false, hup: false }
    }

    /// The set of the one condition that data can be written.
    pub fn writable() -> (set: EventSet)
        ensures
            set == (EventSet { readable: false, writable: true, error: false, hup: false }),
    {
        EventSet { readable: false, writable: true, error: false, hup: false }
    }

    /// The set of the one condition that the socket is in error.
    pub fn error() -> (set: EventSet)
        ensures
            set == (EventSet { readable: false, writable: false, error: true, hup: false }),
    {
        EventSet { readable: false, writable: false, error: true, hup: false }
    }

    /// The set of the one condition that the peer hung up.
    pub fn hup() -> (set: EventSet)
        ensures
            set == (EventSet { readable: false, writable: false, error: false, hup: true }),
    {
        EventSet { readable: false, writable: false, error: false, hup: true }
    }

    /// Whether the set holds that data can be read.
    pub fn is_readable(&self) -> (yes: bool)
        ensures
            yes == self.readable,
    {
        self.readable
    }

    /// Whether the set holds that data can be written.
    pub fn is_writable(&self) -> (yes: bool)
        ensures
            yes == self.writable,
    {
        self.writable
    }

    /// Whether the set holds that the socket is in error.
    pub fn is_error(&self) -> (yes: bool)
        ensures
            yes == self.error,
    {
        self.error
    }

    /// Whether the set holds that the peer hung up.
    pub fn is_hup(&self) -> (yes: bool)
        ensures
            yes == self.hup,
    {
        self.hup
    }

    /// The set of the conditions of both.
    pub fn union(self, other: EventSet) -> (set: EventSet)
        ensures
            set == self.spec_union(other),
    {
        EventSet {
            readable: self.readable || other.readable,
            writable: self.writable || other.writable,
            error: self.error || other.error,
            hup: self.hup || other.hup,
        }
    }

    /// Takes the conditions of `other` out of the set.
    pub fn remove(&mut self, other: EventSet)
        ensures
            *final(self) == old(self).spec_difference(other),
    {
        self.readable = self.readable && !other.readable;
        self.writable = self.writable && !other.writable;
        self.error = self.error && !other.error;
        self.hup = self.hup && !other.hup;
    }

    /// Whether the set holds every condition of `other`.
    pub fn contains(&self, other: EventSet) -> (yes: bool)
        ensures
            yes == self.spec_contains(other),
    {
        (!other.readable || self.readable) && (!other.writable || self.writable) && (!other.error
            || self.error) && (!other.hup || self.hup)
    }
}

/// How a registration delivers its notifications.
#[derive(Clone, Copy, Debug, PartialEq, Eq, Structural)]
pub struct PollOpt {
    pub edge: bool,
    pub level: bool,
    pub oneshot: bool,
}

impl PollOpt {
    /// The options of both.
    pub open spec fn spec_union(self, other: PollOpt) -> PollOpt {
        PollOpt {
            edge: self.edge || other.edge,
            level: self.level || other.level,
            oneshot: self.oneshot || other.oneshot,
        }
    }

    /// A notification for each change of readiness.
    pub fn edge() -> (opt: PollOpt)
        ensures
            opt == (PollOpt { edge: true, level: false, oneshot: false }),
    {
        PollOpt { edge: true, level: false, oneshot: false }
    }

    /// No further notification until the registration is armed again.
    pub fn oneshot() -> (opt: PollOpt)
        ensures
            opt == (PollOpt { edge: false, level: false, oneshot: true }),
    {
        PollOpt { edge: false, level: false, oneshot: true }
    }

    /// The options of both.
    pub fn union(self, other: PollOpt) -> (opt: PollOpt)
        ensures
            opt == self.spec_union(other),
    {
        PollOpt {
            edge: self.edge || other.edge,
            level: self.level || other.level,
            oneshot: self.oneshot || other.oneshot,
        }
    }
}

/// What one socket operation came to, as far as the reactor acts on it.
#[derive(Debug, PartialEq, Eq)]
pub enum Outcome {
    /// The operation succeeded and brought nothing that the reactor reads:
    /// a registration, a re-arming, a write, a close.
    Done,
    /// An accept produced a new peer, which has this address.
    Peer(String),
    /// A read succeeded with these bytes.
    Data(Vec<u8>),
    /// The operation could not proceed without blocking. Nothing happened.
    WouldBlock,
    /// The operation failed for good.
    Failed,
}

/// The signal that a connection must be torn down.
#[derive(Clone, Copy, Debug, PartialEq, Eq, Structural)]
pub struct Teardown;

/// What is handed to the notification facility when a socket is registered
/// or re-armed: under which token, for which conditions, and how delivered.
#[derive(Clone, Copy, Debug, PartialEq, Eq, Structural)]
pub struct Registration {
    pub token: Token,
    pub interest: EventSet,
    pub opts: PollOpt,
}

} // verus!
