use echo_server::connection::READ_CAPACITY;
use echo_server::event::{EventSet, Outcome, PollOpt, Registration, Token};
use echo_server::server::{Action, Phase, Server, FIRST_CONNECTION, LISTENER, MAX_CONNECTIONS};

fn armed(token: Token, writable: bool) -> Registration {
    Registration {
        token,
        interest: EventSet { readable: true, writable, error: false, hup: true },
        opts: PollOpt { edge: true, level: false, oneshot: true },
    }
}

fn connect(server: &mut Server, address: &str) -> Token {
    assert_eq!(server.ready(Token(LISTENER), EventSet::readable()), Action::Accept);
    let token = match server.complete(Outcome::Peer(String::from(address))) {
        Action::Register(registration) => {
            assert_eq!(registration, armed(registration.token, false));
            registration.token
        }
        other => panic!("no registration: {:?}", other),
    };
    assert_eq!(server.complete(Outcome::Done), Action::Wait);
    token
}

fn receive(server: &mut Server, token: Token, bytes: Vec<u8>) {
    assert_eq!(
        server.ready(token, EventSet::readable()),
        Action::Read { token, capacity: READ_CAPACITY }
    );
    assert_eq!(server.complete(Outcome::Data(bytes)), Action::Reregister(armed(token, true)));
    assert_eq!(server.complete(Outcome::Done), Action::Wait);
}

#[test]
fn constants_match_the_table() {
    assert_eq!(LISTENER, 1);
    assert_eq!(FIRST_CONNECTION, 2);
    assert_eq!(MAX_CONNECTIONS, 128);
}

#[test]
fn new_server_is_running_and_empty() {
    let server = Server::new();
    assert!(server.is_running());
    assert_eq!(server.token(), Token(1));
    assert_eq!(server.phase(), Phase::Idle);
    assert!(server.get_connection(Token(0)).is_none());
    assert!(server.get_connection(Token(1)).is_none());
    assert!(server.get_connection(Token(2)).is_none());
    assert!(server.get_connection(Token(129)).is_none());
    assert!(server.get_connection(Token(130)).is_none());
    assert!(server.get_connection(Token(usize::MAX)).is_none());
}

#[test]
fn listener_registers_for_readable_edge_triggered() {
    let server = Server::new();
    assert_eq!(
        server.register(),
        Registration {
            token: Token(1),
            interest: EventSet { readable: true, writable: false, error: false, hup: false },
            opts: PollOpt { edge: true, level: false, oneshot: false },
        }
    );
}

#[test]
fn readable_on_listener_asks_for_accept() {
    let mut server = Server::new();
    assert_eq!(server.ready(Token(1), EventSet::readable()), Action::Accept);
    assert_eq!(server.phase(), Phase::Accepting);
}

#[test]
fn accepted_peer_gets_first_token_and_is_registered() {
    let mut server = Server::new();
    assert_eq!(server.ready(Token(1), EventSet::readable()), Action::Accept);
    let action = server.complete(Outcome::Peer(String::from("10.1.2.3:5555")));
    assert_eq!(action, Action::Register(armed(Token(2), false)));
    assert_eq!(server.phase(), Phase::Registering { token: Token(2) });
    assert_eq!(server.complete(Outcome::Done), Action::Wait);
    assert_eq!(server.phase(), Phase::Idle);
    let connection = server.get_connection(Token(2)).expect("live");
    assert_eq!(connection.token(), Token(2));
    assert_eq!(connection.address(), "10.1.2.3:5555");
    assert_eq!(connection.pending(), 0);
    assert_eq!(
        connection.interest(),
        EventSet { readable: true, writable: false, error: false, hup: true }
    );
}

#[test]
fn accept_would_block_changes_nothing() {
    let mut server = Server::new();
    assert_eq!(server.ready(Token(1), EventSet::readable()), Action::Accept);
    assert_eq!(server.complete(Outcome::WouldBlock), Action::Wait);
    assert_eq!(server.phase(), Phase::Idle);
    assert!(server.is_running());
    assert!(server.get_connection(Token(2)).is_none());
}

#[test]
fn accept_failure_keeps_the_listener() {
    let mut server = Server::new();
    let first = connect(&mut server, "10.0.0.1:1");
    assert_eq!(server.ready(Token(1), EventSet::readable()), Action::Accept);
    assert_eq!(server.complete(Outcome::Failed), Action::Wait);
    assert!(server.is_running());
    assert!(server.get_connection(first).is_some());
    assert_eq!(server.ready(Token(1), EventSet::readable()), Action::Accept);
}

#[test]
fn failed_registration_removes_the_new_connection() {
    let mut server = Server::new();
    assert_eq!(server.ready(Token(1), EventSet::readable()), Action::Accept);
    let token = match server.complete(Outcome::Peer(String::from("10.0.0.1:1"))) {
        Action::Register(registration) => registration.token,
        other => panic!("no registration: {:?}", other),
    };
    assert!(server.get_connection(token).is_some());
    assert_eq!(server.complete(Outcome::Failed), Action::Close { token });
    assert!(server.get_connection(token).is_none());
    assert_eq!(server.phase(), Phase::Idle);
    assert!(server.is_running());
}

#[test]
fn tokens_are_distinct_and_resolve_to_their_connections() {
    let mut server = Server::new();
    let a = connect(&mut server, "10.0.0.1:1");
    let b = connect(&mut server, "10.0.0.2:2");
    let c = connect(&mut server, "10.0.0.3:3");
    assert_ne!(a, b);
    assert_ne!(a, c);
    assert_ne!(b, c);
    assert_ne!(a, Token(1));
    assert_ne!(b, Token(1));
    assert_ne!(c, Token(1));
    assert_eq!(a, Token(2));
    assert_eq!(server.get_connection(a).expect("a").address(), "10.0.0.1:1");
    assert_eq!(server.get_connection(b).expect("b").address(), "10.0.0.2:2");
    assert_eq!(server.get_connection(c).expect("c").address(), "10.0.0.3:3");
    assert_eq!(server.get_connection(a).expect("a").token(), a);
    assert_eq!(server.get_connection(b).expect("b").token(), b);
    assert_eq!(server.get_connection(c).expect("c").token(), c);
}

#[test]
fn removing_one_connection_leaves_the_others() {
    let mut server = Server::new();
    let a = connect(&mut server, "10.0.0.1:1");
    let b = connect(&mut server, "10.0.0.2:2");
    receive(&mut server, b, vec![1, 2]);
    assert_eq!(server.ready(a, EventSet::hup()), Action::Close { token: a });
    assert!(server.get_connection(a).is_none());
    let kept = server.get_connection(b).expect("b");
    assert_eq!(kept.address(), "10.0.0.2:2");
    assert_eq!(kept.message(0), Some(&vec![1, 2]));
}

#[test]
fn freed_token_is_given_out_again() {
    let mut server = Server::new();
    let a = connect(&mut server, "10.0.0.1:1");
    let b = connect(&mut server, "10.0.0.2:2");
    assert_eq!(server.reset_connection(a), Action::Close { token: a });
    let c = connect(&mut server, "10.0.0.3:3");
    assert_eq!(c, a);
    assert_ne!(c, b);
    assert_eq!(server.get_connection(c).expect("c").address(), "10.0.0.3:3");
    assert_eq!(server.get_connection(c).expect("c").pending(), 0);
    assert_eq!(server.get_connection(b).expect("b").address(), "10.0.0.2:2");
}

#[test]
fn full_table_turns_a_peer_away() {
    let mut server = Server::new();
    let mut tokens: Vec<Token> = Vec::new();
    for i in 0..128 {
        let token = connect(&mut server, "10.0.0.1:1");
        assert!(token.0 >= 2 && token.0 < 130);
        assert!(!tokens.contains(&token));
        tokens.push(token);
        assert_eq!(tokens.len(), i + 1);
    }
    assert_eq!(server.ready(Token(1), EventSet::readable()), Action::Accept);
    assert_eq!(server.complete(Outcome::Peer(String::from("10.0.0.9:9"))), Action::Wait);
    assert_eq!(server.phase(), Phase::Idle);
    for token in tokens.iter() {
        assert!(server.get_connection(*token).is_some());
    }
    assert_eq!(server.reset_connection(Token(77)), Action::Close { token: Token(77) });
    assert_eq!(connect(&mut server, "10.0.0.9:9"), Token(77));
}

#[test]
fn client_sends_hi_and_gets_hi_back_then_hangs_up() {
    let mut server = Server::new();
    let token = connect(&mut server, "127.0.0.1:50000");
    assert_eq!(
        server.ready(token, EventSet::readable()),
        Action::Read { token, capacity: 1024 }
    );
    assert_eq!(
        server.complete(Outcome::Data(vec![b'h', b'i'])),
        Action::Reregister(armed(token, true))
    );
    assert_eq!(server.complete(Outcome::Done), Action::Wait);
    assert_eq!(
        server.ready(token, EventSet::writable()),
        Action::Write { token, message: vec![b'h', b'i'] }
    );
    assert_eq!(server.complete(Outcome::Done), Action::Reregister(armed(token, false)));
    assert_eq!(server.complete(Outcome::Done), Action::Wait);
    assert_eq!(server.get_connection(token).expect("live").pending(), 0);
    assert_eq!(server.ready(token, EventSet::hup()), Action::Close { token });
    assert!(server.get_connection(token).is_none());
    assert_eq!(server.ready(token, EventSet::readable()), Action::Wait);
    assert_eq!(server.ready(token, EventSet::writable()), Action::Wait);
    assert_eq!(server.ready(token, EventSet::hup()), Action::Wait);
    assert!(server.is_running());
}

#[test]
fn zero_byte_cuts_the_echoed_message() {
    let mut server = Server::new();
    let token = connect(&mut server, "127.0.0.1:50000");
    receive(&mut server, token, vec![0x41, 0x42, 0x00, 0x43]);
    assert_eq!(
        server.get_connection(token).expect("live").message(0),
        Some(&vec![0x41, 0x42])
    );
    assert_eq!(
        server.ready(token, EventSet::writable()),
        Action::Write { token, message: vec![0x41, 0x42] }
    );
}

#[test]
fn error_on_listener_stops_the_loop() {
    let mut server = Server::new();
    let token = connect(&mut server, "127.0.0.1:50000");
    receive(&mut server, token, vec![1]);
    assert_eq!(server.ready(Token(1), EventSet::error()), Action::Shutdown);
    assert!(!server.is_running());
    assert_eq!(server.phase(), Phase::Idle);
    assert_eq!(server.ready(Token(1), EventSet::readable()), Action::Shutdown);
    assert_eq!(server.ready(token, EventSet::writable()), Action::Shutdown);
    assert_eq!(server.ready(token, EventSet::readable()), Action::Shutdown);
    assert_eq!(server.complete(Outcome::Done), Action::Wait);
    assert_eq!(server.complete(Outcome::Peer(String::from("10.0.0.1:1"))), Action::Wait);
    assert_eq!(server.get_connection(token).expect("kept").pending(), 1);
    assert!(!server.is_running());
}

#[test]
fn hangup_on_listener_stops_the_loop() {
    let mut server = Server::new();
    assert_eq!(server.ready(Token(1), EventSet::hup()), Action::Shutdown);
    assert!(!server.is_running());
}

#[test]
fn error_wins_over_every_other_condition() {
    let mut server = Server::new();
    let token = connect(&mut server, "127.0.0.1:50000");
    receive(&mut server, token, vec![1]);
    let all = EventSet { readable: true, writable: true, error: true, hup: true };
    assert_eq!(server.ready(token, all), Action::Close { token });
    assert!(server.get_connection(token).is_none());
}

#[test]
fn hangup_wins_over_writable_and_readable() {
    let mut server = Server::new();
    let token = connect(&mut server, "127.0.0.1:50000");
    receive(&mut server, token, vec![1]);
    let events = EventSet { readable: true, writable: true, error: false, hup: true };
    assert_eq!(server.ready(token, events), Action::Close { token });
    assert!(server.get_connection(token).is_none());
}

#[test]
fn teardown_twice_is_teardown_once() {
    let mut server = Server::new();
    let a = connect(&mut server, "10.0.0.1:1");
    let b = connect(&mut server, "10.0.0.2:2");
    assert_eq!(server.ready(a, EventSet::error()), Action::Close { token: a });
    assert_eq!(server.ready(a, EventSet::hup()), Action::Wait);
    assert_eq!(server.reset_connection(a), Action::Wait);
    assert!(server.get_connection(a).is_none());
    assert!(server.get_connection(b).is_some());
    assert!(server.is_running());
    let c = connect(&mut server, "10.0.0.3:3");
    let d = connect(&mut server, "10.0.0.4:4");
    assert_ne!(c, d);
    assert_ne!(c, b);
    assert_ne!(d, b);
    assert_eq!(server.get_connection(b).expect("b").address(), "10.0.0.2:2");
    assert_eq!(server.get_connection(c).expect("c").address(), "10.0.0.3:3");
    assert_eq!(server.get_connection(d).expect("d").address(), "10.0.0.4:4");
}

#[test]
fn teardown_of_unknown_tokens_does_nothing() {
    let mut server = Server::new();
    let a = connect(&mut server, "10.0.0.1:1");
    assert_eq!(server.reset_connection(Token(0)), Action::Wait);
    assert_eq!(server.reset_connection(Token(50)), Action::Wait);
    assert_eq!(server.reset_connection(Token(130)), Action::Wait);
    assert_eq!(server.reset_connection(Token(usize::MAX)), Action::Wait);
    assert!(server.get_connection(a).is_some());
    assert_eq!(connect(&mut server, "10.0.0.2:2"), Token(3));
}

#[test]
fn reset_of_listener_shuts_down() {
    let mut server = Server::new();
    assert_eq!(server.reset_connection(Token(1)), Action::Shutdown);
    assert!(!server.is_running());
    assert_eq!(server.reset_connection(Token(1)), Action::Shutdown);
}

#[test]
fn writable_is_served_before_readable() {
    let mut server = Server::new();
    let token = connect(&mut server, "127.0.0.1:50000");
    receive(&mut server, token, vec![1]);
    let both = EventSet::writable().union(EventSet::readable());
    assert_eq!(server.ready(token, both), Action::Write { token, message: vec![1] });
    assert_eq!(server.phase(), Phase::Writing { token, then_read: true });
    assert_eq!(server.complete(Outcome::Done), Action::Reregister(armed(token, false)));
    assert_eq!(
        server.complete(Outcome::Done),
        Action::Read { token, capacity: READ_CAPACITY }
    );
    assert_eq!(server.complete(Outcome::Data(vec![2])), Action::Reregister(armed(token, true)));
    assert_eq!(server.complete(Outcome::Done), Action::Wait);
    assert_eq!(server.get_connection(token).expect("live").message(0), Some(&vec![2]));
}

#[test]
fn writable_sends_the_message_queued_last() {
    let mut server = Server::new();
    let token = connect(&mut server, "127.0.0.1:50000");
    receive(&mut server, token, vec![1]);
    receive(&mut server, token, vec![2]);
    assert_eq!(
        server.ready(token, EventSet::writable()),
        Action::Write { token, message: vec![2] }
    );
    assert_eq!(server.complete(Outcome::Done), Action::Reregister(armed(token, true)));
    assert_eq!(server.complete(Outcome::Done), Action::Wait);
    assert_eq!(
        server.ready(token, EventSet::writable()),
        Action::Write { token, message: vec![1] }
    );
    assert_eq!(server.complete(Outcome::Done), Action::Reregister(armed(token, false)));
}

#[test]
fn writable_with_nothing_queued_rearms() {
    let mut server = Server::new();
    let token = connect(&mut server, "127.0.0.1:50000");
    assert_eq!(
        server.ready(token, EventSet::writable()),
        Action::Reregister(armed(token, false))
    );
    assert_eq!(server.phase(), Phase::Rearming { token, then_read: false });
    assert_eq!(server.complete(Outcome::Done), Action::Wait);
    assert!(server.get_connection(token).is_some());
}

#[test]
fn write_that_would_block_is_not_retried() {
    let mut server = Server::new();
    let token = connect(&mut server, "127.0.0.1:50000");
    receive(&mut server, token, vec![1, 2, 3]);
    assert_eq!(
        server.ready(token, EventSet::writable()),
        Action::Write { token, message: vec![1, 2, 3] }
    );
    assert_eq!(server.complete(Outcome::WouldBlock), Action::Reregister(armed(token, false)));
    assert_eq!(server.get_connection(token).expect("live").pending(), 0);
}

#[test]
fn failed_write_tears_the_connection_down() {
    let mut server = Server::new();
    let token = connect(&mut server, "127.0.0.1:50000");
    let other = connect(&mut server, "127.0.0.1:50001");
    receive(&mut server, token, vec![1]);
    let both = EventSet::writable().union(EventSet::readable());
    assert_eq!(server.ready(token, both), Action::Write { token, message: vec![1] });
    assert_eq!(server.complete(Outcome::Failed), Action::Close { token });
    assert!(server.get_connection(token).is_none());
    assert!(server.get_connection(other).is_some());
    assert_eq!(server.phase(), Phase::Idle);
    assert_eq!(server.complete(Outcome::Done), Action::Wait);
}

#[test]
fn failed_rearming_tears_the_connection_down() {
    let mut server = Server::new();
    let token = connect(&mut server, "127.0.0.1:50000");
    assert_eq!(
        server.ready(token, EventSet::readable()),
        Action::Read { token, capacity: READ_CAPACITY }
    );
    assert_eq!(server.complete(Outcome::Data(vec![1])), Action::Reregister(armed(token, true)));
    assert_eq!(server.complete(Outcome::Failed), Action::Close { token });
    assert!(server.get_connection(token).is_none());
}

#[test]
fn failed_rearming_after_write_skips_the_read() {
    let mut server = Server::new();
    let token = connect(&mut server, "127.0.0.1:50000");
    receive(&mut server, token, vec![1]);
    let both = EventSet::writable().union(EventSet::readable());
    assert_eq!(server.ready(token, both), Action::Write { token, message: vec![1] });
    assert_eq!(server.complete(Outcome::Done), Action::Reregister(armed(token, false)));
    assert_eq!(server.complete(Outcome::Failed), Action::Close { token });
    assert_eq!(server.complete(Outcome::Done), Action::Wait);
    assert!(server.get_connection(token).is_none());
}

#[test]
fn failed_read_tears_the_connection_down() {
    let mut server = Server::new();
    let token = connect(&mut server, "127.0.0.1:50000");
    assert_eq!(
        server.ready(token, EventSet::readable()),
        Action::Read { token, capacity: READ_CAPACITY }
    );
    assert_eq!(server.phase(), Phase::Reading { token });
    assert_eq!(server.complete(Outcome::Failed), Action::Close { token });
    assert!(server.get_connection(token).is_none());
    assert!(server.is_running());
}

#[test]
fn read_that_would_block_only_rearms() {
    let mut server = Server::new();
    let token = connect(&mut server, "127.0.0.1:50000");
    assert_eq!(
        server.ready(token, EventSet::readable()),
        Action::Read { token, capacity: READ_CAPACITY }
    );
    assert_eq!(server.complete(Outcome::WouldBlock), Action::Reregister(armed(token, false)));
    assert_eq!(server.complete(Outcome::Done), Action::Wait);
    assert_eq!(server.get_connection(token).expect("live").pending(), 0);
}

#[test]
fn empty_read_does_not_close() {
    let mut server = Server::new();
    let token = connect(&mut server, "127.0.0.1:50000");
    receive(&mut server, token, Vec::new());
    let connection = server.get_connection(token).expect("live");
    assert_eq!(connection.pending(), 1);
    assert_eq!(connection.message(0), Some(&Vec::new()));
}

#[test]
fn notification_without_conditions_does_nothing() {
    let mut server = Server::new();
    let token = connect(&mut server, "127.0.0.1:50000");
    assert_eq!(server.ready(token, EventSet::none()), Action::Wait);
    assert_eq!(server.ready(Token(1), EventSet::none()), Action::Wait);
    assert!(server.get_connection(token).is_some());
}

#[test]
fn writable_on_listener_or_unknown_token_does_nothing() {
    let mut server = Server::new();
    assert_eq!(server.ready(Token(1), EventSet::writable()), Action::Wait);
    assert_eq!(server.ready(Token(5), EventSet::writable()), Action::Wait);
    assert_eq!(server.ready(Token(5), EventSet::readable()), Action::Wait);
    assert_eq!(server.ready(Token(0), EventSet::readable()), Action::Wait);
    assert_eq!(server.ready(Token(1000), EventSet::writable()), Action::Wait);
    assert!(server.is_running());
}

#[test]
fn writable_and_readable_on_listener_accepts() {
    let mut server = Server::new();
    let both = EventSet::writable().union(EventSet::readable());
    assert_eq!(server.ready(Token(1), both), Action::Accept);
}

#[test]
fn outcome_without_outstanding_operation_is_ignored() {
    let mut server = Server::new();
    let token = connect(&mut server, "127.0.0.1:50000");
    assert_eq!(server.complete(Outcome::Failed), Action::Wait);
    assert_eq!(server.complete(Outcome::Data(vec![1])), Action::Wait);
    assert_eq!(server.complete(Outcome::Peer(String::from("10.0.0.1:1"))), Action::Wait);
    assert_eq!(server.get_connection(token).expect("live").pending(), 0);
    assert!(server.get_connection(Token(3)).is_none());
}

#[test]
fn new_notification_supersedes_outstanding_operation() {
    let mut server = Server::new();
    let token = connect(&mut server, "127.0.0.1:50000");
    assert_eq!(
        server.ready(token, EventSet::readable()),
        Action::Read { token, capacity: READ_CAPACITY }
    );
    assert_eq!(server.ready(Token(1), EventSet::readable()), Action::Accept);
    assert_eq!(server.phase(), Phase::Accepting);
    assert_eq!(server.complete(Outcome::Data(vec![1])), Action::Wait);
    assert_eq!(server.get_connection(token).expect("live").pending(), 0);
}
