use rpg_engine::session::ConnectionState;

#[test]
fn fresh_connection_waits_for_login_answer() {
    let s = ConnectionState::new();
    assert!(s.my_id.is_none() && !s.connected && !s.connection_timed_out && !s.server_lost);
    assert!(s.session_token.is_none());
    assert_eq!((s.reconnect_attempts, s.max_reconnect_attempts), (0, 5));
}

#[test]
fn join_accepted_connects_and_resets_attempts() {
    let mut s = ConnectionState::new();
    s.reconnect_attempts = 3;
    s.on_join_accepted(7, 0xABCD);
    assert_eq!(s.my_id, Some(7));
    assert!(s.connected);
    assert_eq!(s.session_token, Some(0xABCD));
    assert_eq!(s.reconnect_attempts, 0);
    s.on_join_rejected();
    assert!(!s.connected);
}

#[test]
fn connection_attempt_times_out_only_while_unconnected() {
    let mut s = ConnectionState::new();
    assert!(!s.check_timeouts(false, true));
    assert!(!s.connection_timed_out);
    assert!(!s.check_timeouts(true, false));
    assert!(s.connection_timed_out);
    let mut c = ConnectionState::new();
    c.on_join_accepted(1, 2);
    c.check_timeouts(true, false);
    assert!(!c.connection_timed_out && c.connected);
}

#[test]
fn silent_server_is_lost_once() {
    let mut s = ConnectionState::new();
    s.on_join_accepted(1, 99);
    assert!(s.check_timeouts(false, true));
    assert!(s.server_lost && !s.connected);
    assert!(!s.check_timeouts(false, true), "already lost");
    assert_eq!(s.session_token, Some(99));
}

#[test]
fn reconnect_needs_a_session_token() {
    let s = ConnectionState::new();
    assert_eq!(s.reconnect_token(), Err("No session token for reconnect".to_string()));
    assert!(!s.may_reconnect());
    let mut t = ConnectionState::new();
    t.on_join_accepted(4, 1234);
    t.check_timeouts(false, true);
    assert_eq!(t.reconnect_token(), Ok(1234));
    assert!(t.may_reconnect());
    t.mark_reconnecting();
    assert!(!t.connected && !t.server_lost && !t.connection_timed_out);
    assert_eq!(t.reconnect_attempts, 1);
    for _ in 0..4 {
        t.mark_reconnecting();
    }
    assert!(!t.may_reconnect());
}
