use vstd::prelude::*;

verus! {

/// The client's view of its connection: the decisions of the networking
/// loop, apart from the socket itself and the clock.
#[derive(Clone, Debug)]
pub struct ConnectionState {
    pub my_id: Option<u64>,
    pub connected: bool,
    pub connection_timed_out: bool,
    pub server_lost: bool,
    pub session_token: Option<u64>,
    pub reconnect_attempts: u32,
    pub max_reconnect_attempts: u32,
}

/// Error text when a reconnect is asked for before any session was granted.
pub open spec fn no_token_message() -> Seq<char> {
    "No session token for reconnect"@
}

/// The state once the server accepted us with this id and session.
pub open spec fn joined(s: ConnectionState, your_id: u64, session_token: u64) -> ConnectionState {
    ConnectionState {
        my_id: Some(your_id),
        connected: true,
        session_token: Some(session_token),
        reconnect_attempts: 0,
        ..s
    }
}

/// The state after applying the connection and silence timeouts.
pub open spec fn after_timeouts(s: ConnectionState, connect_expired: bool, silence_expired: bool) -> ConnectionState {
    let lost_now = s.connected && !s.server_lost && silence_expired;
    ConnectionState {
        connection_timed_out: s.connection_timed_out || (!s.connected && connect_expired),
        server_lost: s.server_lost || lost_now,
        connected: s.connected && !lost_now,
        ..s
    }
}

/// The state right after a new socket was bound for reconnecting.
pub open spec fn reconnecting(s: ConnectionState) -> ConnectionState {
    ConnectionState {
        connected: false,
        server_lost: false,
        connection_timed_out: false,
        reconnect_attempts: (s.reconnect_attempts + 1) as u32,
        ..s
    }
}

impl ConnectionState {
    /// A fresh connection that has sent its login and waits for an answer.
    pub fn new() -> (s: Self)
        ensures
            s.my_id is None,
            !s.connected,
            !s.connection_timed_out,
            !s.server_lost,
            s.session_token is None,
            s.reconnect_attempts == 0,
            s.max_reconnect_attempts == 5,
    {
        ConnectionState {
            my_id: None,
            connected: false,
            connection_timed_out: false,
            server_lost: false,
            session_token: None,
            reconnect_attempts: 0,
            max_reconnect_attempts: 5,
        }
    }

    /// The server accepted us: remember our id and session, and start
    /// counting reconnect attempts afresh.
    pub fn on_join_accepted(&mut self, your_id: u64, session_token: u64)
        ensures
            *final(self) == joined(*old(self), your_id, session_token),
    {
        self.my_id = Some(your_id);
        self.connected = true;
        self.session_token = Some(session_token);
        self.reconnect_attempts = 0;
    }

    /// The server refused us.
    pub fn on_join_rejected(&mut self)
        ensures
            *final(self) == (ConnectionState { connected: false, ..*old(self) }),
    {
        self.connected = false;
    }

    /// Applies the two timeouts: still unconnected once the connection
    /// timeout has passed marks the attempt timed out; connected but silent
    /// past the disconnect timeout marks the server lost and disconnects.
    /// Returns whether the server was lost just now.
    pub fn check_timeouts(&mut self, connect_expired: bool, silence_expired: bool) -> (lost_now: bool)
        ensures
            lost_now == (old(self).connected && !old(self).server_lost && silence_expired),
            *final(self) == after_timeouts(*old(self), connect_expired, silence_expired),
    {
        if !self.connected && !self.connection_timed_out && connect_expired {
            self.connection_timed_out = true;
        }
        if self.connected && !self.server_lost && silence_expired {
            self.server_lost = true;
            self.connected = false;
            return true;
        }
        false
    }

    /// The session token to reconnect with, or the error when there is none.
    pub fn reconnect_token(&self) -> (r: Result<u64, String>)
        ensures
            match self.session_token {
                Some(t) => r == Ok::<u64, String>(t),
                None => r matches Err(e) && e@ == no_token_message(),
            },
    {
        match self.session_token {
            Some(t) => Ok(t),
            None => Err("No session token for reconnect".to_owned()),
        }
    }

    /// A new socket is in place: wait for the server again, counting the attempt.
    pub fn mark_reconnecting(&mut self)
        requires
            old(self).reconnect_attempts < u32::MAX,
        ensures
            *final(self) == reconnecting(*old(self)),
    {
        self.connected = false;
        self.server_lost = false;
        self.connection_timed_out = false;
        self.reconnect_attempts = self.reconnect_attempts + 1;
    }

    /// Whether further reconnect attempts are allowed.
    pub fn may_reconnect(&self) -> (b: bool)
        ensures
            b == (self.session_token is Some && self.reconnect_attempts < self.max_reconnect_attempts),
    {
        self.session_token.is_some() && self.reconnect_attempts < self.max_reconnect_attempts
    }
}

/// A connection that is accepted and then goes silent is lost and no
/// longer connected but keeps its id and session token; reconnecting
/// then waits for the server again with one attempt counted, and a new
/// acceptance resets the count.
pub proof fn lemma_reconnect_after_loss(s: ConnectionState, id: u64, token: u64, new_token: u64)
    requires
        !s.server_lost,
    ensures
        ({
            let lost = after_timeouts(joined(s, id, token), false, true);
            let again = reconnecting(lost);
            &&& !lost.connected
            &&& lost.server_lost
            &&& lost.session_token == Some(token)
            &&& lost.my_id == Some(id)
            &&& !again.connected && !again.server_lost && !again.connection_timed_out
            &&& again.reconnect_attempts == 1
            &&& again.session_token == Some(token)
            &&& joined(again, id, new_token).reconnect_attempts == 0
            &&& joined(again, id, new_token).connected
        }),
{
}

/// Once connected, the connection timeout never marks the attempt as timed out.
pub proof fn lemma_connected_never_times_out(s: ConnectionState, connect_expired: bool, silence_expired: bool)
    requires
        s.connected,
        !s.connection_timed_out,
    ensures
        !after_timeouts(s, connect_expired, silence_expired).connection_timed_out,
{
}

} // verus!
