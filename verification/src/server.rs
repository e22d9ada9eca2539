use vstd::prelude::*;
use std::collections::HashMap;
use crate::combat::{spell_damage, spec_spell_damage, KILL_ALL_SPELL};
use crate::protocol::{MAX_PLAYERS, PROTOCOL_VERSION};

verus! {

broadcast use vstd::std_specs::hash::group_hash_axioms;

/// Whether the debug command that spawns an enemy next to a player works.
pub const ENEMY_SPAWNING_ENABLED: bool = true;

/// What the server keeps about a player in the world: its public id, the
/// token it reconnects with, and the character it plays.
#[derive(Clone, Copy, Debug, PartialEq, Eq, Structural)]
pub struct PlayerSession {
    pub id: u64,
    pub session_token: u64,
    pub character_id: i32,
}

/// What a client sent, with what the application looked up for it: the
/// database's answers come back as events of their own, and `dead` is
/// whether the client's player is dead.
#[derive(Clone, Copy, Debug, PartialEq, Eq, Structural)]
pub enum ClientEvent {
    Login { version: u8 },
    AccountOpened { account_id: i32 },
    SelectCharacter { character_id: i32 },
    CharacterLoaded { character_id: i32, found: bool, session_token: u64 },
    CreateCharacter,
    DeleteCharacter { character_id: i32 },
    MoveTo { dead: bool },
    CastSpell { spell: u8, dead: bool },
    Ping,
    Reconnect { session_token: u64 },
    Disconnect,
    /// The client's player has not been heard from for too long.
    TimedOut,
    DebugToggleGodMode,
    DebugForceSpawn,
}

/// What the application is to do, in order. "Announce" sends to every
/// player then in the world; a roster sends the client one joined notice
/// per player then in the world.
#[derive(Clone, Copy, Debug, PartialEq, Eq, Structural)]
pub enum ServerAction {
    /// Refuse a login whose protocol version differs from the server's.
    RejectVersion { client: u64, client_version: u8 },
    /// Find or create the account, send its characters, and answer with
    /// `AccountOpened`.
    OpenAccount { client: u64 },
    /// Refuse a join because the server is full.
    RejectFull { client: u64 },
    /// Load the character and answer with `CharacterLoaded`.
    LoadCharacter { client: u64, account_id: i32, character_id: i32 },
    /// Drop the player at `client` without saving it.
    DropPlayer { client: u64 },
    /// Save the player at `client` and drop it.
    SaveAndRemove { client: u64 },
    AnnounceLeft { id: u64 },
    /// Tell the client it joined as `your_id`.
    Accept { client: u64, your_id: u64, session_token: u64 },
    SendRoster { client: u64 },
    /// Announce the character loaded for `client` as player `id`.
    AnnounceJoined { client: u64, id: u64 },
    /// Put the character loaded for `client` into the world.
    AddPlayer { client: u64, id: u64, session_token: u64 },
    /// Move the player at `from` to the client `to`.
    MovePlayer { from: u64, to: u64 },
    CreateCharacter { client: u64, account_id: i32 },
    DeleteCharacter { client: u64, account_id: i32, character_id: i32 },
    /// Note that the client was heard from.
    Touch { client: u64 },
    PlanPath { client: u64 },
    /// Start the cast and its visible effect.
    CastEffect { client: u64, spell: u8 },
    /// Deal `damage` to every living enemy in the spell's area.
    DamageEnemies { spell: u8, damage: i32 },
    KillAllEnemies,
    Pong { client: u64 },
    ToggleGodMode { client: u64 },
    SpawnEnemyNear { client: u64 },
}

/// The server's sessions: players in the world and clients choosing a
/// character (with their account), each keyed by the client number the
/// application gives every address; session tokens with the client they
/// belong to; and the next player id.
pub struct ServerSessions {
    pub players: HashMap<u64, PlayerSession>,
    pub pending: HashMap<u64, i32>,
    pub sessions: HashMap<u64, u64>,
    pub next_player_id: u64,
}

pub struct SessionsView {
    pub players: Map<u64, PlayerSession>,
    pub pending: Map<u64, i32>,
    pub sessions: Map<u64, u64>,
    pub next_player_id: u64,
}

impl View for ServerSessions {
    type V = SessionsView;

    open spec fn view(&self) -> SessionsView {
        SessionsView {
            players: self.players@,
            pending: self.pending@,
            sessions: self.sessions@,
            next_player_id: self.next_player_id,
        }
    }
}

impl SessionsView {
    /// Player ids are distinct and all below the next id to hand out.
    pub open spec fn wf(self) -> bool {
        &&& forall|c: u64| #[trigger] self.players.contains_key(c) ==> self.players[c].id < self.next_player_id
        &&& forall|c1: u64, c2: u64|
            #[trigger] self.players.contains_key(c1) && #[trigger] self.players.contains_key(c2) && c1 != c2
                ==> self.players[c1].id != self.players[c2].id
    }
}

impl ServerSessions {
    pub open spec fn wf(&self) -> bool {
        self@.wf()
    }

    /// No players, no pending clients, no sessions; ids start at 1.
    pub fn new() -> (s: Self)
        ensures
            s@.players == Map::<u64, PlayerSession>::empty(),
            s@.pending == Map::<u64, i32>::empty(),
            s@.sessions == Map::<u64, u64>::empty(),
            s@.next_player_id == 1,
            s.wf(),
    {
        ServerSessions { players: HashMap::new(), pending: HashMap::new(), sessions: HashMap::new(), next_player_id: 1 }
    }
}

/// The player at `client`, if any, leaves: it goes with its session token.
pub open spec fn without_player(s: SessionsView, client: u64) -> SessionsView {
    if s.players.contains_key(client) {
        SessionsView {
            players: s.players.remove(client),
            sessions: s.sessions.remove(s.players[client].session_token),
            ..s
        }
    } else {
        s
    }
}

pub open spec fn when(cond: bool, a: Seq<ServerAction>) -> Seq<ServerAction> {
    if cond {
        a
    } else {
        Seq::empty()
    }
}

/// What the server does for one event from `client`: the next sessions and
/// the actions, in order.
/// - A login with another protocol version is refused; otherwise the
///   account is opened, and once it is the client waits in `pending`.
/// - Selecting a character needs a pending client. A full server refuses
///   and keeps the client pending; otherwise the client leaves `pending`
///   and its character is loaded. A character that is not found ends the
///   attempt. A found one replaces any player the client already had
///   (announced as gone), joins under the next id with the given session
///   token: the client is accepted and sent the roster, the others are
///   told, and the player is added.
/// - Creating and deleting characters need a pending client.
/// - Moving, casting and pinging need a player; a dead player neither
///   moves nor casts. A cast deals its spell's damage, if any, and the
///   debug spell kills every enemy.
/// - A reconnect with a token whose client still has a player moves that
///   player, unchanged, to the new client, points the token there,
///   accepts the client and sends it the roster.
/// - A disconnect saves and removes the player (announced as gone),
///   drops its session token, and ends any pending login; a timeout does
///   the same but leaves a pending login alone.
pub open spec fn spec_server_step(s: SessionsView, client: u64, event: ClientEvent) -> (SessionsView, Seq<ServerAction>) {
    match event {
        ClientEvent::Login { version } => if version != PROTOCOL_VERSION {
            (s, seq![ServerAction::RejectVersion { client, client_version: version }])
        } else {
            (s, seq![ServerAction::OpenAccount { client }])
        },
        ClientEvent::AccountOpened { account_id } => (
            SessionsView { pending: s.pending.insert(client, account_id), ..s },
            Seq::empty(),
        ),
        ClientEvent::SelectCharacter { character_id } => if !s.pending.contains_key(client) {
            (s, Seq::empty())
        } else if s.players.len() >= MAX_PLAYERS {
            (s, seq![ServerAction::RejectFull { client }])
        } else {
            (
                SessionsView { pending: s.pending.remove(client), ..s },
                seq![ServerAction::LoadCharacter { client, account_id: s.pending[client], character_id }],
            )
        },
        ClientEvent::CharacterLoaded { character_id, found, session_token } => if !found {
            (s, Seq::empty())
        } else {
            let s1 = without_player(s, client);
            let id = s.next_player_id;
            (
                SessionsView {
                    players: s1.players.insert(client, PlayerSession { id, session_token, character_id }),
                    sessions: s1.sessions.insert(session_token, client),
                    next_player_id: (id + 1) as u64,
                    ..s1
                },
                when(
                    s.players.contains_key(client),
                    seq![
                        ServerAction::DropPlayer { client },
                        ServerAction::AnnounceLeft { id: s.players[client].id },
                    ],
                ) + seq![
                    ServerAction::Accept { client, your_id: id, session_token },
                    ServerAction::SendRoster { client },
                    ServerAction::AnnounceJoined { client, id },
                    ServerAction::AddPlayer { client, id, session_token },
                ],
            )
        },
        ClientEvent::CreateCharacter => (
            s,
            when(
                s.pending.contains_key(client),
                seq![ServerAction::CreateCharacter { client, account_id: s.pending[client] }],
            ),
        ),
        ClientEvent::DeleteCharacter { character_id } => (
            s,
            when(
                s.pending.contains_key(client),
                seq![ServerAction::DeleteCharacter { client, account_id: s.pending[client], character_id }],
            ),
        ),
        ClientEvent::MoveTo { dead } => (
            s,
            when(
                s.players.contains_key(client),
                seq![ServerAction::Touch { client }] + when(!dead, seq![ServerAction::PlanPath { client }]),
            ),
        ),
        ClientEvent::CastSpell { spell, dead } => (
            s,
            when(
                s.players.contains_key(client) && !dead,
                seq![ServerAction::Touch { client }, ServerAction::CastEffect { client, spell }] + when(
                    spec_spell_damage(spell) > 0,
                    seq![ServerAction::DamageEnemies { spell, damage: spec_spell_damage(spell) }],
                ) + when(spell == KILL_ALL_SPELL, seq![ServerAction::KillAllEnemies]),
            ),
        ),
        ClientEvent::Ping => (
            s,
            when(
                s.players.contains_key(client),
                seq![ServerAction::Touch { client }, ServerAction::Pong { client }],
            ),
        ),
        ClientEvent::Reconnect { session_token } => if s.sessions.contains_key(session_token)
            && s.players.contains_key(s.sessions[session_token]) {
            let from = s.sessions[session_token];
            let p = s.players[from];
            (
                SessionsView {
                    players: s.players.remove(from).insert(client, p),
                    sessions: s.sessions.insert(session_token, client),
                    ..s
                },
                seq![
                    ServerAction::MovePlayer { from, to: client },
                    ServerAction::Accept { client, your_id: p.id, session_token },
                    ServerAction::SendRoster { client },
                ],
            )
        } else {
            (s, Seq::empty())
        },
        ClientEvent::Disconnect => {
            let s1 = without_player(s, client);
            (
                SessionsView { pending: s1.pending.remove(client), ..s1 },
                when(
                    s.players.contains_key(client),
                    seq![
                        ServerAction::SaveAndRemove { client },
                        ServerAction::AnnounceLeft { id: s.players[client].id },
                    ],
                ),
            )
        },
        ClientEvent::TimedOut => (
            without_player(s, client),
            when(
                s.players.contains_key(client),
                seq![
                    ServerAction::SaveAndRemove { client },
                    ServerAction::AnnounceLeft { id: s.players[client].id },
                ],
            ),
        ),
        ClientEvent::DebugToggleGodMode => (
            s,
            when(s.players.contains_key(client), seq![ServerAction::ToggleGodMode { client }]),
        ),
        ClientEvent::DebugForceSpawn => (
            s,
            when(
                ENEMY_SPAWNING_ENABLED && s.players.contains_key(client),
                seq![ServerAction::SpawnEnemyNear { client }],
            ),
        ),
    }
}

/// Every other client keeps its player, unchanged.
pub open spec fn others_kept(o: SessionsView, f: SessionsView, client: u64) -> bool {
    forall|c: u64|
        c != client ==> (#[trigger] f.players.contains_key(c) <==> o.players.contains_key(c)) && (o.players.contains_key(c)
            ==> f.players[c] == o.players[c])
}

/// What one step must do, told from the sessions before (`o`) and after
/// (`f`) and the actions (`a`):
/// - a login is answered with a refusal exactly when its version is not the
///   server's, else with opening the account, and changes nothing;
/// - an opened account leaves the client pending with that account;
/// - a selection without a pending login does nothing; on a full server it
///   is refused and the login stays pending; otherwise the pending login
///   ends and that account's character is loaded;
/// - a character not found changes nothing; one found becomes the client's
///   player under the next id with the given token, the token leads to the
///   client, the id counter moves on by one, the client is accepted, the
///   player is added last, a replaced player is announced as gone, and
///   every other client keeps its player;
/// - a reconnect with a token of a client that still has a player gives
///   that player, unchanged, to the new client, leaves the old client
///   without one, points the token at the new client and accepts it under
///   the player's id; any other reconnect does nothing;
/// - after a disconnect or a timeout the client has no player, its token no
///   longer leads anywhere, the player is saved and announced as gone, and
///   every other client keeps its player; a disconnect also ends a pending
///   login, a timeout leaves it;
/// - every other event changes no session; in-game commands need a
///   player, and a dead player neither moves nor casts; a cast deals damage
///   exactly when its spell has damage, and kills every enemy exactly for
///   the debug spell; character management needs a pending login.
pub open spec fn step_laws(o: SessionsView, client: u64, event: ClientEvent, f: SessionsView, a: Seq<ServerAction>) -> bool {
    match event {
        ClientEvent::Login { version } => {
            &&& f == o
            &&& a.len() == 1
            &&& (version == PROTOCOL_VERSION <==> a[0] == ServerAction::OpenAccount { client })
            &&& (version != PROTOCOL_VERSION <==> a[0] == ServerAction::RejectVersion { client, client_version: version })
        },
        ClientEvent::AccountOpened { account_id } => {
            &&& f.pending.contains_key(client) && f.pending[client] == account_id
            &&& forall|c: u64| c != client ==> (#[trigger] f.pending.contains_key(c) <==> o.pending.contains_key(c))
            &&& f.players == o.players && f.sessions == o.sessions && f.next_player_id == o.next_player_id
            &&& a.len() == 0
        },
        ClientEvent::SelectCharacter { character_id } => {
            &&& f.players == o.players && f.sessions == o.sessions && f.next_player_id == o.next_player_id
            &&& !o.pending.contains_key(client) ==> f == o && a.len() == 0
            &&& o.pending.contains_key(client) && o.players.len() >= MAX_PLAYERS ==> f == o && a == seq![
                ServerAction::RejectFull { client },
            ]
            &&& o.pending.contains_key(client) && o.players.len() < MAX_PLAYERS ==> !f.pending.contains_key(client) && a
                == seq![ServerAction::LoadCharacter { client, account_id: o.pending[client], character_id }]
        },
        ClientEvent::CharacterLoaded { character_id, found, session_token } => if !found {
            f == o && a.len() == 0
        } else {
            &&& f.players.contains_key(client)
            &&& f.players[client] == PlayerSession { id: o.next_player_id, session_token, character_id }
            &&& f.sessions.contains_key(session_token) && f.sessions[session_token] == client
            &&& f.next_player_id == o.next_player_id + 1
            &&& f.pending == o.pending
            &&& others_kept(o, f, client)
            &&& a.contains(ServerAction::Accept { client, your_id: o.next_player_id, session_token })
            &&& a.last() == ServerAction::AddPlayer { client, id: o.next_player_id, session_token }
            &&& (o.players.contains_key(client) <==> a.contains(ServerAction::AnnounceLeft { id: o.players[client].id }))
        },
        ClientEvent::Reconnect { session_token } => if o.sessions.contains_key(session_token) && o.players.contains_key(
            o.sessions[session_token],
        ) {
            let from = o.sessions[session_token];
            &&& f.players.contains_key(client) && f.players[client] == o.players[from]
            &&& from != client ==> !f.players.contains_key(from)
            &&& f.sessions.contains_key(session_token) && f.sessions[session_token] == client
            &&& f.pending == o.pending && f.next_player_id == o.next_player_id
            &&& a.contains(ServerAction::Accept { client, your_id: o.players[from].id, session_token })
        } else {
            f == o && a.len() == 0
        },
        ClientEvent::Disconnect | ClientEvent::TimedOut => {
            &&& !f.players.contains_key(client)
            &&& forall|c: u64| c != client ==> (#[trigger] f.players.contains_key(c) <==> o.players.contains_key(c))
            &&& forall|c: u64| #[trigger] f.players.contains_key(c) ==> f.players[c] == o.players[c]
            &&& o.players.contains_key(client) ==> !f.sessions.contains_key(o.players[client].session_token) && a == seq![
                ServerAction::SaveAndRemove { client },
                ServerAction::AnnounceLeft { id: o.players[client].id },
            ]
            &&& !o.players.contains_key(client) ==> a.len() == 0 && f.sessions == o.sessions
            &&& f.next_player_id == o.next_player_id
            &&& event is Disconnect ==> !f.pending.contains_key(client) && (forall|c: u64|
                c != client ==> (#[trigger] f.pending.contains_key(c) <==> o.pending.contains_key(c)))
            &&& event is TimedOut ==> f.pending == o.pending
        },
        ClientEvent::MoveTo { dead } => {
            &&& f == o
            &&& !o.players.contains_key(client) ==> a.len() == 0
            &&& o.players.contains_key(client) ==> a[0] == ServerAction::Touch { client } && (a.contains(
                ServerAction::PlanPath { client },
            ) <==> !dead)
        },
        ClientEvent::CastSpell { spell, dead } => {
            &&& f == o
            &&& !o.players.contains_key(client) || dead ==> a.len() == 0
            &&& o.players.contains_key(client) && !dead ==> {
                &&& a[0] == ServerAction::Touch { client }
                &&& a[1] == ServerAction::CastEffect { client, spell }
                &&& (spec_spell_damage(spell) > 0 <==> a.contains(
                    ServerAction::DamageEnemies { spell, damage: spec_spell_damage(spell) },
                ))
                &&& (spell == KILL_ALL_SPELL <==> a.contains(ServerAction::KillAllEnemies))
            }
        },
        ClientEvent::Ping => {
            &&& f == o
            &&& a == (if o.players.contains_key(client) {
                seq![ServerAction::Touch { client }, ServerAction::Pong { client }]
            } else {
                Seq::empty()
            })
        },
        ClientEvent::CreateCharacter => {
            &&& f == o
            &&& a == (if o.pending.contains_key(client) {
                seq![ServerAction::CreateCharacter { client, account_id: o.pending[client] }]
            } else {
                Seq::empty()
            })
        },
        ClientEvent::DeleteCharacter { character_id } => {
            &&& f == o
            &&& a == (if o.pending.contains_key(client) {
                seq![ServerAction::DeleteCharacter { client, account_id: o.pending[client], character_id }]
            } else {
                Seq::empty()
            })
        },
        ClientEvent::DebugToggleGodMode => {
            &&& f == o
            &&& a == (if o.players.contains_key(client) {
                seq![ServerAction::ToggleGodMode { client }]
            } else {
                Seq::empty()
            })
        },
        ClientEvent::DebugForceSpawn => {
            &&& f == o
            &&& a == (if ENEMY_SPAWNING_ENABLED && o.players.contains_key(client) {
                seq![ServerAction::SpawnEnemyNear { client }]
            } else {
                Seq::empty()
            })
        },
    }
}

/// The step of [`spec_server_step`] keeps [`step_laws`] from every
/// well-formed state whose id counter can still move on.
pub proof fn lemma_server_step_laws(s: SessionsView, client: u64, event: ClientEvent)
    requires
        s.wf(),
        event matches ClientEvent::CharacterLoaded { found: true, .. } ==> s.next_player_id < u64::MAX,
    ensures
        step_laws(s, client, event, spec_server_step(s, client, event).0, spec_server_step(s, client, event).1),
{
    let (f, a) = spec_server_step(s, client, event);
    match event {
        ClientEvent::CharacterLoaded { character_id, found, session_token } => {
            if found {
                let id = s.next_player_id;
                let last = ServerAction::AddPlayer { client, id, session_token };
                assert(a.last() == last);
                assert(a.contains(ServerAction::Accept { client, your_id: id, session_token })) by {
                    assert(a[a.len() - 4] == ServerAction::Accept { client, your_id: id, session_token });
                }
                if s.players.contains_key(client) {
                    assert(a[1] == ServerAction::AnnounceLeft { id: s.players[client].id });
                } else {
                    if a.contains(ServerAction::AnnounceLeft { id: s.players[client].id }) {
                        let i = choose|i: int| 0 <= i < a.len() && a[i] == ServerAction::AnnounceLeft { id: s.players[client].id };
                        assert(a[i] is Accept || a[i] is SendRoster || a[i] is AnnounceJoined || a[i] is AddPlayer);
                    }
                }
            }
        },
        ClientEvent::Reconnect { session_token } => {
            if s.sessions.contains_key(session_token) && s.players.contains_key(s.sessions[session_token]) {
                let from = s.sessions[session_token];
                assert(a[1] == ServerAction::Accept { client, your_id: s.players[from].id, session_token });
            }
        },
        ClientEvent::MoveTo { dead } => {
            if s.players.contains_key(client) {
                if !dead {
                    assert(a[1] == ServerAction::PlanPath { client });
                } else if a.contains(ServerAction::PlanPath { client }) {
                    let i = choose|i: int| 0 <= i < a.len() && a[i] == ServerAction::PlanPath { client };
                    assert(a[i] is Touch);
                }
            }
        },
        ClientEvent::CastSpell { spell, dead } => {
            if s.players.contains_key(client) && !dead {
                let d = spec_spell_damage(spell);
                let dmg = ServerAction::DamageEnemies { spell, damage: d };
                let k = ServerAction::KillAllEnemies;
                if d > 0 {
                    assert(a[2] == dmg);
                } else if a.contains(dmg) {
                    let i = choose|i: int| 0 <= i < a.len() && a[i] == dmg;
                    assert(a[i] is Touch || a[i] is CastEffect || a[i] is KillAllEnemies);
                }
                if spell == KILL_ALL_SPELL {
                    assert(a[a.len() - 1] == k);
                } else if a.contains(k) {
                    let i = choose|i: int| 0 <= i < a.len() && a[i] == k;
                    assert(a[i] is Touch || a[i] is CastEffect || a[i] is DamageEnemies);
                }
            }
        },
        _ => {},
    }
}

/// Removes the player at `client`, if any, with its session token, and
/// gives back what it held.
fn remove_player(state: &mut ServerSessions, client: u64) -> (removed: Option<PlayerSession>)
    requires
        old(state).wf(),
    ensures
        final(state)@ == without_player(old(state)@, client),
        final(state).wf(),
        removed == (if old(state)@.players.contains_key(client) {
            Some(old(state)@.players[client])
        } else {
            None
        }),
{
    let ghost s = state@;
    let removed = state.players.remove(&client);
    match removed {
        Some(p) => {
            state.sessions.remove(&p.session_token);
        },
        None => {},
    }
    proof {
        let t = state@;
        assert(t.players =~= without_player(s, client).players);
        assert(t.sessions =~= without_player(s, client).sessions);
        assert(t.pending =~= without_player(s, client).pending);
        assert forall|c: u64| #[trigger] t.players.contains_key(c) implies t.players[c].id < t.next_player_id by {
            assert(s.players.contains_key(c));
        }
        assert forall|c1: u64, c2: u64|
            #[trigger] t.players.contains_key(c1) && #[trigger] t.players.contains_key(c2) && c1 != c2 implies t.players[c1].id
                != t.players[c2].id by {
            assert(s.players.contains_key(c1));
            assert(s.players.contains_key(c2));
        }
    }
    removed
}

/// Handles one event from `client`: updates the sessions and returns what
/// the application is to do, as [`spec_server_step`] states. Player ids
/// stay distinct and below the next id.
pub fn server_step(state: &mut ServerSessions, client: u64, event: ClientEvent) -> (actions: Vec<ServerAction>)
    requires
        old(state).wf(),
        event matches ClientEvent::CharacterLoaded { found: true, .. } ==> old(state).next_player_id < u64::MAX,
    ensures
        final(state).wf(),
        (final(state)@, actions@) == spec_server_step(old(state)@, client, event),
        step_laws(old(state)@, client, event, final(state)@, actions@),
{
    proof {
        lemma_server_step_laws(old(state)@, client, event);
    }
    let ghost s = state@;
    let mut actions: Vec<ServerAction> = Vec::new();
    match event {
        ClientEvent::Login { version } => {
            if version != PROTOCOL_VERSION {
                actions.push(ServerAction::RejectVersion { client, client_version: version });
            } else {
                actions.push(ServerAction::OpenAccount { client });
            }
        },
        ClientEvent::AccountOpened { account_id } => {
            state.pending.insert(client, account_id);
        },
        ClientEvent::SelectCharacter { character_id } => {
            match state.pending.get(&client) {
                None => {},
                Some(account) => {
                    let account_id = *account;
                    if state.players.len() >= MAX_PLAYERS {
                        actions.push(ServerAction::RejectFull { client });
                    } else {
                        state.pending.remove(&client);
                        actions.push(ServerAction::LoadCharacter { client, account_id, character_id });
                    }
                },
            }
        },
        ClientEvent::CharacterLoaded { character_id, found, session_token } => {
            if found {
                let id = state.next_player_id;
                let old = remove_player(state, client);
                match old {
                    Some(p) => {
                        actions.push(ServerAction::DropPlayer { client });
                        actions.push(ServerAction::AnnounceLeft { id: p.id });
                    },
                    None => {},
                }
                state.next_player_id = id + 1;
                state.sessions.insert(session_token, client);
                state.players.insert(client, PlayerSession { id, session_token, character_id });
                actions.push(ServerAction::Accept { client, your_id: id, session_token });
                actions.push(ServerAction::SendRoster { client });
                actions.push(ServerAction::AnnounceJoined { client, id });
                actions.push(ServerAction::AddPlayer { client, id, session_token });
                proof {
                    let s1 = without_player(s, client);
                    let t = state@;
                    assert forall|c: u64| #[trigger] t.players.contains_key(c) implies t.players[c].id
                        < t.next_player_id by {
                        if c != client {
                            assert(s.players.contains_key(c));
                        }
                    }
                    assert forall|c1: u64, c2: u64|
                        #[trigger] t.players.contains_key(c1) && #[trigger] t.players.contains_key(c2) && c1
                            != c2 implies t.players[c1].id != t.players[c2].id by {
                        if c1 != client {
                            assert(s.players.contains_key(c1));
                        }
                        if c2 != client {
                            assert(s.players.contains_key(c2));
                        }
                    }
                    let expected = spec_server_step(s, client, event);
                    assert(t.players =~= expected.0.players);
                    assert(t.sessions =~= expected.0.sessions);
                    assert(t.pending =~= expected.0.pending);
                    assert(actions@ =~= expected.1);
                }
            }
        },
        ClientEvent::CreateCharacter => {
            match state.pending.get(&client) {
                None => {},
                Some(account) => {
                    actions.push(ServerAction::CreateCharacter { client, account_id: *account });
                },
            }
        },
        ClientEvent::DeleteCharacter { character_id } => {
            match state.pending.get(&client) {
                None => {},
                Some(account) => {
                    actions.push(ServerAction::DeleteCharacter { client, account_id: *account, character_id });
                },
            }
        },
        ClientEvent::MoveTo { dead } => {
            if state.players.contains_key(&client) {
                actions.push(ServerAction::Touch { client });
                if !dead {
                    actions.push(ServerAction::PlanPath { client });
                }
            }
        },
        ClientEvent::CastSpell { spell, dead } => {
            if state.players.contains_key(&client) && !dead {
                actions.push(ServerAction::Touch { client });
                actions.push(ServerAction::CastEffect { client, spell });
                let damage = spell_damage(spell);
                if damage > 0 {
                    actions.push(ServerAction::DamageEnemies { spell, damage });
                }
                if spell == KILL_ALL_SPELL {
                    actions.push(ServerAction::KillAllEnemies);
                }
            }
        },
        ClientEvent::Ping => {
            if state.players.contains_key(&client) {
                actions.push(ServerAction::Touch { client });
                actions.push(ServerAction::Pong { client });
            }
        },
        ClientEvent::Reconnect { session_token } => {
            match state.sessions.get(&session_token) {
                None => {},
                Some(from_ref) => {
                    let from = *from_ref;
                    match state.players.remove(&from) {
                        None => {},
                        Some(p) => {
                            state.players.insert(client, p);
                            state.sessions.insert(session_token, client);
                            actions.push(ServerAction::MovePlayer { from, to: client });
                            actions.push(ServerAction::Accept { client, your_id: p.id, session_token });
                            actions.push(ServerAction::SendRoster { client });
                            proof {
                                let t = state@;
                                assert forall|c: u64| #[trigger] t.players.contains_key(c) implies t.players[c].id
                                    < t.next_player_id by {
                                    if c != client {
                                        assert(s.players.contains_key(c));
                                    } else {
                                        assert(s.players.contains_key(from));
                                    }
                                }
                                assert forall|c1: u64, c2: u64|
                                    #[trigger] t.players.contains_key(c1) && #[trigger] t.players.contains_key(c2)
                                        && c1 != c2 implies t.players[c1].id != t.players[c2].id by {
                                    if c1 != client {
                                        assert(s.players.contains_key(c1));
                                    }
                                    if c2 != client {
                                        assert(s.players.contains_key(c2));
                                    }
                                    assert(s.players.contains_key(from));
                                }
                            }
                        },
                    }
                },
            }
        },
        ClientEvent::Disconnect => {
            let old = remove_player(state, client);
            match old {
                Some(p) => {
                    actions.push(ServerAction::SaveAndRemove { client });
                    actions.push(ServerAction::AnnounceLeft { id: p.id });
                },
                None => {},
            }
            state.pending.remove(&client);
        },
        ClientEvent::TimedOut => {
            let old = remove_player(state, client);
            match old {
                Some(p) => {
                    actions.push(ServerAction::SaveAndRemove { client });
                    actions.push(ServerAction::AnnounceLeft { id: p.id });
                },
                None => {},
            }
        },
        ClientEvent::DebugToggleGodMode => {
            if state.players.contains_key(&client) {
                actions.push(ServerAction::ToggleGodMode { client });
            }
        },
        ClientEvent::DebugForceSpawn => {
            if ENEMY_SPAWNING_ENABLED && state.players.contains_key(&client) {
                actions.push(ServerAction::SpawnEnemyNear { client });
            }
        },
    }
    proof {
        let expected = spec_server_step(s, client, event);
        assert(actions@ =~= expected.1);
        assert(state@.players =~= expected.0.players);
        assert(state@.sessions =~= expected.0.sessions);
        assert(state@.pending =~= expected.0.pending);
    }
    actions
}

/// A client that joins and then reconnects from another client number with
/// the session token it was given gets its player back under the same id:
/// the new client holds the player, the old one holds none, and the token
/// points at the new client.
pub proof fn lemma_join_then_reconnect(
    s: SessionsView,
    a: u64,
    b: u64,
    character_id: i32,
    session_token: u64,
)
    requires
        s.wf(),
        s.next_player_id < u64::MAX,
        a != b,
    ensures
        ({
            let joined = spec_server_step(
                s,
                a,
                ClientEvent::CharacterLoaded { character_id, found: true, session_token },
            ).0;
            let back = spec_server_step(joined, b, ClientEvent::Reconnect { session_token });
            &&& back.0.players.contains_key(b)
            &&& back.0.players[b] == PlayerSession { id: s.next_player_id, session_token, character_id }
            &&& !back.0.players.contains_key(a)
            &&& back.0.sessions[session_token] == b
            &&& back.1 == seq![
                ServerAction::MovePlayer { from: a, to: b },
                ServerAction::Accept { client: b, your_id: s.next_player_id, session_token },
                ServerAction::SendRoster { client: b },
            ]
        }),
{
    let joined = spec_server_step(s, a, ClientEvent::CharacterLoaded { character_id, found: true, session_token }).0;
    assert(joined.sessions[session_token] == a);
    assert(joined.players.contains_key(a));
}

} // verus!
