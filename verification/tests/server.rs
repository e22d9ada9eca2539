use rpg_engine::protocol::{MAX_PLAYERS, PROTOCOL_VERSION};
use rpg_engine::server::{server_step, ClientEvent, PlayerSession, ServerAction, ServerSessions};

fn join(s: &mut ServerSessions, client: u64, token: u64) -> Vec<ServerAction> {
    assert_eq!(server_step(s, client, ClientEvent::Login { version: PROTOCOL_VERSION }), vec![ServerAction::OpenAccount { client }]);
    assert!(server_step(s, client, ClientEvent::AccountOpened { account_id: 7 }).is_empty());
    assert_eq!(
        server_step(s, client, ClientEvent::SelectCharacter { character_id: 3 }),
        vec![ServerAction::LoadCharacter { client, account_id: 7, character_id: 3 }]
    );
    server_step(s, client, ClientEvent::CharacterLoaded { character_id: 3, found: true, session_token: token })
}

#[test]
fn wrong_version_is_rejected() {
    let mut s = ServerSessions::new();
    let a = server_step(&mut s, 1, ClientEvent::Login { version: PROTOCOL_VERSION + 1 });
    assert_eq!(a, vec![ServerAction::RejectVersion { client: 1, client_version: PROTOCOL_VERSION + 1 }]);
    assert!(s.pending.is_empty());
}

#[test]
fn join_flow_hands_out_ids_and_tokens() {
    let mut s = ServerSessions::new();
    let a = join(&mut s, 10, 555);
    assert_eq!(
        a,
        vec![
            ServerAction::Accept { client: 10, your_id: 1, session_token: 555 },
            ServerAction::SendRoster { client: 10 },
            ServerAction::AnnounceJoined { client: 10, id: 1 },
            ServerAction::AddPlayer { client: 10, id: 1, session_token: 555 },
        ]
    );
    assert_eq!(s.players.get(&10), Some(&PlayerSession { id: 1, session_token: 555, character_id: 3 }));
    assert_eq!(s.sessions.get(&555), Some(&10));
    assert!(s.pending.is_empty());
    let b = join(&mut s, 11, 777);
    assert_eq!(b[0], ServerAction::Accept { client: 11, your_id: 2, session_token: 777 });
    assert_eq!(s.next_player_id, 3);
}

#[test]
fn full_server_rejects_and_keeps_the_client_pending() {
    let mut s = ServerSessions::new();
    for c in 0..MAX_PLAYERS as u64 {
        join(&mut s, c, 1000 + c);
    }
    let c = 99;
    server_step(&mut s, c, ClientEvent::AccountOpened { account_id: 4 });
    let a = server_step(&mut s, c, ClientEvent::SelectCharacter { character_id: 1 });
    assert_eq!(a, vec![ServerAction::RejectFull { client: c }]);
    assert_eq!(s.pending.get(&c), Some(&4));
}

#[test]
fn missing_character_ends_the_attempt() {
    let mut s = ServerSessions::new();
    server_step(&mut s, 5, ClientEvent::AccountOpened { account_id: 2 });
    server_step(&mut s, 5, ClientEvent::SelectCharacter { character_id: 9 });
    let a = server_step(&mut s, 5, ClientEvent::CharacterLoaded { character_id: 9, found: false, session_token: 1 });
    assert!(a.is_empty());
    assert!(s.players.is_empty() && s.pending.is_empty());
}

#[test]
fn selecting_again_replaces_the_old_player() {
    let mut s = ServerSessions::new();
    join(&mut s, 10, 555);
    let a = join(&mut s, 10, 556);
    assert_eq!(a[0], ServerAction::DropPlayer { client: 10 });
    assert_eq!(a[1], ServerAction::AnnounceLeft { id: 1 });
    assert_eq!(a[2], ServerAction::Accept { client: 10, your_id: 2, session_token: 556 });
    assert!(s.sessions.get(&555).is_none());
}

#[test]
fn reconnect_moves_the_player_and_disconnect_removes_it() {
    let mut s = ServerSessions::new();
    join(&mut s, 10, 555);
    assert!(server_step(&mut s, 20, ClientEvent::Reconnect { session_token: 999 }).is_empty());
    let a = server_step(&mut s, 20, ClientEvent::Reconnect { session_token: 555 });
    assert_eq!(
        a,
        vec![
            ServerAction::MovePlayer { from: 10, to: 20 },
            ServerAction::Accept { client: 20, your_id: 1, session_token: 555 },
            ServerAction::SendRoster { client: 20 },
        ]
    );
    assert!(s.players.get(&10).is_none());
    assert_eq!(s.sessions.get(&555), Some(&20));
    let d = server_step(&mut s, 20, ClientEvent::Disconnect);
    assert_eq!(d, vec![ServerAction::SaveAndRemove { client: 20 }, ServerAction::AnnounceLeft { id: 1 }]);
    assert!(s.players.is_empty() && s.sessions.is_empty());
}

#[test]
fn timeout_keeps_a_pending_login() {
    let mut s = ServerSessions::new();
    join(&mut s, 10, 555);
    server_step(&mut s, 10, ClientEvent::AccountOpened { account_id: 8 });
    let a = server_step(&mut s, 10, ClientEvent::TimedOut);
    assert_eq!(a, vec![ServerAction::SaveAndRemove { client: 10 }, ServerAction::AnnounceLeft { id: 1 }]);
    assert_eq!(s.pending.get(&10), Some(&8));
}

#[test]
fn in_game_commands_need_a_living_player() {
    let mut s = ServerSessions::new();
    assert!(server_step(&mut s, 10, ClientEvent::Ping).is_empty());
    join(&mut s, 10, 555);
    assert_eq!(server_step(&mut s, 10, ClientEvent::Ping), vec![ServerAction::Touch { client: 10 }, ServerAction::Pong { client: 10 }]);
    assert_eq!(server_step(&mut s, 10, ClientEvent::MoveTo { dead: true }), vec![ServerAction::Touch { client: 10 }]);
    assert_eq!(
        server_step(&mut s, 10, ClientEvent::MoveTo { dead: false }),
        vec![ServerAction::Touch { client: 10 }, ServerAction::PlanPath { client: 10 }]
    );
    assert!(server_step(&mut s, 10, ClientEvent::CastSpell { spell: 3, dead: true }).is_empty());
    assert_eq!(
        server_step(&mut s, 10, ClientEvent::CastSpell { spell: 3, dead: false }),
        vec![
            ServerAction::Touch { client: 10 },
            ServerAction::CastEffect { client: 10, spell: 3 },
            ServerAction::DamageEnemies { spell: 3, damage: 40 },
        ]
    );
    assert_eq!(
        server_step(&mut s, 10, ClientEvent::CastSpell { spell: 99, dead: false }),
        vec![ServerAction::Touch { client: 10 }, ServerAction::CastEffect { client: 10, spell: 99 }, ServerAction::KillAllEnemies]
    );
    assert_eq!(server_step(&mut s, 10, ClientEvent::DebugToggleGodMode), vec![ServerAction::ToggleGodMode { client: 10 }]);
    assert_eq!(server_step(&mut s, 10, ClientEvent::DebugForceSpawn), vec![ServerAction::SpawnEnemyNear { client: 10 }]);
}

#[test]
fn character_management_needs_a_pending_login() {
    let mut s = ServerSessions::new();
    assert!(server_step(&mut s, 3, ClientEvent::CreateCharacter).is_empty());
    server_step(&mut s, 3, ClientEvent::AccountOpened { account_id: 12 });
    assert_eq!(server_step(&mut s, 3, ClientEvent::CreateCharacter), vec![ServerAction::CreateCharacter { client: 3, account_id: 12 }]);
    assert_eq!(
        server_step(&mut s, 3, ClientEvent::DeleteCharacter { character_id: 4 }),
        vec![ServerAction::DeleteCharacter { client: 3, account_id: 12, character_id: 4 }]
    );
}
