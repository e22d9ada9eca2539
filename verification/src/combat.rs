use vstd::prelude::*;
use crate::protocol::{CharacterAppearanceNet, CharacterSummaryNet, MAX_PLAYERS, PROTOCOL_VERSION};

verus! {

/// Attributes of a character; health and mana derive from strength and intelligence.
#[derive(Clone, Copy, Debug, PartialEq, Eq, Structural)]
pub struct Stats {
    pub strength: i32,
    pub agility: i32,
    pub intelligence: i32,
    pub max_hp: i32,
    pub current_hp: i32,
    pub max_mp: i32,
    pub current_mp: i32,
}

impl Stats {
    /// Full health and mana: ten points per point of strength and of intelligence.
    pub fn new(strength: i32, agility: i32, intelligence: i32) -> (s: Self)
        requires
            i32::MIN <= strength * 10 <= i32::MAX,
            i32::MIN <= intelligence * 10 <= i32::MAX,
        ensures
            s.strength == strength,
            s.agility == agility,
            s.intelligence == intelligence,
            s.max_hp == strength * 10,
            s.current_hp == strength * 10,
            s.max_mp == intelligence * 10,
            s.current_mp == intelligence * 10,
    {
        Stats {
            strength,
            agility,
            intelligence,
            max_hp: strength * 10,
            current_hp: strength * 10,
            max_mp: intelligence * 10,
            current_mp: intelligence * 10,
        }
    }
}

/// The four spells bound to Q, W, E and R.
#[derive(Clone, Copy, Debug, PartialEq, Eq, Hash, Structural)]
pub enum SpellId {
    Q,
    W,
    E,
    R,
}

impl SpellId {
    /// The spell's number on the wire: 0 for Q up to 3 for R.
    pub fn wire_index(&self) -> (n: u8)
        ensures
            n == (match *self {
                SpellId::Q => 0u8,
                SpellId::W => 1u8,
                SpellId::E => 2u8,
                SpellId::R => 3u8,
            }),
    {
        match self {
            SpellId::Q => 0,
            SpellId::W => 1,
            SpellId::E => 2,
            SpellId::R => 3,
        }
    }

    /// Whole seconds the spell stays unavailable after a cast: Q 3, W 1,
    /// E 2, R 5.
    pub fn get_max_cooldown(&self) -> (secs: u32)
        ensures
            secs == (match *self {
                SpellId::Q => 3u32,
                SpellId::W => 1u32,
                SpellId::E => 2u32,
                SpellId::R => 5u32,
            }),
    {
        match self {
            SpellId::Q => 3,
            SpellId::W => 1,
            SpellId::E => 2,
            SpellId::R => 5,
        }
    }
}

/// The spell number that, on the server, kills every enemy (a debugging aid).
pub const KILL_ALL_SPELL: u8 = 99;

/// Damage an enemy attack deals to a player.
pub const ENEMY_ATTACK_DAMAGE: i32 = 20;

/// Enemies alive at once at most before spawning pauses.
pub const MAX_ENEMIES: usize = 30;

pub open spec fn spec_spell_damage(spell: u8) -> i32 {
    if spell == 0 {
        20
    } else if spell == 1 {
        30
    } else if spell == 2 {
        20
    } else if spell == 3 {
        40
    } else {
        0
    }
}

/// Damage a spell deals to each enemy it hits: Q 20, W 30, E 20, R 40;
/// any other spell number deals none.
pub fn spell_damage(spell: u8) -> (d: i32)
    ensures
        d == spec_spell_damage(spell),
{
    match spell {
        0 => 20,
        1 => 30,
        2 => 20,
        3 => 40,
        _ => 0,
    }
}

/// What an enemy of the offline game is doing.
#[derive(Clone, Copy, Debug, PartialEq, Eq, Structural)]
pub enum EnemyState {
    Idle,
    Chasing,
    Attacking,
    Dead,
}

/// How an enemy reacts to a hit.
#[derive(Clone, Copy, Debug, PartialEq, Eq, Structural)]
pub enum DamageReaction {
    /// The enemy was already dead; nothing changes.
    Ignored,
    /// Health reached zero: the enemy dies.
    Killed,
    /// The enemy survives and flinches, dropping its path.
    Flinched,
}

/// The reaction and remaining health after `amount` damage: a dead enemy
/// ignores it; otherwise health drops by `amount`, and at zero or below
/// the enemy is killed with health clamped to zero.
pub fn resolve_damage(state: EnemyState, current_hp: i32, amount: i32) -> (r: (DamageReaction, i32))
    requires
        state != EnemyState::Dead ==> i32::MIN <= current_hp - amount <= i32::MAX,
    ensures
        state == EnemyState::Dead ==> r == (DamageReaction::Ignored, current_hp),
        state != EnemyState::Dead && current_hp - amount <= 0 ==> r == (DamageReaction::Killed, 0i32),
        state != EnemyState::Dead && current_hp - amount > 0 ==> r == (
            DamageReaction::Flinched,
            (current_hp - amount) as i32,
        ),
{
    if state == EnemyState::Dead {
        return (DamageReaction::Ignored, current_hp);
    }
    let hp = current_hp - amount;
    if hp <= 0 {
        (DamageReaction::Killed, 0)
    } else {
        (DamageReaction::Flinched, hp)
    }
}

/// A server-side hit of `damage` on an enemy with `health`: the remaining
/// health, clamped at zero, and whether the enemy died from it.
pub fn spell_hit(health: i32, damage: i32) -> (r: (i32, bool))
    requires
        i32::MIN <= health - damage <= i32::MAX,
    ensures
        r == (if health - damage <= 0 {
            (0i32, true)
        } else {
            ((health - damage) as i32, false)
        }),
{
    let h = health - damage;
    if h <= 0 {
        (0, true)
    } else {
        (h, false)
    }
}

/// A player's health and death flag after an enemy attack: an invulnerable
/// player is untouched; otherwise health drops by 20, and at zero or below
/// it is clamped to zero and the player is dead.
pub fn enemy_attack(current_hp: i32, is_dead: bool, invulnerable: bool) -> (r: (i32, bool))
    requires
        current_hp >= i32::MIN + ENEMY_ATTACK_DAMAGE,
    ensures
        invulnerable ==> r == (current_hp, is_dead),
        !invulnerable && current_hp - ENEMY_ATTACK_DAMAGE <= 0 ==> r == (0i32, true),
        !invulnerable && current_hp - ENEMY_ATTACK_DAMAGE > 0 ==> r == (
            (current_hp - ENEMY_ATTACK_DAMAGE) as i32,
            is_dead,
        ),
{
    if invulnerable {
        return (current_hp, is_dead);
    }
    let hp = current_hp - ENEMY_ATTACK_DAMAGE;
    if hp <= 0 {
        (0, true)
    } else {
        (hp, is_dead)
    }
}

/// Health a revived player comes back with: half the maximum, at least one.
pub fn revive_hp(max_hp: i32) -> (hp: i32)
    ensures
        hp == (if max_hp / 2 >= 1 {
            max_hp / 2
        } else {
            1
        }),
        hp >= 1,
{
    let half = max_hp / 2;
    if half >= 1 {
        half
    } else {
        1
    }
}

/// The game is over when there is at least one player and every player is dead.
pub fn all_players_dead(dead: &Vec<bool>) -> (b: bool)
    ensures
        b == (dead.len() > 0 && forall|i: int| 0 <= i < dead.len() ==> #[trigger] dead[i]),
{
    if dead.len() == 0 {
        return false;
    }
    let mut i: usize = 0;
    while i < dead.len()
        invariant
            i <= dead.len(),
            forall|j: int| 0 <= j < i ==> #[trigger] dead[j],
        decreases dead.len() - i,
    {
        if !dead[i] {
            return false;
        }
        i = i + 1;
    }
    true
}

/// Whether the server refuses another player.
pub fn server_full(player_count: usize) -> (b: bool)
    ensures
        b == (player_count >= MAX_PLAYERS),
{
    player_count >= MAX_PLAYERS
}

/// Whether a client's protocol version is the server's.
pub fn version_accepted(version: u8) -> (b: bool)
    ensures
        b == (version == PROTOCOL_VERSION),
{
    version == PROTOCOL_VERSION
}

/// Whether another enemy may spawn while `count` are alive.
pub fn may_spawn_enemy(count: usize) -> (b: bool)
    ensures
        b == (count < MAX_ENEMIES),
{
    count < MAX_ENEMIES
}

/// Health and mana of a newly created character.
pub const NEW_CHARACTER_HP: i32 = 100;
pub const NEW_CHARACTER_MP: i32 = 50;

/// The summary sent back for a character just created: full health and
/// mana at the starting values.
pub fn new_character_summary(id: i32, name: String, appearance: CharacterAppearanceNet) -> (s: CharacterSummaryNet)
    ensures
        s.id == id,
        s.name == name,
        s.appearance == appearance,
        s.current_hp == NEW_CHARACTER_HP && s.max_hp == NEW_CHARACTER_HP,
        s.current_mp == NEW_CHARACTER_MP && s.max_mp == NEW_CHARACTER_MP,
{
    CharacterSummaryNet {
        id,
        name,
        appearance,
        current_hp: NEW_CHARACTER_HP,
        max_hp: NEW_CHARACTER_HP,
        current_mp: NEW_CHARACTER_MP,
        max_mp: NEW_CHARACTER_MP,
    }
}

/// The appearance used when a stored one cannot be read: the "human"
/// skin with no other layer.
pub fn fallback_appearance_net() -> (a: CharacterAppearanceNet)
    ensures
        a.skin@ == "human"@,
        a.shoes is None && a.clothes is None && a.gloves is None && a.hairstyle is None,
        a.facial_hair is None && a.eye_color is None && a.eyelashes is None,
        a.headgear is None && a.addon is None,
{
    CharacterAppearanceNet {
        skin: "human".to_owned(),
        shoes: None,
        clothes: None,
        gloves: None,
        hairstyle: None,
        facial_hair: None,
        eye_color: None,
        eyelashes: None,
        headgear: None,
        addon: None,
    }
}

} // verus!
