use vstd::prelude::*;
use crate::combat::SpellId;

verus! {

/// What a left click does next: nothing is primed, an area spell waits for
/// a point on the ground, or a single-target spell waits for a unit.
#[derive(Clone, Copy, Debug, PartialEq, Eq, Structural)]
pub enum TargetingState {
    Idle,
    Aoe(SpellId),
    UnitTarget(SpellId),
}

/// The targeting after this frame's hotkeys, checked in the order Q, W, E,
/// R so that the last pressed of them wins: Q primes its area spell, W, E
/// and R their single-target spells; with no hotkey the state stays.
pub fn after_hotkeys(state: TargetingState, q: bool, w: bool, e: bool, r: bool) -> (t: TargetingState)
    ensures
        t == (if r {
            TargetingState::UnitTarget(SpellId::R)
        } else if e {
            TargetingState::UnitTarget(SpellId::E)
        } else if w {
            TargetingState::UnitTarget(SpellId::W)
        } else if q {
            TargetingState::Aoe(SpellId::Q)
        } else {
            state
        }),
{
    let mut t = state;
    if q {
        t = TargetingState::Aoe(SpellId::Q);
    }
    if w {
        t = TargetingState::UnitTarget(SpellId::W);
    }
    if e {
        t = TargetingState::UnitTarget(SpellId::E);
    }
    if r {
        t = TargetingState::UnitTarget(SpellId::R);
    }
    t
}

/// The outcome of a left click: the next targeting state and the spell
/// cast, if any.
#[derive(Clone, Copy, Debug, PartialEq, Eq, Structural)]
pub struct CastDecision {
    pub next: TargetingState,
    pub cast: Option<SpellId>,
}

pub open spec fn primed_spell(state: TargetingState) -> Option<SpellId> {
    match state {
        TargetingState::Idle => None,
        TargetingState::Aoe(s) => Some(s),
        TargetingState::UnitTarget(s) => Some(s),
    }
}

/// A left click. With nothing primed nothing happens. A primed spell still
/// cooling down is dropped without a cast. Otherwise the spell is cast when
/// the click found its target (a ground point for an area spell, a unit
/// near the click for a single-target one) and targeting ends; a click that
/// found no target keeps the spell primed.
pub fn confirm_cast(state: TargetingState, spell_ready: bool, target_found: bool) -> (d: CastDecision)
    ensures
        d == (match primed_spell(state) {
            None => CastDecision { next: TargetingState::Idle, cast: None },
            Some(s) => if !spell_ready {
                CastDecision { next: TargetingState::Idle, cast: None }
            } else if target_found {
                CastDecision { next: TargetingState::Idle, cast: Some(s) }
            } else {
                CastDecision { next: state, cast: None }
            },
        }),
        d.cast is Some ==> d.next == TargetingState::Idle && d.cast == primed_spell(state),
{
    let spell = match state {
        TargetingState::Idle => {
            return CastDecision { next: TargetingState::Idle, cast: None };
        },
        TargetingState::Aoe(s) => s,
        TargetingState::UnitTarget(s) => s,
    };
    if !spell_ready {
        CastDecision { next: TargetingState::Idle, cast: None }
    } else if target_found {
        CastDecision { next: TargetingState::Idle, cast: Some(spell) }
    } else {
        CastDecision { next: state, cast: None }
    }
}

/// A right click cancels a primed spell; with nothing primed it orders a
/// move, unless a cast is still in progress. Either way nothing stays
/// primed. Returns the next state and whether to move.
pub fn right_click(state: TargetingState, casting: bool) -> (r: (TargetingState, bool))
    ensures
        r.0 == TargetingState::Idle,
        r.1 == (state == TargetingState::Idle && !casting),
{
    match state {
        TargetingState::Idle => (TargetingState::Idle, !casting),
        _ => (TargetingState::Idle, false),
    }
}

} // verus!
