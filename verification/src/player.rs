//! The per-entity state one world snapshot holds for one player, and the
//! per-frame resolution that consumes that player's logical input. The
//! resolution is a pure function of the previous state, the input and the
//! shared stage context, which is what makes replay bit-exact.

use vstd::prelude::*;
use crate::input::PlayerInput;
use crate::package::Fighter;
use crate::stage::{Point, Stage, POS_LIMIT, wf_stage};

verus! {

/// Per-player debug display configuration. Non-temporal: it is not part of
/// any world snapshot, so scrubbing history never flips it.
#[derive(Clone, Copy, Debug, PartialEq, Eq, Structural)]
pub struct DebugPlayer {
    pub physics: bool,
    pub input: bool,
    pub input_diff: bool,
    pub action: bool,
    pub frame: bool,
    pub stick_vector: bool,
    pub c_stick_vector: bool,
    pub di_vector: bool,
    pub player: bool,
    pub no_fighter: bool,
}

impl DebugPlayer {
    /// Every debug overlay switched on.
    pub fn all() -> (r: DebugPlayer)
        ensures
            r == debug_all(),
    {
        DebugPlayer {
            physics: true,
            input: true,
            input_diff: true,
            action: true,
            frame: true,
            stick_vector: true,
            c_stick_vector: true,
            di_vector: true,
            player: true,
            no_fighter: true,
        }
    }
}

impl Default for DebugPlayer {
    /// Every debug overlay switched off.
    fn default() -> (r: DebugPlayer)
        ensures
            r == debug_none(),
    {
        DebugPlayer {
            physics: false,
            input: false,
            input_diff: false,
            action: false,
            frame: false,
            stick_vector: false,
            c_stick_vector: false,
            di_vector: false,
            player: false,
            no_fighter: false,
        }
    }
}

/// All overlays on.
pub open spec fn debug_all() -> DebugPlayer {
    DebugPlayer {
        physics: true,
        input: true,
        input_diff: true,
        action: true,
        frame: true,
        stick_vector: true,
        c_stick_vector: true,
        di_vector: true,
        player: true,
        no_fighter: true,
    }
}

/// All overlays off.
pub open spec fn debug_none() -> DebugPlayer {
    DebugPlayer {
        physics: false,
        input: false,
        input_diff: false,
        action: false,
        frame: false,
        stick_vector: false,
        c_stick_vector: false,
        di_vector: false,
        player: false,
        no_fighter: false,
    }
}

/// One player's simulated state. Snapshots of it are fully self-contained:
/// restoring one is a plain copy, never a re-derivation.
#[derive(Clone, Copy, Debug, PartialEq, Eq, Structural)]
pub struct Player {
    /// Where this player spawned, kept for respawn logic.
    pub spawn: Point,
    /// Position, in tenths of a unit.
    pub bps_x: i64,
    pub bps_y: i64,
    /// Stocks remaining.
    pub stocks: u64,
    /// Current action and the frame index within it.
    pub action: u64,
    pub frame: u64,
}

/// A player's position stays within the magnitude that keeps per-frame
/// position arithmetic exact.
pub open spec fn wf_player(p: Player) -> bool {
    &&& -POS_LIMIT <= p.bps_x <= POS_LIMIT
    &&& -POS_LIMIT <= p.bps_y <= POS_LIMIT
}

/// `v` forced into `[lo, hi]`.
pub open spec fn spec_clamp(v: int, lo: i64, hi: i64) -> i64 {
    if v < lo {
        lo
    } else if v > hi {
        hi
    } else {
        v as i64
    }
}

/// The action players idle in until an input changes it.
pub const IDLE_ACTION: u64 = 0;

/// The per-frame resolution for one player: the stick moves the player
/// within the stage bounds, an attack press enters the fighter's attack
/// action at its first frame, and otherwise the action frame advances.
/// A pure function: identical `(state, input, context)` always yields the
/// identical next state.
pub open spec fn spec_step_player(p: Player, inp: PlayerInput, stage: Stage, attack: u64) -> Player {
    Player {
        bps_x: spec_clamp(
            p.bps_x + inp.stick_x.value,
            stage.lower_bounds.x,
            stage.higher_bounds.x,
        ),
        bps_y: spec_clamp(
            p.bps_y + inp.stick_y.value,
            stage.lower_bounds.y,
            stage.higher_bounds.y,
        ),
        action: if inp.a.press {
            attack
        } else {
            p.action
        },
        frame: if inp.a.press {
            0u64
        } else if p.frame == u64::MAX {
            p.frame
        } else {
            (p.frame + 1) as u64
        },
        ..p
    }
}

/// `base + delta` forced into `[lo, hi]`.
fn clamp_add(base: i64, delta: i16, lo: i64, hi: i64) -> (r: i64)
    requires
        -POS_LIMIT <= base <= POS_LIMIT,
        -POS_LIMIT <= lo,
        hi <= POS_LIMIT,
    ensures
        r == spec_clamp(base + delta, lo, hi),
{
    let sum = base + delta as i64;
    if sum < lo {
        lo
    } else if sum > hi {
        hi
    } else {
        sum
    }
}

impl Player {
    /// A freshly spawned player: standing at its spawn point, idle, with the
    /// configured stock count.
    pub fn new(spawn: Point, stock_count: u64) -> (r: Player)
        requires
            -POS_LIMIT <= spawn.x <= POS_LIMIT,
            -POS_LIMIT <= spawn.y <= POS_LIMIT,
        ensures
            r == (Player {
                spawn,
                bps_x: spawn.x,
                bps_y: spawn.y,
                stocks: stock_count,
                action: IDLE_ACTION,
                frame: 0u64,
            }),
            wf_player(r),
    {
        Player {
            spawn,
            bps_x: spawn.x,
            bps_y: spawn.y,
            stocks: stock_count,
            action: IDLE_ACTION,
            frame: 0u64,
        }
    }

    /// Advance this player by one frame of logical input. Deterministic and
    /// free of any global state: everything it reads is a parameter.
    pub fn step(&mut self, input: &PlayerInput, fighter: &Fighter, stage: &Stage)
        requires
            wf_player(*old(self)),
            wf_stage(*stage),
        ensures
            *final(self) == spec_step_player(*old(self), *input, *stage, fighter.attack_action),
            wf_player(*final(self)),
    {
        self.bps_x = clamp_add(
            self.bps_x,
            input.stick_x.value,
            stage.lower_bounds.x,
            stage.higher_bounds.x,
        );
        self.bps_y = clamp_add(
            self.bps_y,
            input.stick_y.value,
            stage.lower_bounds.y,
            stage.higher_bounds.y,
        );
        if input.a.press {
            self.action = fighter.attack_action;
            self.frame = 0;
        } else if self.frame < u64::MAX {
            self.frame = self.frame + 1;
        }
    }
}

/// What the renderer is shown of one player each tick.
pub struct RenderPlayer {
    pub player: Player,
    /// Index of the fighter this player selected.
    pub fighter: usize,
    /// Whether the pause-screen editor has this player selected.
    pub selected: bool,
    /// Whether the editor is focused on this player's fighter.
    pub fighter_selected: bool,
    pub debug: DebugPlayer,
}

} // verus!
