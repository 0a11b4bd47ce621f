//! The deterministic stepper: a finite-state control loop over live play,
//! paused scrubbing, forward and backward replay, and a terminal results
//! state, together with an append-only history of world snapshots kept in
//! lockstep with the input history.
//!
//! Every transition is specified as a mathematical function of the previous
//! state and this tick's inputs, so stepping introduces no hidden
//! nondeterminism: identical histories replayed from identical
//! configurations always produce identical snapshots.

use vstd::prelude::*;
use vstd::pervasive::unreached;
use crate::input::{
    Input, InputView, PlayerInput, spec_logical, spec_record, spec_start_press,
    spec_after_start_poll, wf_input,
};
use crate::package::Package;
use crate::player::{DebugPlayer, Player, RenderPlayer, debug_all, debug_none, spec_step_player, wf_player};
use crate::stage::{POS_LIMIT, Stage, wf_stage};

verus! {

/// The control state of a match. Exactly one is active at a time.
#[derive(Clone, Copy, Debug, PartialEq, Eq, Structural)]
pub enum GameState {
    /// Accepting new input and extending history.
    Local,
    /// Re-walks existing history forward, re-simulating recorded input.
    ReplayForwards,
    /// Pure snapshot restoration, one frame back per tick.
    ReplayBackwards,
    /// Lockstep remote play; extends history and never pauses.
    Netplay,
    /// History frozen; the operator may scrub and edit configuration.
    Paused,
    /// Terminal: the match is over, no further stepping.
    Results,
}

/// What the pause-screen editor is focused on.
#[derive(Clone, Copy, Debug, PartialEq, Eq, Structural)]
pub enum Edit {
    /// Editing the fighter a given player selected.
    Fighter(usize),
    /// Editing a given player.
    Player(usize),
    Stage,
}

/// A configuration fault found at match setup, before any frame is stepped.
#[derive(Clone, Copy, Debug, PartialEq, Eq, Structural)]
pub enum ConfigError {
    NoControllers,
    NoFighters,
    StageOutOfRange,
    BadStageBounds,
    NoSpawnPoints,
    FighterOutOfRange,
}

/// The operator's keyboard commands for one tick, already decoded to edges.
#[derive(Clone, Copy, Debug, PartialEq, Eq, Structural)]
pub struct OsInput {
    pub key_space: bool,
    pub key_h: bool,
    pub key_j: bool,
    pub key_k: bool,
    pub key_l: bool,
    pub key_u: bool,
    pub key_i: bool,
    pub key_grave: bool,
    pub key_1: bool,
    pub key_2: bool,
    pub key_3: bool,
    pub key_4: bool,
    pub key_f1: bool,
    pub key_f2: bool,
    pub key_f3: bool,
    pub key_f4: bool,
    pub key_f5: bool,
    pub key_f6: bool,
    pub key_f7: bool,
    pub key_f8: bool,
    pub key_f9: bool,
    pub key_f11: bool,
    pub key_f12: bool,
    pub held_shift: bool,
}

/// No key down.
pub open spec fn spec_os_none() -> OsInput {
    OsInput {
        key_space: false,
        key_h: false,
        key_j: false,
        key_k: false,
        key_l: false,
        key_u: false,
        key_i: false,
        key_grave: false,
        key_1: false,
        key_2: false,
        key_3: false,
        key_4: false,
        key_f1: false,
        key_f2: false,
        key_f3: false,
        key_f4: false,
        key_f5: false,
        key_f6: false,
        key_f7: false,
        key_f8: false,
        key_f9: false,
        key_f11: false,
        key_f12: false,
        held_shift: false,
    }
}

impl OsInput {
    /// A tick with no operator command.
    pub fn none() -> (r: OsInput)
        ensures
            r == spec_os_none(),
    {
        OsInput {
            key_space: false,
            key_h: false,
            key_j: false,
            key_k: false,
            key_l: false,
            key_u: false,
            key_i: false,
            key_grave: false,
            key_1: false,
            key_2: false,
            key_3: false,
            key_4: false,
            key_f1: false,
            key_f2: false,
            key_f3: false,
            key_f4: false,
            key_f5: false,
            key_f6: false,
            key_f7: false,
            key_f8: false,
            key_f9: false,
            key_f11: false,
            key_f12: false,
            held_shift: false,
        }
    }
}

/// The mathematical state of a match.
#[verifier::ext_equal]
pub ghost struct GameView {
    pub state: GameState,
    /// One world snapshot per simulated frame, index-aligned with the
    /// recorded input rows.
    pub hist: Seq<Seq<Player>>,
    /// In live states, the frame about to be simulated; while paused or
    /// replaying, the frame whose snapshot the live entities embody.
    pub current_frame: int,
    /// The bookmarked frame for instant recall.
    pub saved_frame: int,
    /// The live entities.
    pub players: Seq<Player>,
    /// Which controller slot drives each player.
    pub controllers: Seq<usize>,
    /// Which fighter each player selected.
    pub fighters: Seq<usize>,
    /// Which stage the match is on.
    pub stage: int,
    pub edit: Edit,
    /// Per-player debug overlays; non-temporal, not part of any snapshot.
    pub debug_players: Seq<DebugPlayer>,
    /// The frame whose diagnostics should be dumped after this tick.
    pub debug_output: Option<usize>,
}

/// Every snapshot row covers exactly the live entities and is well-formed.
pub open spec fn hist_ok(g: GameView) -> bool {
    &&& forall|r: int|
        0 <= r < g.hist.len() ==> (#[trigger] g.hist[r]).len() == g.players.len()
    &&& forall|r: int, i: int|
        0 <= r < g.hist.len() && 0 <= i < g.hist[r].len() ==> wf_player(#[trigger] g.hist[r][i])
}

/// Per-player configuration vectors cover exactly the live entities.
pub open spec fn counts_ok(g: GameView) -> bool {
    &&& g.controllers.len() == g.players.len()
    &&& g.fighters.len() == g.players.len()
    &&& g.debug_players.len() == g.players.len()
}

/// A match configuration that is internally consistent with its package.
pub open spec fn wf_game(g: GameView, pkg: Package) -> bool {
    &&& 1 <= g.players.len()
    &&& counts_ok(g)
    &&& 0 <= g.stage < pkg.stages@.len()
    &&& wf_stage(pkg.stages@[g.stage])
    &&& forall|i: int|
        0 <= i < g.fighters.len() ==> (#[trigger] g.fighters[i]) < pkg.fighters@.len()
    &&& forall|i: int| 0 <= i < g.players.len() ==> wf_player(#[trigger] g.players[i])
    &&& hist_ok(g)
    &&& match g.edit {
        Edit::Fighter(p) => p < g.players.len(),
        Edit::Player(p) => p < g.players.len(),
        Edit::Stage => true,
    }
    &&& 0 <= g.saved_frame
}

/// What each control state guarantees between ticks: live states never run
/// ahead of history, and while paused or replaying the live entities are
/// exactly the snapshot at the cursor.
pub open spec fn stable(g: GameView) -> bool {
    &&& 0 <= g.current_frame
    &&& match g.state {
        GameState::Local => g.current_frame <= g.hist.len(),
        GameState::Netplay => g.current_frame == g.hist.len(),
        GameState::Paused | GameState::ReplayForwards | GameState::ReplayBackwards => {
            &&& g.current_frame < g.hist.len()
            &&& g.players == g.hist[g.current_frame]
        },
        GameState::Results => true,
    }
}

/// Snapshot history and input history are in lockstep.
pub open spec fn aligned(g: GameView, i: InputView) -> bool {
    g.hist.len() == i.samples.len()
}

/// Every configured controller slot exists in the input buffer.
pub open spec fn compat(g: GameView, i: InputView) -> bool {
    forall|k: int| 0 <= k < g.controllers.len() ==> (#[trigger] g.controllers[k]) < i.count
}

/// Everything `step` needs between ticks, and everything it re-establishes.
pub open spec fn ready(g: GameView, i: InputView, pkg: Package) -> bool {
    &&& wf_game(g, pkg)
    &&& stable(g)
    &&& aligned(g, i)
    &&& compat(g, i)
}

/// Whether the configured time limit has run out at frame `cf`.
pub open spec fn spec_time_up(pkg: Package, cf: int) -> bool {
    match pkg.rules.time_limit {
        Some(limit) => cf / 60 > limit,
        None => false,
    }
}

/// One frame of per-entity resolution for the whole row of live entities:
/// each player consumes the logical input of its own controller slot.
pub open spec fn spec_step_row(
    players: Seq<Player>,
    li: Seq<PlayerInput>,
    controllers: Seq<usize>,
    fighters: Seq<usize>,
    pkg: Package,
    stage: int,
) -> Seq<Player> {
    Seq::new(
        players.len(),
        |i: int|
            spec_step_player(
                players[i],
                li[controllers[i] as int],
                pkg.stages@[stage],
                pkg.fighters@[fighters[i] as int].attack_action,
            ),
    )
}

/// Each stored snapshot beyond the first is exactly the step of its
/// predecessor under the recorded input of its frame. Uninterrupted live
/// play establishes this, and forward replay relies on it: re-simulating a
/// recorded frame reproduces the stored snapshot.
pub open spec fn coherent(g: GameView, i: InputView, pkg: Package) -> bool {
    forall|t: int|
        1 <= t < g.hist.len() ==> (#[trigger] g.hist[t]) == spec_step_row(
            g.hist[t - 1],
            spec_logical(i.samples, i.count, t),
            g.controllers,
            g.fighters,
            pkg,
            g.stage,
        )
}

/// Simulate one frame: step every entity with its slot's logical input,
/// conclude the match if the time limit has run out, and request a
/// diagnostic dump of the simulated frame.
pub open spec fn spec_step_game(g: GameView, pkg: Package, li: Seq<PlayerInput>) -> GameView {
    GameView {
        players: spec_step_row(g.players, li, g.controllers, g.fighters, pkg, g.stage),
        state: if spec_time_up(pkg, g.current_frame) {
            GameState::Results
        } else {
            g.state
        },
        debug_output: Some(g.current_frame as usize),
        ..g
    }
}

/// Freeze: history untouched, the cursor stays where it is.
pub open spec fn spec_set_paused(g: GameView) -> GameView {
    GameView { state: GameState::Paused, ..g }
}

/// One live tick: commit this tick's captured input as frame
/// `current_frame` (discarding any stale future in both histories first),
/// simulate the frame, append its snapshot, then either conclude, pause, or
/// advance the frame counter.
pub open spec fn spec_step_local(
    g: GameView,
    i: InputView,
    pkg: Package,
    os: OsInput,
) -> (GameView, InputView) {
    let i1 = spec_record(i, g.current_frame);
    let li = spec_logical(i1.samples, i1.count, g.current_frame);
    let g1 = spec_step_game(g, pkg, li);
    let g2 = GameView { hist: g.hist.take(g.current_frame).push(g1.players), ..g1 };
    let pressed = spec_start_press(i1);
    let i2 = spec_after_start_poll(i1);
    let g3 = if g2.state is Results {
        g2
    } else if pressed || os.key_space {
        GameView { state: GameState::Paused, ..g2 }
    } else {
        GameView { current_frame: g.current_frame + 1, ..g2 }
    };
    (g3, i2)
}

/// One netplay tick: as a live tick, but the match never pauses.
pub open spec fn spec_step_netplay(g: GameView, i: InputView, pkg: Package) -> (GameView, InputView) {
    let i1 = spec_record(i, g.current_frame);
    let li = spec_logical(i1.samples, i1.count, g.current_frame);
    let g1 = spec_step_game(g, pkg, li);
    let g2 = GameView { hist: g.hist.push(g1.players), ..g1 };
    let g3 = if g2.state is Results {
        g2
    } else {
        GameView { current_frame: g.current_frame + 1, ..g2 }
    };
    (g3, i1)
}

/// One forward replay tick: re-derive the logical input of the next
/// recorded frame from the already recorded raw samples, re-run the
/// simulation, and overwrite that frame's snapshot — idempotent when the
/// recorded inputs are unchanged. At the end of recorded input the match
/// pauses instead.
pub open spec fn spec_step_replay_forwards(
    g: GameView,
    i: InputView,
    pkg: Package,
    os: OsInput,
) -> (GameView, InputView) {
    if g.current_frame + 1 < g.hist.len() {
        let cf1 = g.current_frame + 1;
        let li = spec_logical(i.samples, i.count, cf1);
        let g1 = spec_step_game(GameView { current_frame: cf1, ..g }, pkg, li);
        let g2 = GameView { hist: g1.hist.update(cf1, g1.players), ..g1 };
        let pressed = spec_start_press(i);
        let i2 = spec_after_start_poll(i);
        let state = if g2.state is Results {
            GameState::Results
        } else if pressed || os.key_space {
            GameState::Paused
        } else if os.key_h {
            GameState::ReplayBackwards
        } else {
            g2.state
        };
        (GameView { state, ..g2 }, i2)
    } else {
        (spec_set_paused(g), i)
    }
}

/// One backward replay tick: a pure restoration of the previous frame's
/// snapshot, no recomputation. At frame 0 the match pauses instead.
pub open spec fn spec_step_replay_backwards(
    g: GameView,
    i: InputView,
    os: OsInput,
) -> (GameView, InputView) {
    let g1 = if g.current_frame > 0 {
        GameView {
            current_frame: g.current_frame - 1,
            players: g.hist[g.current_frame - 1],
            debug_output: Some((g.current_frame - 1) as usize),
            ..g
        }
    } else {
        spec_set_paused(g)
    };
    if os.key_l {
        (GameView { state: GameState::ReplayForwards, ..g1 }, i)
    } else {
        let pressed = spec_start_press(i);
        let i2 = spec_after_start_poll(i);
        if pressed || os.key_space {
            (GameView { state: GameState::Paused, ..g1 }, i2)
        } else {
            (g1, i2)
        }
    }
}

/// Bookmark the cursor for instant recall.
pub open spec fn spec_mark_frame(g: GameView) -> GameView {
    GameView { saved_frame: g.current_frame, ..g }
}

/// Jump to the bookmarked frame: a pure restoration of its snapshot. A
/// bookmark invalidated by truncation is a no-op rather than a fault.
pub open spec fn spec_jump_frame(g: GameView) -> GameView {
    if g.saved_frame + 1 < g.hist.len() {
        GameView {
            players: g.hist[g.saved_frame],
            current_frame: g.saved_frame,
            debug_output: Some(g.saved_frame as usize),
            ..g
        }
    } else {
        g
    }
}

/// Toggle, set or clear one player's debug overlays from function keys.
pub open spec fn spec_set_debug(g: GameView, os: OsInput, p: int) -> GameView {
    let d = g.debug_players[p];
    let d1 = DebugPlayer {
        physics: if os.key_f1 {
            !d.physics
        } else {
            d.physics
        },
        input: if os.key_f2 && !os.held_shift {
            !d.input
        } else {
            d.input
        },
        input_diff: if os.key_f2 && os.held_shift {
            !d.input_diff
        } else {
            d.input_diff
        },
        action: if os.key_f3 {
            !d.action
        } else {
            d.action
        },
        frame: if os.key_f4 {
            !d.frame
        } else {
            d.frame
        },
        stick_vector: if os.key_f5 {
            !d.stick_vector
        } else {
            d.stick_vector
        },
        c_stick_vector: if os.key_f6 {
            !d.c_stick_vector
        } else {
            d.c_stick_vector
        },
        di_vector: if os.key_f7 {
            !d.di_vector
        } else {
            d.di_vector
        },
        player: if os.key_f8 {
            !d.player
        } else {
            d.player
        },
        no_fighter: if os.key_f9 {
            !d.no_fighter
        } else {
            d.no_fighter
        },
    };
    let d2 = if os.key_f11 {
        debug_all()
    } else {
        d1
    };
    let d3 = if os.key_f12 {
        debug_none()
    } else {
        d2
    };
    GameView { debug_players: g.debug_players.update(p, d3), ..g }
}

/// Which editor focus the number keys select this tick.
pub open spec fn spec_edit_selection(g: GameView, os: OsInput) -> Edit {
    if os.key_grave {
        Edit::Stage
    } else if os.key_1 && g.players.len() >= 1 {
        if os.held_shift {
            Edit::Player(0usize)
        } else {
            Edit::Fighter(0usize)
        }
    } else if os.key_2 && g.players.len() >= 2 {
        if os.held_shift {
            Edit::Player(1usize)
        } else {
            Edit::Fighter(1usize)
        }
    } else if os.key_3 && g.players.len() >= 3 {
        if os.held_shift {
            Edit::Player(2usize)
        } else {
            Edit::Fighter(2usize)
        }
    } else if os.key_4 && g.players.len() >= 4 {
        if os.held_shift {
            Edit::Player(3usize)
        } else {
            Edit::Fighter(3usize)
        }
    } else {
        g.edit
    }
}

/// One paused tick: pick an editor focus, then exactly one flow command —
/// single steps backward or forward, entering a replay state, one live
/// frame, bookmarking, jumping, or resuming live play at the frame after
/// the cursor — then apply any debug-overlay edits to the focused player.
pub open spec fn spec_step_pause(
    g: GameView,
    i: InputView,
    pkg: Package,
    os: OsInput,
) -> (GameView, InputView) {
    let g0 = GameView { edit: spec_edit_selection(g, os), ..g };
    let r = if os.key_j {
        spec_step_replay_backwards(g0, i, os)
    } else if os.key_k {
        spec_step_replay_forwards(g0, i, pkg, os)
    } else if os.key_h {
        (GameView { state: GameState::ReplayBackwards, ..g0 }, i)
    } else if os.key_l {
        (GameView { state: GameState::ReplayForwards, ..g0 }, i)
    } else if os.key_space {
        spec_step_local(GameView { current_frame: g0.current_frame + 1, ..g0 }, i, pkg, os)
    } else if os.key_u {
        (spec_mark_frame(g0), i)
    } else if os.key_i {
        (spec_jump_frame(g0), i)
    } else {
        let pressed = spec_start_press(i);
        let i2 = spec_after_start_poll(i);
        if pressed {
            (
                GameView { state: GameState::Local, current_frame: g0.current_frame + 1, ..g0 },
                i2,
            )
        } else {
            (g0, i2)
        }
    };
    let g2 = match r.0.edit {
        Edit::Fighter(p) => spec_set_debug(r.0, os, p as int),
        Edit::Player(p) => spec_set_debug(r.0, os, p as int),
        Edit::Stage => r.0,
    };
    (g2, r.1)
}

/// One tick of the whole state machine.
pub open spec fn spec_step(
    g: GameView,
    i: InputView,
    pkg: Package,
    os: OsInput,
) -> (GameView, InputView) {
    match g.state {
        GameState::Local => spec_step_local(g, i, pkg, os),
        GameState::Netplay => spec_step_netplay(g, i, pkg),
        GameState::Results => (g, i),
        GameState::ReplayForwards => spec_step_replay_forwards(g, i, pkg, os),
        GameState::ReplayBackwards => spec_step_replay_backwards(g, i, os),
        GameState::Paused => spec_step_pause(g, i, pkg, os),
    }
}

/// The player a slot spawns as.
pub open spec fn spec_spawn_player(pkg: Package, stage: int, i: int) -> Player {
    let sp = pkg.stages@[stage].spawn_points@;
    let spawn = sp[i % sp.len() as int];
    Player {
        spawn,
        bps_x: spawn.x,
        bps_y: spawn.y,
        stocks: pkg.rules.stock_count,
        action: 0u64,
        frame: 0u64,
    }
}

/// Match setup: configuration faults are rejected here, before the stepper
/// ever runs; a valid configuration yields the initial state with empty
/// histories at frame 0.
pub open spec fn spec_new(
    pkg: Package,
    fighters: Seq<usize>,
    stage: int,
    netplay: bool,
    controllers: Seq<usize>,
) -> Result<GameView, ConfigError> {
    if controllers.len() == 0 {
        Err(ConfigError::NoControllers)
    } else if fighters.len() == 0 {
        Err(ConfigError::NoFighters)
    } else if stage >= pkg.stages@.len() {
        Err(ConfigError::StageOutOfRange)
    } else if !wf_stage(pkg.stages@[stage]) {
        Err(ConfigError::BadStageBounds)
    } else if pkg.stages@[stage].spawn_points@.len() == 0 {
        Err(ConfigError::NoSpawnPoints)
    } else if exists|i: int|
        0 <= i < controllers.len() && pkg.fighters@.len() <= (#[trigger] fighters[
            i % fighters.len() as int
        ]) {
        Err(ConfigError::FighterOutOfRange)
    } else {
        Ok(
            GameView {
                state: if netplay {
                    GameState::Netplay
                } else {
                    GameState::Local
                },
                hist: Seq::empty(),
                current_frame: 0,
                saved_frame: 0,
                players: Seq::new(controllers.len(), |i: int| spec_spawn_player(pkg, stage, i)),
                controllers,
                fighters: Seq::new(
                    controllers.len(),
                    |i: int| fighters[i % fighters.len() as int],
                ),
                stage,
                edit: Edit::Stage,
                debug_players: Seq::new(controllers.len(), |i: int| debug_none()),
                debug_output: None,
            },
        )
    }
}

/// What one player looks like to the renderer this tick.
pub open spec fn spec_render_entity(g: GameView, i: int) -> RenderEntity {
    RenderEntity::Player(
        RenderPlayer {
            player: g.players[i],
            fighter: g.fighters[i],
            selected: g.state is Paused && g.edit == Edit::Player(i as usize),
            fighter_selected: g.state is Paused && g.edit == Edit::Fighter(i as usize),
            debug: g.debug_players[i],
        },
    )
}

/// The deterministic stepper. It exclusively owns both histories: nothing
/// outside the core mutates them.
pub struct Game {
    state: GameState,
    player_history: Vec<Vec<Player>>,
    current_frame: usize,
    saved_frame: usize,
    players: Vec<Player>,
    selected_controllers: Vec<usize>,
    selected_fighters: Vec<usize>,
    selected_stage: usize,
    edit: Edit,
    debug_output_this_step: Option<usize>,
    debug_players: Vec<DebugPlayer>,
}

impl View for Game {
    type V = GameView;

    closed spec fn view(&self) -> GameView {
        GameView {
            state: self.state,
            hist: self.player_history@.map_values(|v: Vec<Player>| v@),
            current_frame: self.current_frame as int,
            saved_frame: self.saved_frame as int,
            players: self.players@,
            controllers: self.selected_controllers@,
            fighters: self.selected_fighters@,
            stage: self.selected_stage as int,
            edit: self.edit,
            debug_players: self.debug_players@,
            debug_output: self.debug_output_this_step,
        }
    }
}

/// One player as the renderer sees it.
pub enum RenderEntity {
    Player(RenderPlayer),
}

/// The read-only projection handed to the renderer each tick.
pub struct RenderGame {
    pub entities: Vec<RenderEntity>,
    pub state: GameState,
}

impl Game {
    /// Set up a match. Configuration faults — no controllers, no fighters,
    /// a stage index out of range, unusable stage bounds, no spawn points,
    /// or a selected fighter that does not exist — are rejected here.
    /// Fighter selections shorter than the player count wrap around.
    #[verifier::loop_isolation(false)]
    pub fn new(
        package: &Package,
        selected_fighters: Vec<usize>,
        selected_stage: usize,
        netplay: bool,
        selected_controllers: Vec<usize>,
    ) -> (r: Result<Game, ConfigError>)
        ensures
            ({
                let s = spec_new(
                    *package,
                    selected_fighters@,
                    selected_stage as int,
                    netplay,
                    selected_controllers@,
                );
                match r {
                    Ok(g) => {
                        &&& s is Ok
                        &&& g@ == s->Ok_0
                        &&& wf_game(g@, *package)
                        &&& stable(g@)
                        &&& g@.hist.len() == 0
                    },
                    Err(e) => s is Err && e == s->Err_0,
                }
            }),
    {
        if selected_controllers.len() == 0 {
            return Err(ConfigError::NoControllers);
        }
        if selected_fighters.len() == 0 {
            return Err(ConfigError::NoFighters);
        }
        if selected_stage >= package.stages.len() {
            return Err(ConfigError::StageOutOfRange);
        }
        if !check_stage(&package.stages[selected_stage]) {
            return Err(ConfigError::BadStageBounds);
        }
        let spawn_count = package.stages[selected_stage].spawn_points.len();
        if spawn_count == 0 {
            return Err(ConfigError::NoSpawnPoints);
        }
        let n = selected_controllers.len();
        let sf_len = selected_fighters.len();
        let fighter_count = package.fighters.len();
        let mut i: usize = 0;
        while i < n
            invariant
                i <= n,
                n == selected_controllers@.len(),
                sf_len == selected_fighters@.len(),
                sf_len > 0,
                fighter_count == package.fighters@.len(),
                forall|j: int|
                    0 <= j < i ==> (#[trigger] selected_fighters@[
                        j % sf_len as int
                    ]) < fighter_count,
            decreases n - i,
        {
            if selected_fighters[i % sf_len] >= fighter_count {
                proof {
                    assert(exists|j: int|
                        0 <= j < selected_controllers@.len() && package.fighters@.len() <= (
                        #[trigger] selected_fighters@[j % selected_fighters@.len() as int])) by {
                        assert((i as int) < selected_controllers@.len() && package.fighters@.len()
                            <= selected_fighters@[(i as int) % (selected_fighters@.len() as int)]);
                    }
                }
                return Err(ConfigError::FighterOutOfRange);
            }
            i = i + 1;
        }
        let ghost sv = spec_new(
            *package,
            selected_fighters@,
            selected_stage as int,
            netplay,
            selected_controllers@,
        );
        let mut players: Vec<Player> = Vec::new();
        let mut filled_fighters: Vec<usize> = Vec::new();
        let mut debug_players: Vec<DebugPlayer> = Vec::new();
        let mut k: usize = 0;
        while k < n
            invariant
                k <= n,
                n == selected_controllers@.len(),
                sf_len == selected_fighters@.len(),
                sf_len > 0,
                spawn_count == package.stages@[selected_stage as int].spawn_points@.len(),
                spawn_count > 0,
                selected_stage < package.stages@.len(),
                wf_stage(package.stages@[selected_stage as int]),
                players@.len() == k,
                filled_fighters@.len() == k,
                debug_players@.len() == k,
                forall|j: int|
                    0 <= j < k ==> players@[j] == spec_spawn_player(
                        *package,
                        selected_stage as int,
                        j,
                    ),
                forall|j: int|
                    0 <= j < k ==> filled_fighters@[j] == selected_fighters@[j % sf_len as int],
                forall|j: int| 0 <= j < k ==> debug_players@[j] == debug_none(),
            decreases n - k,
        {
            let spawn = package.stages[selected_stage].spawn_points[k % spawn_count];
            players.push(Player::new(spawn, package.rules.stock_count));
            filled_fighters.push(selected_fighters[k % sf_len]);
            debug_players.push(DebugPlayer::default());
            k = k + 1;
        }
        let game = Game {
            state: if netplay {
                GameState::Netplay
            } else {
                GameState::Local
            },
            player_history: Vec::new(),
            current_frame: 0,
            saved_frame: 0,
            players,
            selected_controllers,
            selected_fighters: filled_fighters,
            selected_stage,
            edit: Edit::Stage,
            debug_output_this_step: None,
            debug_players,
        };
        proof {
            assert(sv is Ok);
            assert(game@.players =~= sv->Ok_0.players);
            assert(game@.fighters =~= sv->Ok_0.fighters);
            assert(game@.debug_players =~= sv->Ok_0.debug_players);
            assert(game@.hist =~= sv->Ok_0.hist);
            assert(game@ =~= sv->Ok_0);
        }
        Ok(game)
    }

    /// The current control state.
    pub fn state(&self) -> (r: GameState)
        ensures
            r == self@.state,
    {
        self.state
    }

    /// The current frame counter.
    pub fn current_frame(&self) -> (r: usize)
        ensures
            r == self@.current_frame,
    {
        self.current_frame
    }

    /// The bookmarked frame.
    pub fn saved_frame(&self) -> (r: usize)
        ensures
            r == self@.saved_frame,
    {
        self.saved_frame
    }

    /// How many frames of snapshot history are recorded.
    pub fn history_len(&self) -> (r: usize)
        ensures
            r == self@.hist.len(),
    {
        self.player_history.len()
    }

    /// The stored snapshot of frame `frame`, read-only, or nothing when the
    /// frame is outside the recorded range.
    pub fn snapshot(&self, frame: usize) -> (r: Option<&Vec<Player>>)
        ensures
            frame < self@.hist.len() ==> r is Some && r->0@ == self@.hist[frame as int],
            frame >= self@.hist.len() ==> r is None,
    {
        if frame < self.player_history.len() {
            Some(&self.player_history[frame])
        } else {
            None
        }
    }

    /// The live entities, read-only.
    pub fn current_players(&self) -> (r: &Vec<Player>)
        ensures
            r@ == self@.players,
    {
        &self.players
    }

    /// One player's debug overlay configuration, or nothing when out of
    /// range.
    pub fn debug_player(&self, i: usize) -> (r: Option<&DebugPlayer>)
        ensures
            i < self@.debug_players.len() ==> r == Some(&self@.debug_players[i as int]),
            i >= self@.debug_players.len() ==> r is None,
    {
        if i < self.debug_players.len() {
            Some(&self.debug_players[i])
        } else {
            None
        }
    }

    /// Freeze the match.
    fn set_paused(&mut self)
        ensures
            final(self)@ == spec_set_paused(old(self)@),
    {
        self.state = GameState::Paused;
    }

    /// The terminal state steps nowhere.
    fn step_results(&mut self)
        ensures
            final(self)@ == old(self)@,
    {
    }

    /// Simulate one frame: each live entity consumes the logical input of
    /// its own controller slot, then the time limit is evaluated.
    fn step_game(&mut self, package: &Package, player_input: &Vec<PlayerInput>)
        requires
            wf_game(old(self)@, *package),
            forall|k: int|
                0 <= k < old(self)@.controllers.len() ==> (#[trigger] old(self)@.controllers[k])
                    < player_input@.len(),
        ensures
            final(self)@ == spec_step_game(old(self)@, *package, player_input@),
    {
        let n = self.players.len();
        let mut i: usize = 0;
        while i < n
            invariant
                i <= n,
                n == self@.players.len(),
                self@.players.len() == old(self)@.players.len(),
                self@.controllers == old(self)@.controllers,
                self@.fighters == old(self)@.fighters,
                self@.stage == old(self)@.stage,
                self@.state == old(self)@.state,
                self@.hist == old(self)@.hist,
                self@.current_frame == old(self)@.current_frame,
                self@.saved_frame == old(self)@.saved_frame,
                self@.edit == old(self)@.edit,
                self@.debug_players == old(self)@.debug_players,
                self@.debug_output == old(self)@.debug_output,
                wf_game(old(self)@, *package),
                forall|k: int|
                    0 <= k < old(self)@.controllers.len() ==> (
                    #[trigger] old(self)@.controllers[k]) < player_input@.len(),
                forall|j: int|
                    0 <= j < i ==> self@.players[j] == spec_step_row(
                        old(self)@.players,
                        player_input@,
                        old(self)@.controllers,
                        old(self)@.fighters,
                        *package,
                        old(self)@.stage,
                    )[j],
                forall|j: int| i <= j < n ==> self@.players[j] == old(self)@.players[j],
            decreases n - i,
        {
            let ci = self.selected_controllers[i];
            let fi = self.selected_fighters[i];
            let mut p = self.players[i];
            p.step(
                &player_input[ci],
                &package.fighters[fi],
                &package.stages[self.selected_stage],
            );
            self.players[i] = p;
            i = i + 1;
        }
        if let Some(limit) = package.rules.time_limit {
            if (self.current_frame / 60) as u64 > limit {
                self.state = GameState::Results;
            }
        }
        self.debug_output_this_step = Some(self.current_frame);
        proof {
            assert(self@.players =~= spec_step_game(old(self)@, *package, player_input@).players);
            assert(self@ =~= spec_step_game(old(self)@, *package, player_input@));
        }
    }

    /// One live tick: record, derive, simulate, append the snapshot, then
    /// conclude, pause, or advance.
    fn step_local(&mut self, package: &Package, input: &mut Input, os_input: &OsInput)
        requires
            old(input).wf(),
            wf_game(old(self)@, *package),
            aligned(old(self)@, old(input)@),
            compat(old(self)@, old(input)@),
            0 <= old(self)@.current_frame <= old(self)@.hist.len(),
            old(self)@.state is Local || (old(self)@.state is Paused && os_input.key_space),
        ensures
            final(input).wf(),
            final(self)@ == spec_step_local(old(self)@, old(input)@, *package, *os_input).0,
            final(input)@ == spec_step_local(old(self)@, old(input)@, *package, *os_input).1,
    {
        // discard any stale future beyond the frame about to be simulated
        self.player_history.truncate(self.current_frame);
        proof {
            assert forall|t: int| 0 <= t < self@.hist.len() implies (#[trigger] self@.hist[t]).len()
                == self@.players.len() by {
                assert(self@.hist[t] == old(self)@.hist[t]);
            }
            assert forall|t: int, j: int|
                0 <= t < self@.hist.len() && 0 <= j < self@.hist[t].len() implies wf_player(
                #[trigger] self@.hist[t][j]) by {
                assert(self@.hist[t] == old(self)@.hist[t]);
            }
            assert(wf_game(self@, *package));
        }
        input.game_update(self.current_frame);
        proof {
            input.lemma_wf();
        }
        let ghost h1 = self@.hist;
        proof {
            assert(h1 =~= old(self)@.hist.take(old(self)@.current_frame));
        }
        let player_inputs = match input.players(self.current_frame) {
            Ok(v) => v,
            Err(_) => unreached(),
        };
        self.step_game(package, &player_inputs);
        let row = copy_players(&self.players);
        let ghost prow = self.players@;
        let ghost h2 = self@.hist;
        self.player_history.push(row);
        proof {
            assert(h2 == h1);
            assert(self@.hist =~= h2.push(prow));
        }
        let pressed = input.start_pressed();
        if matches!(self.state, GameState::Results) {
        } else if pressed || os_input.key_space {
            self.set_paused();
        } else {
            let l = self.player_history.len();
            self.current_frame = l;
        }
        proof {
            let r = spec_step_local(old(self)@, old(input)@, *package, *os_input);
            let cf = old(self)@.current_frame;
            let i1 = spec_record(old(input)@, cf);
            let li = spec_logical(i1.samples, i1.count, cf);
            assert(player_inputs@ == li);
            assert(prow == spec_step_row(
                old(self)@.players,
                li,
                old(self)@.controllers,
                old(self)@.fighters,
                *package,
                old(self)@.stage,
            ));
            assert(self@.hist == h1.push(prow));
            assert(self@.hist =~= r.0.hist);
            assert(input@ =~= r.1);
            assert(self@ =~= r.0);
        }
    }

    /// One netplay tick: as a live tick, but never pauses; remote samples
    /// enter through the same recording path as local ones.
    fn step_netplay(&mut self, package: &Package, input: &mut Input)
        requires
            old(input).wf(),
            wf_game(old(self)@, *package),
            aligned(old(self)@, old(input)@),
            compat(old(self)@, old(input)@),
            old(self)@.state is Netplay,
            old(self)@.current_frame == old(self)@.hist.len(),
        ensures
            final(input).wf(),
            final(self)@ == spec_step_netplay(old(self)@, old(input)@, *package).0,
            final(input)@ == spec_step_netplay(old(self)@, old(input)@, *package).1,
    {
        input.game_update(self.current_frame);
        proof {
            input.lemma_wf();
        }
        let player_inputs = match input.players(self.current_frame) {
            Ok(v) => v,
            Err(_) => unreached(),
        };
        self.step_game(package, &player_inputs);
        let row = copy_players(&self.players);
        let ghost prow = self.players@;
        let ghost h2 = self@.hist;
        self.player_history.push(row);
        proof {
            assert(h2 == old(self)@.hist);
            assert(self@.hist =~= h2.push(prow));
        }
        if matches!(self.state, GameState::Results) {
        } else {
            let l = self.player_history.len();
            self.current_frame = l;
        }
        proof {
            let r = spec_step_netplay(old(self)@, old(input)@, *package);
            let cf = old(self)@.current_frame;
            let i1 = spec_record(old(input)@, cf);
            let li = spec_logical(i1.samples, i1.count, cf);
            assert(player_inputs@ == li);
            assert(prow == spec_step_row(
                old(self)@.players,
                li,
                old(self)@.controllers,
                old(self)@.fighters,
                *package,
                old(self)@.stage,
            ));
            assert(self@.hist =~= r.0.hist);
            assert(input@ =~= r.1);
            assert(self@ =~= r.0);
        }
    }

    /// One forward replay tick: advance the cursor by re-simulating the next
    /// recorded frame from its recorded input and overwrite its snapshot;
    /// pause at the end of recorded input.
    fn step_replay_forwards(&mut self, package: &Package, input: &mut Input, os_input: &OsInput)
        requires
            old(input).wf(),
            wf_game(old(self)@, *package),
            aligned(old(self)@, old(input)@),
            compat(old(self)@, old(input)@),
            old(self)@.state is ReplayForwards || old(self)@.state is Paused,
            0 <= old(self)@.current_frame < old(self)@.hist.len(),
        ensures
            final(input).wf(),
            final(self)@ == spec_step_replay_forwards(old(self)@, old(input)@, *package, *os_input).0,
            final(input)@ == spec_step_replay_forwards(old(self)@, old(input)@, *package, *os_input).1,
    {
        let len = self.player_history.len();
        if self.current_frame + 1 < len {
            self.current_frame = self.current_frame + 1;
            proof {
                input.lemma_wf();
            }
            let player_inputs = match input.players(self.current_frame) {
                Ok(v) => v,
                Err(_) => unreached(),
            };
            self.step_game(package, &player_inputs);
            let row = copy_players(&self.players);
            let ghost prow = self.players@;
            let ghost h2 = self@.hist;
            self.player_history[self.current_frame] = row;
            proof {
                assert(h2 == old(self)@.hist);
                assert(self@.hist =~= h2.update(old(self)@.current_frame + 1, prow));
            }
            let pressed = input.start_pressed();
            if matches!(self.state, GameState::Results) {
            } else if pressed || os_input.key_space {
                self.set_paused();
            } else if os_input.key_h {
                self.state = GameState::ReplayBackwards;
            }
            proof {
                let r = spec_step_replay_forwards(old(self)@, old(input)@, *package, *os_input);
                let cf1 = old(self)@.current_frame + 1;
                let li = spec_logical(old(input)@.samples, old(input)@.count, cf1);
                assert(player_inputs@ == li);
                assert(prow == spec_step_row(
                    old(self)@.players,
                    li,
                    old(self)@.controllers,
                    old(self)@.fighters,
                    *package,
                    old(self)@.stage,
                ));
                assert(self@.hist =~= r.0.hist);
                assert(input@ =~= r.1);
                assert(self@ =~= r.0);
            }
        } else {
            self.set_paused();
            proof {
                let r = spec_step_replay_forwards(old(self)@, old(input)@, *package, *os_input);
                assert(self@ =~= r.0);
            }
        }
    }

    /// One backward replay tick: restore the previous frame's snapshot
    /// verbatim, no recomputation; pause at frame 0.
    fn step_replay_backwards(&mut self, input: &mut Input, os_input: &OsInput)
        requires
            old(input).wf(),
            old(self)@.state is ReplayBackwards || old(self)@.state is Paused,
            0 <= old(self)@.current_frame < old(self)@.hist.len(),
        ensures
            final(input).wf(),
            final(self)@ == spec_step_replay_backwards(old(self)@, old(input)@, *os_input).0,
            final(input)@ == spec_step_replay_backwards(old(self)@, old(input)@, *os_input).1,
    {
        if self.current_frame > 0 {
            let jump_to = self.current_frame - 1;
            self.players = copy_players(&self.player_history[jump_to]);
            self.current_frame = jump_to;
            self.debug_output_this_step = Some(jump_to);
        } else {
            self.set_paused();
        }
        if os_input.key_l {
            self.state = GameState::ReplayForwards;
        } else {
            let pressed = input.start_pressed();
            if pressed || os_input.key_space {
                self.set_paused();
            }
        }
        proof {
            let r = spec_step_replay_backwards(old(self)@, old(input)@, *os_input);
            assert(self@ =~= r.0);
            assert(input@ =~= r.1);
        }
    }

    /// Jump to the bookmarked frame, restoring its snapshot; a bookmark
    /// invalidated by truncation is a no-op.
    fn jump_frame(&mut self)
        ensures
            final(self)@ == spec_jump_frame(old(self)@),
    {
        let frame = self.saved_frame;
        let len = self.player_history.len();
        if len > 0 && frame < len - 1 {
            self.players = copy_players(&self.player_history[frame]);
            self.current_frame = frame;
            self.debug_output_this_step = Some(frame);
        }
        proof {
            assert(self@ =~= spec_jump_frame(old(self)@));
        }
    }

    /// Toggle, set or clear one player's debug overlays from function keys.
    fn set_debug(&mut self, os_input: &OsInput, player: usize)
        requires
            player < old(self)@.debug_players.len(),
        ensures
            final(self)@ == spec_set_debug(old(self)@, *os_input, player as int),
    {
        let d = self.debug_players[player];
        let d1 = DebugPlayer {
            physics: if os_input.key_f1 {
                !d.physics
            } else {
                d.physics
            },
            input: if os_input.key_f2 && !os_input.held_shift {
                !d.input
            } else {
                d.input
            },
            input_diff: if os_input.key_f2 && os_input.held_shift {
                !d.input_diff
            } else {
                d.input_diff
            },
            action: if os_input.key_f3 {
                !d.action
            } else {
                d.action
            },
            frame: if os_input.key_f4 {
                !d.frame
            } else {
                d.frame
            },
            stick_vector: if os_input.key_f5 {
                !d.stick_vector
            } else {
                d.stick_vector
            },
            c_stick_vector: if os_input.key_f6 {
                !d.c_stick_vector
            } else {
                d.c_stick_vector
            },
            di_vector: if os_input.key_f7 {
                !d.di_vector
            } else {
                d.di_vector
            },
            player: if os_input.key_f8 {
                !d.player
            } else {
                d.player
            },
            no_fighter: if os_input.key_f9 {
                !d.no_fighter
            } else {
                d.no_fighter
            },
        };
        let d2 = if os_input.key_f11 {
            DebugPlayer::all()
        } else {
            d1
        };
        let d3 = if os_input.key_f12 {
            DebugPlayer::default()
        } else {
            d2
        };
        self.debug_players[player] = d3;
        proof {
            assert(self@.debug_players =~= spec_set_debug(
                old(self)@,
                *os_input,
                player as int,
            ).debug_players);
            assert(self@ =~= spec_set_debug(old(self)@, *os_input, player as int));
        }
    }

    /// One paused tick: editor focus selection, one flow command, then any
    /// debug-overlay edits for the focused player.
    fn step_pause(&mut self, package: &Package, input: &mut Input, os_input: &OsInput)
        requires
            old(input).wf(),
            wf_game(old(self)@, *package),
            aligned(old(self)@, old(input)@),
            compat(old(self)@, old(input)@),
            old(self)@.state is Paused,
            stable(old(self)@),
        ensures
            final(input).wf(),
            final(self)@ == spec_step_pause(old(self)@, old(input)@, *package, *os_input).0,
            final(input)@ == spec_step_pause(old(self)@, old(input)@, *package, *os_input).1,
    {
        let players_len = self.players.len();
        // editor focus
        if os_input.key_grave {
            self.edit = Edit::Stage;
        } else if os_input.key_1 && players_len >= 1 {
            self.edit = if os_input.held_shift {
                Edit::Player(0)
            } else {
                Edit::Fighter(0)
            };
        } else if os_input.key_2 && players_len >= 2 {
            self.edit = if os_input.held_shift {
                Edit::Player(1)
            } else {
                Edit::Fighter(1)
            };
        } else if os_input.key_3 && players_len >= 3 {
            self.edit = if os_input.held_shift {
                Edit::Player(2)
            } else {
                Edit::Fighter(2)
            };
        } else if os_input.key_4 && players_len >= 4 {
            self.edit = if os_input.held_shift {
                Edit::Player(3)
            } else {
                Edit::Fighter(3)
            };
        }
        let ghost g0 = GameView { edit: spec_edit_selection(old(self)@, *os_input), ..old(self)@ };
        proof {
            assert(self@ =~= g0);
        }
        // flow control
        if os_input.key_j {
            self.step_replay_backwards(input, os_input);
        } else if os_input.key_k {
            self.step_replay_forwards(package, input, os_input);
        } else if os_input.key_h {
            self.state = GameState::ReplayBackwards;
        } else if os_input.key_l {
            self.state = GameState::ReplayForwards;
        } else if os_input.key_space {
            let hl = self.player_history.len();
            proof {
                assert(self@.current_frame < hl as int);
            }
            self.current_frame = self.current_frame + 1;
            self.step_local(package, input, os_input);
        } else if os_input.key_u {
            self.saved_frame = self.current_frame;
        } else if os_input.key_i {
            self.jump_frame();
        } else {
            let pressed = input.start_pressed();
            if pressed {
                self.state = GameState::Local;
                let hl = self.player_history.len();
                proof {
                    assert(self@.current_frame < hl as int);
                }
                self.current_frame = self.current_frame + 1;
            }
        }
        let ghost rr = if os_input.key_j {
            spec_step_replay_backwards(g0, old(input)@, *os_input)
        } else if os_input.key_k {
            spec_step_replay_forwards(g0, old(input)@, *package, *os_input)
        } else if os_input.key_h {
            (GameView { state: GameState::ReplayBackwards, ..g0 }, old(input)@)
        } else if os_input.key_l {
            (GameView { state: GameState::ReplayForwards, ..g0 }, old(input)@)
        } else if os_input.key_space {
            spec_step_local(
                GameView { current_frame: g0.current_frame + 1, ..g0 },
                old(input)@,
                *package,
                *os_input,
            )
        } else if os_input.key_u {
            (spec_mark_frame(g0), old(input)@)
        } else if os_input.key_i {
            (spec_jump_frame(g0), old(input)@)
        } else {
            if spec_start_press(old(input)@) {
                (
                    GameView {
                        state: GameState::Local,
                        current_frame: g0.current_frame + 1,
                        ..g0
                    },
                    spec_after_start_poll(old(input)@),
                )
            } else {
                (g0, spec_after_start_poll(old(input)@))
            }
        };
        proof {
            assert(self@ =~= rr.0);
            assert(input@ =~= rr.1);
            assert(rr.0.debug_players == old(self)@.debug_players);
            assert(rr.0.edit == g0.edit);
        }
        // non-temporal configuration editing on the focused player
        let e = self.edit;
        match e {
            Edit::Fighter(p) => {
                self.set_debug(os_input, p);
            },
            Edit::Player(p) => {
                self.set_debug(os_input, p);
            },
            Edit::Stage => {},
        }
        proof {
            let r = spec_step_pause(old(self)@, old(input)@, *package, *os_input);
            assert(self@ =~= r.0);
            assert(input@ =~= r.1);
        }
    }

    /// One tick of the state machine: dispatch on the active control state,
    /// then hand back the frame whose diagnostics should be dumped, if any.
    /// Everything `step` relies on between ticks it also re-establishes, so
    /// the loop around it can run forever.
    pub fn step(&mut self, package: &Package, input: &mut Input, os_input: &OsInput) -> (r: Option<
        usize,
    >)
        requires
            old(input).wf(),
            ready(old(self)@, old(input)@, *package),
        ensures
            final(input).wf(),
            ready(final(self)@, final(input)@, *package),
            final(self)@ == (GameView {
                debug_output: None,
                ..spec_step(old(self)@, old(input)@, *package, *os_input).0
            }),
            final(input)@ == spec_step(old(self)@, old(input)@, *package, *os_input).1,
            r == spec_step(old(self)@, old(input)@, *package, *os_input).0.debug_output,
    {
        proof {
            input.lemma_wf();
        }
        let s = self.state;
        match s {
            GameState::Local => self.step_local(package, input, os_input),
            GameState::Netplay => self.step_netplay(package, input),
            GameState::Results => self.step_results(),
            GameState::ReplayForwards => self.step_replay_forwards(package, input, os_input),
            GameState::ReplayBackwards => self.step_replay_backwards(input, os_input),
            GameState::Paused => self.step_pause(package, input, os_input),
        }
        let out = self.debug_output_this_step;
        self.debug_output_this_step = None;
        proof {
            lemma_step_preserves_ready(old(self)@, old(input)@, *package, *os_input);
            let r = spec_step(old(self)@, old(input)@, *package, *os_input);
            assert(self@ =~= (GameView { debug_output: None, ..r.0 }));
        }
        out
    }

    /// The read-only projection for the renderer: the control state and one
    /// entry per live entity, annotated with the pause-screen selection.
    #[verifier::loop_isolation(false)]
    pub fn render(&self) -> (r: RenderGame)
        requires
            counts_ok(self@),
        ensures
            r.state == self@.state,
            r.entities@.len() == self@.players.len(),
            forall|i: int|
                0 <= i < self@.players.len() ==> r.entities@[i] == spec_render_entity(self@, i),
    {
        let mut entities: Vec<RenderEntity> = Vec::new();
        let n = self.players.len();
        let paused = matches!(self.state, GameState::Paused);
        let mut i: usize = 0;
        while i < n
            invariant
                i <= n,
                entities@.len() == i,
                forall|j: int| 0 <= j < i ==> entities@[j] == spec_render_entity(self@, j),
            decreases n - i,
        {
            let selected = paused && match self.edit {
                Edit::Player(p) => p == i,
                _ => false,
            };
            let fighter_selected = paused && match self.edit {
                Edit::Fighter(p) => p == i,
                _ => false,
            };
            entities.push(
                RenderEntity::Player(
                    RenderPlayer {
                        player: self.players[i],
                        fighter: self.selected_fighters[i],
                        selected,
                        fighter_selected,
                        debug: self.debug_players[i],
                    },
                ),
            );
            i = i + 1;
        }
        RenderGame { entities, state: self.state }
    }
}

/// Whether a stage's bounds and spawn points are usable.
fn check_stage(stage: &Stage) -> (r: bool)
    ensures
        r == wf_stage(*stage),
{
    let bounds_ok = -POS_LIMIT <= stage.lower_bounds.x && stage.lower_bounds.x
        <= stage.higher_bounds.x && stage.higher_bounds.x <= POS_LIMIT && -POS_LIMIT
        <= stage.lower_bounds.y && stage.lower_bounds.y <= stage.higher_bounds.y
        && stage.higher_bounds.y <= POS_LIMIT;
    if !bounds_ok {
        return false;
    }
    let n = stage.spawn_points.len();
    let mut i: usize = 0;
    while i < n
        invariant
            i <= n,
            n == stage.spawn_points@.len(),
            -POS_LIMIT <= stage.lower_bounds.x <= stage.higher_bounds.x <= POS_LIMIT,
            -POS_LIMIT <= stage.lower_bounds.y <= stage.higher_bounds.y <= POS_LIMIT,
            forall|j: int|
                0 <= j < i ==> {
                    &&& -POS_LIMIT <= (#[trigger] stage.spawn_points@[j]).x <= POS_LIMIT
                    &&& -POS_LIMIT <= stage.spawn_points@[j].y <= POS_LIMIT
                },
        decreases n - i,
    {
        let p = stage.spawn_points[i];
        if p.x < -POS_LIMIT || p.x > POS_LIMIT || p.y < -POS_LIMIT || p.y > POS_LIMIT {
            return false;
        }
        i = i + 1;
    }
    true
}

/// An element-for-element copy of one snapshot row.
fn copy_players(v: &Vec<Player>) -> (r: Vec<Player>)
    ensures
        r@ == v@,
{
    let mut r: Vec<Player> = Vec::new();
    let n = v.len();
    let mut i: usize = 0;
    while i < n
        invariant
            i <= n,
            n == v@.len(),
            r@.len() == i,
            forall|j: int| 0 <= j < i ==> r@[j] == v@[j],
        decreases n - i,
    {
        r.push(v[i]);
        i = i + 1;
    }
    proof {
        assert(r@ =~= v@);
    }
    r
}

/// A stepped row of entities has one entry per entity, each within the
/// stage bounds: the per-entity resolution clamps positions, so any row it
/// produces is well-formed.
pub proof fn lemma_step_row_wf(
    players: Seq<Player>,
    li: Seq<PlayerInput>,
    controllers: Seq<usize>,
    fighters: Seq<usize>,
    pkg: Package,
    stage: int,
)
    requires
        0 <= stage < pkg.stages@.len(),
        wf_stage(pkg.stages@[stage]),
    ensures
        spec_step_row(players, li, controllers, fighters, pkg, stage).len() == players.len(),
        forall|i: int|
            0 <= i < players.len() ==> wf_player(
                #[trigger] spec_step_row(players, li, controllers, fighters, pkg, stage)[i],
            ),
{
}

/// A live tick keeps the match well-formed, both histories in lockstep, and
/// the control state's between-tick guarantees.
proof fn lemma_local_preserves(g: GameView, i: InputView, pkg: Package, os: OsInput)
    requires
        wf_game(g, pkg),
        aligned(g, i),
        compat(g, i),
        wf_input(i),
        0 <= g.current_frame <= g.hist.len(),
        g.state is Local || g.state is Paused,
    ensures
        wf_game(spec_step_local(g, i, pkg, os).0, pkg),
        aligned(spec_step_local(g, i, pkg, os).0, spec_step_local(g, i, pkg, os).1),
        compat(spec_step_local(g, i, pkg, os).0, spec_step_local(g, i, pkg, os).1),
        wf_input(spec_step_local(g, i, pkg, os).1),
        g.state is Local || os.key_space ==> stable(spec_step_local(g, i, pkg, os).0),
{
    let i1 = spec_record(i, g.current_frame);
    let li = spec_logical(i1.samples, i1.count, g.current_frame);
    lemma_step_row_wf(g.players, li, g.controllers, g.fighters, pkg, g.stage);
    let r = spec_step_local(g, i, pkg, os);
    assert forall|f: int| 0 <= f < r.1.samples.len() implies (#[trigger] r.1.samples[f]).len()
        == r.1.count by {
        if f < g.current_frame {
            assert(r.1.samples[f] == i.samples[f]);
        } else {
            assert(r.1.samples[f] == i.current);
        }
    }
    assert(hist_ok(r.0)) by {
        let h = r.0.hist;
        assert forall|t: int| 0 <= t < h.len() implies (#[trigger] h[t]).len()
            == r.0.players.len() by {
            if t < g.current_frame {
                assert(h[t] == g.hist[t]);
            }
        }
        assert forall|t: int, j: int|
            0 <= t < h.len() && 0 <= j < h[t].len() implies wf_player(#[trigger] h[t][j]) by {
            if t < g.current_frame {
                assert(h[t] == g.hist[t]);
            }
        }
    }
}

/// A netplay tick keeps the same guarantees as a live tick.
proof fn lemma_netplay_preserves(g: GameView, i: InputView, pkg: Package)
    requires
        wf_game(g, pkg),
        aligned(g, i),
        compat(g, i),
        wf_input(i),
        g.state is Netplay,
        g.current_frame == g.hist.len(),
    ensures
        wf_game(spec_step_netplay(g, i, pkg).0, pkg),
        stable(spec_step_netplay(g, i, pkg).0),
        aligned(spec_step_netplay(g, i, pkg).0, spec_step_netplay(g, i, pkg).1),
        compat(spec_step_netplay(g, i, pkg).0, spec_step_netplay(g, i, pkg).1),
        wf_input(spec_step_netplay(g, i, pkg).1),
{
    let i1 = spec_record(i, g.current_frame);
    let li = spec_logical(i1.samples, i1.count, g.current_frame);
    lemma_step_row_wf(g.players, li, g.controllers, g.fighters, pkg, g.stage);
    let r = spec_step_netplay(g, i, pkg);
    assert forall|f: int| 0 <= f < r.1.samples.len() implies (#[trigger] r.1.samples[f]).len()
        == r.1.count by {
        if f < g.current_frame {
            assert(r.1.samples[f] == i.samples[f]);
        } else {
            assert(r.1.samples[f] == i.current);
        }
    }
    assert(hist_ok(r.0)) by {
        let h = r.0.hist;
        assert forall|t: int| 0 <= t < h.len() implies (#[trigger] h[t]).len()
            == r.0.players.len() by {
            if t < g.hist.len() {
                assert(h[t] == g.hist[t]);
            }
        }
        assert forall|t: int, j: int|
            0 <= t < h.len() && 0 <= j < h[t].len() implies wf_player(#[trigger] h[t][j]) by {
            if t < g.hist.len() {
                assert(h[t] == g.hist[t]);
            }
        }
    }
}

/// A forward replay tick keeps the match well-formed and the cursor on a
/// snapshot it equals.
proof fn lemma_replay_forwards_preserves(g: GameView, i: InputView, pkg: Package, os: OsInput)
    requires
        wf_game(g, pkg),
        aligned(g, i),
        compat(g, i),
        wf_input(i),
        g.state is ReplayForwards || g.state is Paused,
        stable(g),
    ensures
        wf_game(spec_step_replay_forwards(g, i, pkg, os).0, pkg),
        stable(spec_step_replay_forwards(g, i, pkg, os).0),
        aligned(spec_step_replay_forwards(g, i, pkg, os).0, spec_step_replay_forwards(g, i, pkg, os).1),
        compat(spec_step_replay_forwards(g, i, pkg, os).0, spec_step_replay_forwards(g, i, pkg, os).1),
        wf_input(spec_step_replay_forwards(g, i, pkg, os).1),
{
    let r = spec_step_replay_forwards(g, i, pkg, os);
    if g.current_frame + 1 < g.hist.len() {
        let cf1 = g.current_frame + 1;
        let li = spec_logical(i.samples, i.count, cf1);
        lemma_step_row_wf(g.players, li, g.controllers, g.fighters, pkg, g.stage);
        assert(hist_ok(r.0)) by {
            let h = r.0.hist;
            assert forall|t: int| 0 <= t < h.len() implies (#[trigger] h[t]).len()
                == r.0.players.len() by {
                if t != cf1 {
                    assert(h[t] == g.hist[t]);
                }
            }
            assert forall|t: int, j: int|
                0 <= t < h.len() && 0 <= j < h[t].len() implies wf_player(#[trigger] h[t][j]) by {
                if t != cf1 {
                    assert(h[t] == g.hist[t]);
                }
            }
        }
    }
}

/// A backward replay tick restores a recorded snapshot, so everything the
/// stepper relies on still holds afterwards.
proof fn lemma_replay_backwards_preserves(g: GameView, i: InputView, pkg: Package, os: OsInput)
    requires
        wf_game(g, pkg),
        aligned(g, i),
        compat(g, i),
        wf_input(i),
        g.state is ReplayBackwards || g.state is Paused,
        stable(g),
    ensures
        wf_game(spec_step_replay_backwards(g, i, os).0, pkg),
        stable(spec_step_replay_backwards(g, i, os).0),
        aligned(spec_step_replay_backwards(g, i, os).0, spec_step_replay_backwards(g, i, os).1),
        compat(spec_step_replay_backwards(g, i, os).0, spec_step_replay_backwards(g, i, os).1),
        wf_input(spec_step_replay_backwards(g, i, os).1),
{
}

/// A paused tick — scrubbing, bookmarking, a single step in either
/// direction, or resuming — keeps everything the stepper relies on.
#[verifier::rlimit(100)]
proof fn lemma_pause_preserves(g: GameView, i: InputView, pkg: Package, os: OsInput)
    requires
        wf_game(g, pkg),
        aligned(g, i),
        compat(g, i),
        wf_input(i),
        g.state is Paused,
        stable(g),
    ensures
        wf_game(spec_step_pause(g, i, pkg, os).0, pkg),
        stable(spec_step_pause(g, i, pkg, os).0),
        aligned(spec_step_pause(g, i, pkg, os).0, spec_step_pause(g, i, pkg, os).1),
        compat(spec_step_pause(g, i, pkg, os).0, spec_step_pause(g, i, pkg, os).1),
        wf_input(spec_step_pause(g, i, pkg, os).1),
{
    let g0 = GameView { edit: spec_edit_selection(g, os), ..g };
    assert(wf_game(g0, pkg));
    assert(stable(g0));
    if os.key_j {
        lemma_replay_backwards_preserves(g0, i, pkg, os);
    } else if os.key_k {
        lemma_replay_forwards_preserves(g0, i, pkg, os);
    } else if os.key_h {
    } else if os.key_l {
    } else if os.key_space {
        let gs = GameView { current_frame: g0.current_frame + 1, ..g0 };
        lemma_local_preserves(gs, i, pkg, os);
    } else if os.key_u {
    } else if os.key_i {
    } else {
    }
}

/// One tick of the state machine preserves everything it relies on: the
/// match stays well-formed, snapshot history and input history stay in
/// lockstep (their lengths are equal at every point between ticks), and in
/// the paused and replay states the live entities equal the snapshot at the
/// cursor.
pub proof fn lemma_step_preserves_ready(g: GameView, i: InputView, pkg: Package, os: OsInput)
    requires
        ready(g, i, pkg),
        wf_input(i),
    ensures
        ready(spec_step(g, i, pkg, os).0, spec_step(g, i, pkg, os).1, pkg),
        wf_input(spec_step(g, i, pkg, os).1),
{
    match g.state {
        GameState::Local => {
            lemma_local_preserves(g, i, pkg, os);
        },
        GameState::Netplay => {
            lemma_netplay_preserves(g, i, pkg);
        },
        GameState::Results => {},
        GameState::ReplayForwards => {
            lemma_replay_forwards_preserves(g, i, pkg, os);
        },
        GameState::ReplayBackwards => {
            lemma_replay_backwards_preserves(g, i, pkg, os);
        },
        GameState::Paused => {
            lemma_pause_preserves(g, i, pkg, os);
        },
    }
}

} // verus!
