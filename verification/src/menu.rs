//! Menu flow around a match: package, character and stage selection. The
//! menus poll the same input buffer as the game; loading a package archive
//! is an I/O concern that happens outside and hands a loaded package in.

use vstd::prelude::*;
use vstd::pervasive::unreached;
use crate::input::{
    Input, PlayerInput, spec_start_press, spec_after_start_poll, spec_logical, spec_record,
};
use crate::package::{Package, Verify};

verus! {

/// Analog menu navigation starts once the stick leaves this dead zone.
pub const STICK_MENU_THRESHOLD: i16 = 32;

/// One finished match's outcome for one player.
#[derive(Clone, Copy, Debug, PartialEq, Eq, Structural)]
pub struct GameResult {
    pub player: usize,
    pub place: usize,
}

/// What the menu hands to the application to start a match.
#[derive(Clone, Debug)]
pub struct GameSetup {
    pub controllers: Vec<usize>,
    pub fighters: Vec<usize>,
    pub stage: usize,
    pub netplay: bool,
}

/// The persistent launcher configuration the menu edits. Reading and
/// writing it to disk happens outside the core.
pub struct Config {
    pub current_package: Option<String>,
}

/// A cursor that steps on the first tick it is held and then repeats with
/// shrinking delays, for scrolling menu lists.
#[derive(Clone, Copy, Debug, PartialEq, Eq, Structural)]
pub struct MenuTicker {
    pub cursor: usize,
    pub cursor_max: usize,
    pub ticks_remaining: usize,
    pub tick_duration_i: usize,
    pub reset: bool,
}

/// The repeat delay after `i` consecutive repeats: quick after a while.
pub open spec fn spec_tick_duration(i: int) -> usize {
    if i <= 0 {
        20usize
    } else if i == 1 {
        12usize
    } else if i == 2 {
        10usize
    } else if i == 3 {
        8usize
    } else if i == 4 {
        6usize
    } else {
        5usize
    }
}

/// The cursor stays in range, the repeat stage stays in range, and a ticker
/// in motion always has a tick pending.
pub open spec fn wf_ticker(t: MenuTicker) -> bool {
    &&& t.cursor <= t.cursor_max
    &&& t.tick_duration_i <= 5
    &&& (!t.reset ==> t.ticks_remaining >= 1)
}

/// One held tick: fires at once from rest, then counts down and fires each
/// time the delay runs out, shortening the delay up to a floor.
pub open spec fn spec_ticker_tick(t: MenuTicker) -> (MenuTicker, bool) {
    if t.reset {
        (MenuTicker { ticks_remaining: 20usize, tick_duration_i: 0usize, reset: false, ..t }, true)
    } else if t.ticks_remaining == 1 {
        (
            MenuTicker {
                ticks_remaining: spec_tick_duration(t.tick_duration_i as int),
                tick_duration_i: if t.tick_duration_i < 5 {
                    (t.tick_duration_i + 1) as usize
                } else {
                    t.tick_duration_i
                },
                ..t
            },
            true,
        )
    } else {
        (MenuTicker { ticks_remaining: (t.ticks_remaining - 1) as usize, ..t }, false)
    }
}

/// Held upward: when the tick fires, the cursor moves up and wraps.
pub open spec fn spec_ticker_up(t: MenuTicker) -> MenuTicker {
    let r = spec_ticker_tick(t);
    if r.1 {
        MenuTicker {
            cursor: if r.0.cursor == 0 {
                r.0.cursor_max
            } else {
                (r.0.cursor - 1) as usize
            },
            ..r.0
        }
    } else {
        r.0
    }
}

/// Held downward: when the tick fires, the cursor moves down and wraps.
pub open spec fn spec_ticker_down(t: MenuTicker) -> MenuTicker {
    let r = spec_ticker_tick(t);
    if r.1 {
        MenuTicker {
            cursor: if r.0.cursor == r.0.cursor_max {
                0usize
            } else {
                (r.0.cursor + 1) as usize
            },
            ..r.0
        }
    } else {
        r.0
    }
}

/// Released: the next hold fires at once again.
pub open spec fn spec_ticker_reset(t: MenuTicker) -> MenuTicker {
    MenuTicker { reset: true, ..t }
}

impl MenuTicker {
    /// A ticker over a list of `item_count` entries, at rest on the first.
    pub fn new(item_count: usize) -> (r: MenuTicker)
        ensures
            r == (MenuTicker {
                cursor: 0usize,
                cursor_max: if item_count > 0 {
                    (item_count - 1) as usize
                } else {
                    0usize
                },
                ticks_remaining: 0usize,
                tick_duration_i: 0usize,
                reset: true,
            }),
            wf_ticker(r),
    {
        MenuTicker {
            cursor: 0,
            cursor_max: if item_count > 0 {
                item_count - 1
            } else {
                0
            },
            ticks_remaining: 0,
            tick_duration_i: 0,
            reset: true,
        }
    }

    /// Advance the repeat clock; true exactly when the cursor should move.
    pub fn tick(&mut self) -> (fired: bool)
        requires
            wf_ticker(*old(self)),
        ensures
            *final(self) == spec_ticker_tick(*old(self)).0,
            fired == spec_ticker_tick(*old(self)).1,
            wf_ticker(*final(self)),
    {
        if self.reset {
            self.ticks_remaining = 20;
            self.tick_duration_i = 0;
            self.reset = false;
            true
        } else {
            self.ticks_remaining = self.ticks_remaining - 1;
            if self.ticks_remaining == 0 {
                self.ticks_remaining = tick_duration(self.tick_duration_i);
                if self.tick_duration_i < 5 {
                    self.tick_duration_i = self.tick_duration_i + 1;
                }
                true
            } else {
                false
            }
        }
    }

    /// Move the cursor up, wrapping, at the repeat clock's pace.
    pub fn up(&mut self)
        requires
            wf_ticker(*old(self)),
        ensures
            *final(self) == spec_ticker_up(*old(self)),
            wf_ticker(*final(self)),
    {
        if self.tick() {
            if self.cursor == 0 {
                self.cursor = self.cursor_max;
            } else {
                self.cursor = self.cursor - 1;
            }
        }
    }

    /// Move the cursor down, wrapping, at the repeat clock's pace.
    pub fn down(&mut self)
        requires
            wf_ticker(*old(self)),
        ensures
            *final(self) == spec_ticker_down(*old(self)),
            wf_ticker(*final(self)),
    {
        if self.tick() {
            if self.cursor == self.cursor_max {
                self.cursor = 0;
            } else {
                self.cursor = self.cursor + 1;
            }
        }
    }

    /// Note that the hold was released.
    pub fn reset(&mut self)
        ensures
            *final(self) == spec_ticker_reset(*old(self)),
            wf_ticker(*old(self)) ==> wf_ticker(*final(self)),
    {
        self.reset = true;
    }
}

/// The repeat delay after `i` consecutive repeats.
fn tick_duration(i: usize) -> (r: usize)
    ensures
        r == spec_tick_duration(i as int),
{
    if i == 0 {
        20
    } else if i == 1 {
        12
    } else if i == 2 {
        10
    } else if i == 3 {
        8
    } else if i == 4 {
        6
    } else {
        5
    }
}

/// One player's character-select progress.
#[derive(Clone, Copy, Debug, PartialEq, Eq, Structural)]
pub struct CharacterSelect {
    pub plugged_in: bool,
    pub selection: Option<usize>,
    pub ticker: MenuTicker,
}

/// The loaded package and its verification status, or nothing before one
/// has been loaded.
pub enum PackageHolder {
    Package(Package, Verify),
    Missing,
}

impl PackageHolder {
    /// Wrap a loaded package together with its verification status.
    pub fn new(package: Option<Package>) -> (r: PackageHolder)
        ensures
            package is Some <==> r is Package,
            package is None <==> r is Missing,
            r is Package ==> r->Package_1 == Verify::Valid,
    {
        if let Some(package) = package {
            let verify = package.verify();
            PackageHolder::Package(package, verify)
        } else {
            PackageHolder::Missing
        }
    }

    /// The held package; callers must know one is loaded.
    pub fn get(&self) -> (r: &Package)
        requires
            self is Package,
        ensures
            r == &self->Package_0,
    {
        match self {
            PackageHolder::Package(package, _) => package,
            PackageHolder::Missing => unreached(),
        }
    }

    /// The held package's verification status, or the absent status.
    pub fn verify(&self) -> (r: Verify)
        ensures
            self is Package ==> r == self->Package_1,
            self is Missing ==> r == Verify::Absent,
    {
        match self {
            PackageHolder::Package(_, verify) => *verify,
            PackageHolder::Missing => Verify::Absent,
        }
    }
}

/// Which menu screen is active.
pub enum MenuState {
    CharacterSelect(usize),
    StageSelect,
    GameResults(Vec<GameResult>),
    SetRules,
    PackageSelect(Vec<String>, MenuTicker),
    BrowsePackages,
    CreatePackage,
    CreateFighter,
    StartGame,
}

impl MenuState {
    /// The package-select screen over an already listed set of package
    /// names; listing them reads the filesystem, which happens outside.
    pub fn package_select(package_names: Vec<String>) -> (r: MenuState)
        ensures
            r is PackageSelect,
            r->PackageSelect_0 == package_names,
            r->PackageSelect_1 == (MenuTicker {
                cursor: 0usize,
                cursor_max: if package_names@.len() > 0 {
                    (package_names@.len() - 1) as usize
                } else {
                    0usize
                },
                ticks_remaining: 0usize,
                tick_duration_i: 0usize,
                reset: true,
            }),
    {
        let len = package_names.len();
        MenuState::PackageSelect(package_names, MenuTicker::new(len))
    }

    /// The character-select screen with the back counter at rest.
    pub fn character_select() -> (r: MenuState)
        ensures
            r == MenuState::CharacterSelect(0usize),
    {
        MenuState::CharacterSelect(0)
    }
}

/// One player's character-select update for one frame of logical input:
/// cancel clears the pick, confirm picks the cursor's fighter, and the
/// stick or directional buttons drive the cursor.
pub open spec fn spec_select_step(
    sel: CharacterSelect,
    inp: PlayerInput,
    fighter_count: nat,
) -> CharacterSelect {
    let s1 = CharacterSelect { plugged_in: inp.plugged_in, ..sel };
    let s2 = if inp.b.press {
        CharacterSelect { selection: None, ..s1 }
    } else if inp.a.press && s1.ticker.cursor < fighter_count {
        CharacterSelect { selection: Some(s1.ticker.cursor), ..s1 }
    } else {
        s1
    };
    CharacterSelect {
        ticker: if inp.stick_y.value > STICK_MENU_THRESHOLD || inp.up.value {
            spec_ticker_up(s2.ticker)
        } else if inp.stick_y.value < -STICK_MENU_THRESHOLD || inp.down.value {
            spec_ticker_down(s2.ticker)
        } else {
            spec_ticker_reset(s2.ticker)
        },
        ..s2
    }
}

/// Whether some player's input asks the stage or package cursor to move up.
pub open spec fn spec_any_up(inputs: Seq<PlayerInput>) -> bool {
    exists|k: int|
        0 <= k < inputs.len() && ((#[trigger] inputs[k]).stick_y.value > STICK_MENU_THRESHOLD
            || inputs[k].up.value)
}

/// Whether some player's input asks the cursor to move down.
pub open spec fn spec_any_down(inputs: Seq<PlayerInput>) -> bool {
    exists|k: int|
        0 <= k < inputs.len() && ((#[trigger] inputs[k]).stick_y.value < -STICK_MENU_THRESHOLD
            || inputs[k].down.value)
}

/// Whether some player confirms this frame.
pub open spec fn spec_any_a_press(inputs: Seq<PlayerInput>) -> bool {
    exists|k: int| 0 <= k < inputs.len() && (#[trigger] inputs[k]).a.press
}

/// Whether some player cancels this frame.
pub open spec fn spec_any_b_press(inputs: Seq<PlayerInput>) -> bool {
    exists|k: int| 0 <= k < inputs.len() && (#[trigger] inputs[k]).b.press
}

/// Whether some player holds the cancel button this frame.
pub open spec fn spec_any_b_held(inputs: Seq<PlayerInput>) -> bool {
    exists|k: int| 0 <= k < inputs.len() && (#[trigger] inputs[k]).b.value
}

/// The menu around a match: which screen is active, every player's
/// character-select progress, the stage cursor, and the loaded package.
pub struct Menu {
    pub config: Config,
    pub state: MenuState,
    pub fighter_selections: Vec<CharacterSelect>,
    pub stage_ticker: Option<MenuTicker>,
    pub current_frame: usize,
    pub package: PackageHolder,
    pub back_counter_max: usize,
}

impl Menu {
    /// A menu on the given screen, over an optionally preloaded package.
    /// Screens that read the stage cursor cannot be the starting screen,
    /// since no stage list has been walked yet.
    pub fn new(package: Option<Package>, config: Config, state: MenuState) -> (r: Menu)
        requires
            match state {
                MenuState::PackageSelect(names, t) => wf_ticker(t) && (names@.len() == 0
                    || t.cursor_max < names@.len()),
                MenuState::StageSelect | MenuState::StartGame => false,
                _ => true,
            },
        ensures
            r.wf(),
            package is Some <==> r.package is Package,
            r.fighter_selections@.len() == 0,
            r.stage_ticker is None,
            r.current_frame == 0,
            r.back_counter_max == 90,
    {
        Menu {
            config,
            state,
            fighter_selections: Vec::new(),
            stage_ticker: None,
            current_frame: 0,
            package: PackageHolder::new(package),
            back_counter_max: 90,
        }
    }

    /// The active screen.
    pub fn state(&self) -> (r: &MenuState)
        ensures
            r == &self.state,
    {
        &self.state
    }

    /// Every player's character-select progress.
    pub fn fighter_selections(&self) -> (r: &Vec<CharacterSelect>)
        ensures
            r == &self.fighter_selections,
    {
        &self.fighter_selections
    }

    /// The loaded package's verification status.
    pub fn package_verify(&self) -> (r: Verify)
        ensures
            self.package is Package ==> r == self.package->Package_1,
            self.package is Missing ==> r == Verify::Absent,
    {
        self.package.verify()
    }

    /// Install a freshly loaded package and return to character select, as
    /// after a package was picked on the package-select screen. The loading
    /// itself reads the filesystem and happens outside.
    pub fn install_package(&mut self, package: Package, selection: String)
        requires
            old(self).wf(),
        ensures
            final(self).wf(),
            final(self).package is Package,
            final(self).fighter_selections@.len() == 0,
            final(self).stage_ticker is None,
            final(self).state == MenuState::CharacterSelect(0usize),
            final(self).config.current_package == Some(selection),
    {
        self.package = PackageHolder::new(Some(package));
        self.fighter_selections = Vec::new();
        self.stage_ticker = None;
        self.config.current_package = Some(selection);
        self.state = MenuState::character_select();
    }

    /// Every ticker the menu holds is well-formed, screens that read the
    /// stage cursor have one, and the back-out hold threshold leaves room
    /// to count.
    pub open spec fn wf(&self) -> bool {
        &&& forall|k: int|
            0 <= k < self.fighter_selections@.len() ==> wf_ticker(
                (#[trigger] self.fighter_selections@[k]).ticker,
            )
        &&& match self.stage_ticker {
            Some(t) => wf_ticker(t),
            None => true,
        }
        &&& match self.state {
            MenuState::PackageSelect(names, t) => wf_ticker(t) && (names@.len() == 0
                || t.cursor_max < names@.len()),
            MenuState::StageSelect | MenuState::StartGame => self.stage_ticker is Some,
            _ => true,
        }
        &&& self.back_counter_max < usize::MAX
    }

    /// Populate one character-select entry per polled player, when none
    /// exist yet.
    fn add_remove_fighter_selections(&mut self, player_inputs: &Vec<PlayerInput>)
        requires
            old(self).wf(),
            old(self).package is Package,
        ensures
            final(self).wf(),
            final(self).package == old(self).package,
            final(self).state == old(self).state,
            final(self).stage_ticker == old(self).stage_ticker,
            final(self).config == old(self).config,
            final(self).current_frame == old(self).current_frame,
            final(self).back_counter_max == old(self).back_counter_max,
            old(self).fighter_selections@.len() == 0 ==> {
                &&& final(self).fighter_selections@.len() == player_inputs@.len()
                &&& forall|k: int|
                    0 <= k < player_inputs@.len() ==> (
                    #[trigger] final(self).fighter_selections@[k]) == (CharacterSelect {
                        plugged_in: player_inputs@[k].plugged_in,
                        selection: None,
                        ticker: spec_new_ticker_for(
                            old(self).package->Package_0.fighters@.len() as usize,
                        ),
                    })
            },
            old(self).fighter_selections@.len() > 0 ==> final(self).fighter_selections
                == old(self).fighter_selections,
    {
        let cursor_max = self.package.get().fighters.len();
        if self.fighter_selections.len() == 0 {
            let n = player_inputs.len();
            let mut selections: Vec<CharacterSelect> = Vec::new();
            let mut k: usize = 0;
            while k < n
                invariant
                    k <= n,
                    n == player_inputs@.len(),
                    cursor_max == old(self).package->Package_0.fighters@.len(),
                    selections@.len() == k,
                    forall|j: int|
                        0 <= j < k ==> (#[trigger] selections@[j]) == (CharacterSelect {
                            plugged_in: player_inputs@[j].plugged_in,
                            selection: None,
                            ticker: spec_new_ticker_for(cursor_max),
                        }),
                    forall|j: int|
                        0 <= j < k ==> wf_ticker((#[trigger] selections@[j]).ticker),
                decreases n - k,
            {
                selections.push(
                    CharacterSelect {
                        plugged_in: player_inputs[k].plugged_in,
                        selection: None,
                        ticker: MenuTicker::new(cursor_max),
                    },
                );
                k = k + 1;
            }
            self.fighter_selections = selections;
        }
    }

    /// One character-select tick: update every player's pick and cursor
    /// from its own input; start opens stage select once any fighter
    /// exists, and holding cancel long enough backs out to package select
    /// (reported to the caller, which owns the package list).
    /// Returns true when the menu wants to back out to package select.
    pub fn step_fighter_select(
        &mut self,
        player_inputs: &Vec<PlayerInput>,
        input: &mut Input,
    ) -> (back_out: bool)
        requires
            old(self).wf(),
            old(input).wf(),
            old(self).package is Package,
            old(self).state is CharacterSelect,
        ensures
            final(input).wf(),
            final(input)@ == spec_after_start_poll(old(input)@),
            final(self).wf(),
            final(self).package == old(self).package,
            final(self).current_frame == old(self).current_frame,
            final(self).config == old(self).config,
            final(self).back_counter_max == old(self).back_counter_max,
            ({
                let n0 = old(self).fighter_selections@.len();
                n0 > 0 ==> {
                    &&& final(self).fighter_selections@.len() == n0
                    &&& forall|k: int|
                        0 <= k < n0 && k < player_inputs@.len() ==> (
                        #[trigger] final(self).fighter_selections@[k]) == spec_select_step(
                            old(self).fighter_selections@[k],
                            player_inputs@[k],
                            old(self).package->Package_0.fighters@.len(),
                        )
                }
            }),
            ({
                let pressed = spec_start_press(old(input)@);
                let fighters = old(self).package->Package_0.fighters@.len();
                let back = old(self).state->CharacterSelect_0;
                if pressed && fighters > 0 {
                    final(self).state is StageSelect && !back_out
                } else if spec_any_b_held(player_inputs@) {
                    if back > old(self).back_counter_max {
                        back_out
                    } else {
                        final(self).state == MenuState::CharacterSelect((back + 1) as usize)
                            && !back_out
                    }
                } else {
                    final(self).state == MenuState::CharacterSelect(0usize) && !back_out
                }
            }),
    {
        self.add_remove_fighter_selections(player_inputs);
        let fighters_len = self.package.get().fighters.len();
        let n = self.fighter_selections.len();
        let m = player_inputs.len();
        let mut k: usize = 0;
        while k < n
            invariant
                k <= n,
                n == self.fighter_selections@.len(),
                m == player_inputs@.len(),
                fighters_len == old(self).package->Package_0.fighters@.len(),
                self.package == old(self).package,
                self.state == old(self).state,
                self.stage_ticker == old(self).stage_ticker,
                self.config == old(self).config,
                self.current_frame == old(self).current_frame,
                self.back_counter_max == old(self).back_counter_max,
                forall|j: int|
                    0 <= j < self.fighter_selections@.len() ==> wf_ticker(
                        (#[trigger] self.fighter_selections@[j]).ticker,
                    ),
                forall|j: int|
                    k <= j < n ==> (#[trigger] self.fighter_selections@[j])
                        == views_at(old(self), player_inputs@, j),
                forall|j: int|
                    0 <= j < k && j < m ==> (#[trigger] self.fighter_selections@[j])
                        == spec_select_step(
                        views_at(old(self), player_inputs@, j),
                        player_inputs@[j],
                        fighters_len as nat,
                    ),
                forall|j: int|
                    0 <= j < k && j >= m ==> (#[trigger] self.fighter_selections@[j])
                        == views_at(old(self), player_inputs@, j),
            decreases n - k,
        {
            if k < m {
                let inp = player_inputs[k];
                let mut sel = self.fighter_selections[k];
                sel.plugged_in = inp.plugged_in;
                if inp.b.press {
                    sel.selection = None;
                } else if inp.a.press && sel.ticker.cursor < fighters_len {
                    sel.selection = Some(sel.ticker.cursor);
                }
                if inp.stick_y.value > STICK_MENU_THRESHOLD || inp.up.value {
                    sel.ticker.up();
                } else if inp.stick_y.value < -STICK_MENU_THRESHOLD || inp.down.value {
                    sel.ticker.down();
                } else {
                    sel.ticker.reset();
                }
                self.fighter_selections[k] = sel;
            }
            k = k + 1;
        }
        let pressed = input.start_pressed();
        if pressed && fighters_len > 0 {
            self.state = MenuState::StageSelect;
            if self.stage_ticker.is_none() {
                let stages = self.package.get().stages.len();
                self.stage_ticker = Some(MenuTicker::new(stages));
            }
            false
        } else if any_b_held(player_inputs) {
            let back_counter = match &self.state {
                MenuState::CharacterSelect(c) => *c,
                _ => unreached(),
            };
            if back_counter > self.back_counter_max {
                true
            } else {
                self.state = MenuState::CharacterSelect(back_counter + 1);
                false
            }
        } else {
            self.state = MenuState::CharacterSelect(0);
            false
        }
    }
}

/// What one menu tick asks the application to do.
pub enum MenuOutcome {
    /// Keep showing the menu.
    Idle,
    /// Start a match with this setup.
    Start(GameSetup),
    /// List the package names on disk and reopen package select with them.
    ListPackages,
    /// Open the named package from disk (and update it first when asked),
    /// then hand it back through `install_package`.
    LoadPackage(String, bool),
}

/// The controller slots that enter the match: every player who picked a
/// fighter and is plugged in, in slot order, among the first `k`.
pub open spec fn spec_setup_controllers(
    sels: Seq<CharacterSelect>,
    inputs: Seq<PlayerInput>,
    k: int,
) -> Seq<usize>
    decreases k,
{
    if k <= 0 {
        Seq::empty()
    } else {
        let rest = spec_setup_controllers(sels, inputs, k - 1);
        if sels[k - 1].selection is Some && k - 1 < inputs.len() && inputs[k - 1].plugged_in {
            rest.push((k - 1) as usize)
        } else {
            rest
        }
    }
}

/// The fighters picked by the first `k` players, in slot order.
pub open spec fn spec_setup_fighters(sels: Seq<CharacterSelect>, k: int) -> Seq<usize>
    decreases k,
{
    if k <= 0 {
        Seq::empty()
    } else {
        let rest = spec_setup_fighters(sels, k - 1);
        match sels[k - 1].selection {
            Some(f) => rest.push(f),
            None => rest,
        }
    }
}

/// Whether some player confirms with the secondary buttons this frame.
pub open spec fn spec_any_xy_press(inputs: Seq<PlayerInput>) -> bool {
    exists|k: int|
        0 <= k < inputs.len() && ((#[trigger] inputs[k]).x.press || inputs[k].y.press)
}

impl Menu {
    /// One stage-select tick: any player's stick or directional buttons move
    /// the shared stage cursor; confirm starts the match once a stage
    /// exists, cancel returns to character select.
    pub fn step_stage_select(&mut self, player_inputs: &Vec<PlayerInput>, input: &mut Input)
        requires
            old(self).wf(),
            old(input).wf(),
            old(self).package is Package,
            old(self).state is StageSelect,
        ensures
            final(input).wf(),
            final(input)@ == spec_after_start_poll(old(input)@),
            final(self).wf(),
            final(self).package == old(self).package,
            final(self).fighter_selections == old(self).fighter_selections,
            final(self).config == old(self).config,
            final(self).current_frame == old(self).current_frame,
            ({
                let t0 = old(self).stage_ticker->0;
                let t1 = if spec_any_up(player_inputs@) {
                    spec_ticker_up(t0)
                } else if spec_any_down(player_inputs@) {
                    spec_ticker_down(t0)
                } else {
                    spec_ticker_reset(t0)
                };
                final(self).stage_ticker == Some(t1)
            }),
            ({
                let pressed = spec_start_press(old(input)@);
                let stages = old(self).package->Package_0.stages@.len();
                if (pressed || spec_any_a_press(player_inputs@)) && stages > 0 {
                    final(self).state is StartGame
                } else if spec_any_b_press(player_inputs@) {
                    final(self).state == MenuState::CharacterSelect(0usize)
                } else {
                    final(self).state is StageSelect
                }
            }),
    {
        let mut ticker = match &self.stage_ticker {
            Some(t) => *t,
            None => unreached(),
        };
        if any_up(player_inputs) {
            ticker.up();
        } else if any_down(player_inputs) {
            ticker.down();
        } else {
            ticker.reset();
        }
        self.stage_ticker = Some(ticker);
        let pressed = input.start_pressed();
        if (pressed || any_a_press(player_inputs)) && self.package.get().stages.len() > 0 {
            self.state = MenuState::StartGame;
        } else if any_b_press(player_inputs) {
            self.state = MenuState::character_select();
        }
    }

    /// One results-screen tick: confirm returns to character select.
    pub fn step_results(&mut self, player_inputs: &Vec<PlayerInput>, input: &mut Input)
        requires
            old(self).wf(),
            old(input).wf(),
        ensures
            final(input).wf(),
            final(input)@ == spec_after_start_poll(old(input)@),
            final(self).wf(),
            final(self).package == old(self).package,
            final(self).fighter_selections == old(self).fighter_selections,
            final(self).stage_ticker == old(self).stage_ticker,
            final(self).current_frame == old(self).current_frame,
            if spec_start_press(old(input)@) || spec_any_a_press(player_inputs@) {
                final(self).state == MenuState::CharacterSelect(0usize)
            } else {
                final(self).state == old(self).state
            },
    {
        let pressed = input.start_pressed();
        if pressed || any_a_press(player_inputs) {
            self.state = MenuState::character_select();
        }
    }

    /// One package-select tick: move the cursor over the listed names and
    /// report which package to open — confirm asks for it updated first,
    /// the secondary buttons ask for it as it is on disk. Opening the
    /// archive is I/O done outside; the loaded package comes back through
    /// `install_package`.
    pub fn step_package_select(
        &mut self,
        player_inputs: &Vec<PlayerInput>,
        input: &mut Input,
    ) -> (r: Option<(String, bool)>)
        requires
            old(self).wf(),
            old(input).wf(),
            old(self).state is PackageSelect,
        ensures
            final(input).wf(),
            final(self).wf(),
            final(self).package == old(self).package,
            final(self).current_frame == old(self).current_frame,
            final(self).fighter_selections == old(self).fighter_selections,
            final(self).stage_ticker == old(self).stage_ticker,
            ({
                let names = old(self).state->PackageSelect_0;
                let t0 = old(self).state->PackageSelect_1;
                let t1 = if spec_any_up(player_inputs@) {
                    spec_ticker_up(t0)
                } else if spec_any_down(player_inputs@) {
                    spec_ticker_down(t0)
                } else {
                    spec_ticker_reset(t0)
                };
                &&& final(self).state is PackageSelect
                &&& final(self).state->PackageSelect_0@ == names@
                &&& final(self).state->PackageSelect_1 == t1
                &&& if names@.len() == 0 {
                    r is None && final(input)@ == old(input)@
                } else {
                    &&& final(input)@ == spec_after_start_poll(old(input)@)
                    &&& t1.cursor < names@.len()
                    &&& if spec_start_press(old(input)@) || spec_any_a_press(player_inputs@) {
                        r == Some((names@[t1.cursor as int], true))
                    } else if spec_any_xy_press(player_inputs@) {
                        r == Some((names@[t1.cursor as int], false))
                    } else {
                        r is None
                    }
                }
            }),
    {
        let (names, mut ticker) = match &self.state {
            MenuState::PackageSelect(names, ticker) => (clone_names(names), *ticker),
            _ => unreached(),
        };
        if any_up(player_inputs) {
            ticker.up();
        } else if any_down(player_inputs) {
            ticker.down();
        } else {
            ticker.reset();
        }
        let result: Option<(String, bool)> = if names.len() > 0 {
            proof {
                assert(ticker.cursor < names@.len());
            }
            let pressed = input.start_pressed();
            if pressed || any_a_press(player_inputs) {
                Some((names[ticker.cursor].clone(), true))
            } else if any_xy_press(player_inputs) {
                Some((names[ticker.cursor].clone(), false))
            } else {
                None
            }
        } else {
            None
        };
        self.state = MenuState::PackageSelect(names, ticker);
        result
    }

    /// Show the package-select screen over a freshly listed set of package
    /// names, as when backing out of character select; listing them reads
    /// the filesystem, which happens outside.
    pub fn open_package_select(&mut self, package_names: Vec<String>)
        requires
            old(self).wf(),
        ensures
            final(self).wf(),
            final(self).state is PackageSelect,
            final(self).state->PackageSelect_0@ == package_names@,
            final(self).package == old(self).package,
            final(self).current_frame == old(self).current_frame,
    {
        self.state = MenuState::package_select(package_names);
    }

    /// One menu tick: commit this tick's captured input as the menu's
    /// current frame, derive its logical view, run the active screen, and
    /// advance the frame counter. Reports what the application should do:
    /// nothing, open a package from disk, list packages for the select
    /// screen, or start a match — with the players that picked a fighter,
    /// their picks, and the stage under the cursor.
    pub fn step(&mut self, input: &mut Input) -> (r: MenuOutcome)
        requires
            old(self).wf(),
            old(input).wf(),
            old(self).package is Package,
            old(self).current_frame < usize::MAX,
            old(self).current_frame <= old(input)@.samples.len(),
        ensures
            final(self).wf(),
            final(input).wf(),
            final(self).package == old(self).package,
            final(self).current_frame == old(self).current_frame + 1,
            final(input)@.samples.len() == final(self).current_frame,
            r is Start <==> final(self).state is StartGame,
            r is Start ==> {
                let sels = final(self).fighter_selections@;
                let li = spec_logical(
                    spec_record(old(input)@, old(self).current_frame as int).samples,
                    old(input)@.count,
                    old(self).current_frame as int,
                );
                &&& r->Start_0.fighters@ == spec_setup_fighters(sels, sels.len() as int)
                &&& r->Start_0.controllers@ == spec_setup_controllers(
                    sels,
                    li,
                    sels.len() as int,
                )
                &&& final(self).stage_ticker == Some(
                    MenuTicker { cursor: r->Start_0.stage, ..final(self).stage_ticker->0 },
                )
                &&& r->Start_0.netplay == false
            },
    {
        input.game_update(self.current_frame);
        proof {
            input.lemma_wf();
        }
        let player_inputs = match input.players(self.current_frame) {
            Ok(v) => v,
            Err(_) => unreached(),
        };
        let mut outcome = MenuOutcome::Idle;
        if matches!(self.state, MenuState::PackageSelect(..)) {
            if let Some((name, update)) = self.step_package_select(&player_inputs, input) {
                outcome = MenuOutcome::LoadPackage(name, update);
            }
        } else if matches!(self.state, MenuState::CharacterSelect(_)) {
            let back_out = self.step_fighter_select(&player_inputs, input);
            if back_out {
                outcome = MenuOutcome::ListPackages;
            }
        } else if matches!(self.state, MenuState::StageSelect) {
            self.step_stage_select(&player_inputs, input);
        } else if matches!(self.state, MenuState::GameResults(..)) {
            self.step_results(&player_inputs, input);
        }
        self.current_frame = self.current_frame + 1;
        if matches!(self.state, MenuState::StartGame) {
            let sels_len = self.fighter_selections.len();
            let mut selected_fighters: Vec<usize> = Vec::new();
            let mut controllers: Vec<usize> = Vec::new();
            let mut k: usize = 0;
            while k < sels_len
                invariant
                    k <= sels_len,
                    sels_len == self.fighter_selections@.len(),
                    selected_fighters@ == spec_setup_fighters(
                        self.fighter_selections@,
                        k as int,
                    ),
                    controllers@ == spec_setup_controllers(
                        self.fighter_selections@,
                        player_inputs@,
                        k as int,
                    ),
                decreases sels_len - k,
            {
                let sel = self.fighter_selections[k];
                if let Some(f) = sel.selection {
                    selected_fighters.push(f);
                    if k < player_inputs.len() && player_inputs[k].plugged_in {
                        controllers.push(k);
                    }
                }
                k = k + 1;
            }
            let stage = match &self.stage_ticker {
                Some(t) => t.cursor,
                None => unreached(),
            };
            MenuOutcome::Start(
                GameSetup { controllers, fighters: selected_fighters, stage, netplay: false },
            )
        } else {
            outcome
        }
    }

    /// The read-only projection of the active screen for the renderer.
    pub fn render(&self) -> (r: RenderMenu)
        requires
            self.wf(),
        ensures
            self.package is Package ==> r.package_verify == self.package->Package_1,
            self.package is Missing ==> r.package_verify == Verify::Absent,
            self.state is CharacterSelect ==> {
                &&& r.state is CharacterSelect
                &&& r.state->CharacterSelect_0@ == self.fighter_selections@
                &&& r.state->CharacterSelect_1 == self.state->CharacterSelect_0
                &&& r.state->CharacterSelect_2 == self.back_counter_max
            },
            self.state is StageSelect ==> r.state == RenderMenuState::StageSelect(
                self.stage_ticker->0.cursor,
            ),
            self.state is GameResults ==> r.state is GameResults
                && r.state->GameResults_0@ == self.state->GameResults_0@,
            self.state is PackageSelect ==> {
                &&& r.state is PackageSelect
                &&& r.state->PackageSelect_0@ == self.state->PackageSelect_0@
                &&& r.state->PackageSelect_1 == self.state->PackageSelect_1.cursor
            },
            self.state is SetRules ==> r.state is SetRules,
            self.state is BrowsePackages ==> r.state is BrowsePackages,
            self.state is CreatePackage ==> r.state is CreatePackage,
            self.state is CreateFighter ==> r.state is CreateFighter,
            self.state is StartGame ==> r.state is StartGame,
    {
        let state = match &self.state {
            MenuState::PackageSelect(names, ticker) => RenderMenuState::PackageSelect(
                clone_names(names),
                ticker.cursor,
            ),
            MenuState::GameResults(results) => RenderMenuState::GameResults(copy_results(results)),
            MenuState::CharacterSelect(back_counter) => RenderMenuState::CharacterSelect(
                copy_selections(&self.fighter_selections),
                *back_counter,
                self.back_counter_max,
            ),
            MenuState::StageSelect => {
                let cursor = match &self.stage_ticker {
                    Some(t) => t.cursor,
                    None => unreached(),
                };
                RenderMenuState::StageSelect(cursor)
            },
            MenuState::SetRules => RenderMenuState::SetRules,
            MenuState::BrowsePackages => RenderMenuState::BrowsePackages,
            MenuState::CreatePackage => RenderMenuState::CreatePackage,
            MenuState::CreateFighter => RenderMenuState::CreateFighter,
            MenuState::StartGame => RenderMenuState::StartGame,
        };
        RenderMenu { state, package_verify: self.package.verify() }
    }

    /// Hand the package and configuration back when the menu is done with
    /// them, as when a match starts; callers must know a package is loaded.
    pub fn reclaim(self) -> (r: (Package, Config))
        requires
            self.package is Package,
        ensures
            r.0 == self.package->Package_0,
            r.1 == self.config,
    {
        match self.package {
            PackageHolder::Package(package, _) => (package, self.config),
            PackageHolder::Missing => unreached(),
        }
    }
}

/// What the renderer is shown of the menu each tick.
pub enum RenderMenuState {
    CharacterSelect(Vec<CharacterSelect>, usize, usize),
    StageSelect(usize),
    GameResults(Vec<GameResult>),
    SetRules,
    PackageSelect(Vec<String>, usize),
    BrowsePackages,
    CreatePackage,
    CreateFighter,
    StartGame,
}

/// The menu's whole frame for the renderer.
pub struct RenderMenu {
    pub state: RenderMenuState,
    pub package_verify: Verify,
}

/// An element-for-element copy of the character-select row.
fn copy_selections(v: &Vec<CharacterSelect>) -> (r: Vec<CharacterSelect>)
    ensures
        r@ == v@,
{
    let mut r: Vec<CharacterSelect> = Vec::new();
    let n = v.len();
    let mut i: usize = 0;
    while i < n
        invariant
            i <= n,
            n == v@.len(),
            r@.len() == i,
            forall|j: int| 0 <= j < i ==> r@[j] == v@[j],
        decreases n - i,
    {
        r.push(v[i]);
        i = i + 1;
    }
    proof {
        assert(r@ =~= v@);
    }
    r
}

/// An element-for-element copy of a results list.
fn copy_results(v: &Vec<GameResult>) -> (r: Vec<GameResult>)
    ensures
        r@ == v@,
{
    let mut r: Vec<GameResult> = Vec::new();
    let n = v.len();
    let mut i: usize = 0;
    while i < n
        invariant
            i <= n,
            n == v@.len(),
            r@.len() == i,
            forall|j: int| 0 <= j < i ==> r@[j] == v@[j],
        decreases n - i,
    {
        r.push(v[i]);
        i = i + 1;
    }
    proof {
        assert(r@ =~= v@);
    }
    r
}

/// The fresh ticker character select hands each new player.
pub open spec fn spec_new_ticker_for(item_count: usize) -> MenuTicker {
    MenuTicker {
        cursor: 0usize,
        cursor_max: if item_count > 0 {
            (item_count - 1) as usize
        } else {
            0usize
        },
        ticks_remaining: 0usize,
        tick_duration_i: 0usize,
        reset: true,
    }
}

/// The selection row after the populate pass, element by element.
pub open spec fn views_at(m: &Menu, inputs: Seq<PlayerInput>, j: int) -> CharacterSelect {
    if m.fighter_selections@.len() == 0 {
        CharacterSelect {
            plugged_in: inputs[j].plugged_in,
            selection: None,
            ticker: spec_new_ticker_for(m.package->Package_0.fighters@.len() as usize),
        }
    } else {
        m.fighter_selections@[j]
    }
}

/// An element-for-element copy of the package name list.
fn clone_names(v: &Vec<String>) -> (r: Vec<String>)
    ensures
        r@ == v@,
{
    let mut r: Vec<String> = Vec::new();
    let n = v.len();
    let mut i: usize = 0;
    while i < n
        invariant
            i <= n,
            n == v@.len(),
            r@.len() == i,
            forall|j: int| 0 <= j < i ==> r@[j] == v@[j],
        decreases n - i,
    {
        r.push(v[i].clone());
        i = i + 1;
    }
    proof {
        assert(r@ =~= v@);
    }
    r
}

/// Whether some player pushes the shared cursor up this frame.
fn any_up(inputs: &Vec<PlayerInput>) -> (r: bool)
    ensures
        r == spec_any_up(inputs@),
{
    let n = inputs.len();
    let mut k: usize = 0;
    while k < n
        invariant
            k <= n,
            n == inputs@.len(),
            forall|j: int|
                0 <= j < k ==> !((#[trigger] inputs@[j]).stick_y.value > STICK_MENU_THRESHOLD
                    || inputs@[j].up.value),
        decreases n - k,
    {
        if inputs[k].stick_y.value > STICK_MENU_THRESHOLD || inputs[k].up.value {
            return true;
        }
        k = k + 1;
    }
    false
}

/// Whether some player pushes the shared cursor down this frame.
fn any_down(inputs: &Vec<PlayerInput>) -> (r: bool)
    ensures
        r == spec_any_down(inputs@),
{
    let n = inputs.len();
    let mut k: usize = 0;
    while k < n
        invariant
            k <= n,
            n == inputs@.len(),
            forall|j: int|
                0 <= j < k ==> !((#[trigger] inputs@[j]).stick_y.value < -STICK_MENU_THRESHOLD
                    || inputs@[j].down.value),
        decreases n - k,
    {
        if inputs[k].stick_y.value < -STICK_MENU_THRESHOLD || inputs[k].down.value {
            return true;
        }
        k = k + 1;
    }
    false
}

/// Whether some player confirms this frame.
fn any_a_press(inputs: &Vec<PlayerInput>) -> (r: bool)
    ensures
        r == spec_any_a_press(inputs@),
{
    let n = inputs.len();
    let mut k: usize = 0;
    while k < n
        invariant
            k <= n,
            n == inputs@.len(),
            forall|j: int| 0 <= j < k ==> !(#[trigger] inputs@[j]).a.press,
        decreases n - k,
    {
        if inputs[k].a.press {
            return true;
        }
        k = k + 1;
    }
    false
}

/// Whether some player cancels this frame.
fn any_b_press(inputs: &Vec<PlayerInput>) -> (r: bool)
    ensures
        r == spec_any_b_press(inputs@),
{
    let n = inputs.len();
    let mut k: usize = 0;
    while k < n
        invariant
            k <= n,
            n == inputs@.len(),
            forall|j: int| 0 <= j < k ==> !(#[trigger] inputs@[j]).b.press,
        decreases n - k,
    {
        if inputs[k].b.press {
            return true;
        }
        k = k + 1;
    }
    false
}

/// Whether some player confirms with the secondary buttons this frame.
fn any_xy_press(inputs: &Vec<PlayerInput>) -> (r: bool)
    ensures
        r == spec_any_xy_press(inputs@),
{
    let n = inputs.len();
    let mut k: usize = 0;
    while k < n
        invariant
            k <= n,
            n == inputs@.len(),
            forall|j: int|
                0 <= j < k ==> !((#[trigger] inputs@[j]).x.press || inputs@[j].y.press),
        decreases n - k,
    {
        if inputs[k].x.press || inputs[k].y.press {
            return true;
        }
        k = k + 1;
    }
    false
}

/// Whether some player holds the cancel button.
fn any_b_held(inputs: &Vec<PlayerInput>) -> (r: bool)
    ensures
        r == spec_any_b_held(inputs@),
{
    let n = inputs.len();
    let mut k: usize = 0;
    while k < n
        invariant
            k <= n,
            n == inputs@.len(),
            forall|j: int| 0 <= j < k ==> !(#[trigger] inputs@[j]).b.value,
        decreases n - k,
    {
        if inputs[k].b.value {
            return true;
        }
        k = k + 1;
    }
    false
}

} // verus!
