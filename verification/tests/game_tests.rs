use pf_sandbox::game::{ConfigError, Game, GameState, OsInput};
use pf_sandbox::input::{ControllerInput, Input};
use pf_sandbox::package::{Fighter, Package, Rules};
use pf_sandbox::player::Player;
use pf_sandbox::stage::Stage;

const ATTACK: u64 = 7;

fn base_package() -> Package {
    Package {
        fighters: vec![
            Fighter { name: "alpha".to_string(), attack_action: ATTACK },
            Fighter { name: "beta".to_string(), attack_action: ATTACK + 1 },
        ],
        stages: vec![Stage::base()],
        rules: Rules { stock_count: 4, time_limit: None },
    }
}

fn plugged() -> ControllerInput {
    let mut c = ControllerInput::empty();
    c.plugged_in = true;
    c
}

fn two_player_game(package: &Package) -> (Game, Input) {
    let game = Game::new(package, vec![0, 1], 0, false, vec![0, 1]).unwrap();
    let input = Input::new(2);
    (game, input)
}

fn tick(game: &mut Game, package: &Package, input: &mut Input, rows: Vec<ControllerInput>, os: OsInput) {
    input.update(&rows);
    game.step(package, input, &os);
}

#[test]
fn setup_rejects_configuration_faults() {
    let package = base_package();
    assert!(matches!(
        Game::new(&package, vec![0], 0, false, vec![]),
        Err(ConfigError::NoControllers)
    ));
    assert!(matches!(
        Game::new(&package, vec![], 0, false, vec![0]),
        Err(ConfigError::NoFighters)
    ));
    assert!(matches!(
        Game::new(&package, vec![0], 3, false, vec![0]),
        Err(ConfigError::StageOutOfRange)
    ));
    assert!(matches!(
        Game::new(&package, vec![9], 0, false, vec![0]),
        Err(ConfigError::FighterOutOfRange)
    ));
    let mut empty_spawns = base_package();
    empty_spawns.stages[0].spawn_points.clear();
    assert!(matches!(
        Game::new(&empty_spawns, vec![0], 0, false, vec![0]),
        Err(ConfigError::NoSpawnPoints)
    ));
}

#[test]
fn setup_wraps_short_fighter_selections() {
    let package = base_package();
    let game = Game::new(&package, vec![1], 0, false, vec![0, 1, 2]).unwrap();
    // three players all wrap onto the single selected fighter
    assert_eq!(game.current_players().len(), 3);
    assert!(matches!(game.state(), GameState::Local));
    assert_eq!(game.current_frame(), 0);
    assert_eq!(game.history_len(), 0);
}

#[test]
fn live_ticks_keep_histories_aligned() {
    let package = base_package();
    let (mut game, mut input) = two_player_game(&package);
    for f in 0..5 {
        tick(&mut game, &package, &mut input, vec![plugged(), plugged()], OsInput::none());
        assert_eq!(game.history_len(), f + 1);
        assert_eq!(input.last_frame(), Some(f));
        assert_eq!(game.current_frame(), f + 1);
    }
}

#[test]
fn determinism_two_runs_identical() {
    let package = base_package();
    let mut script: Vec<Vec<ControllerInput>> = Vec::new();
    for f in 0..8 {
        let mut a = plugged();
        let mut b = plugged();
        a.stick_x = (f as i16) * 7 - 20;
        a.a = f % 3 == 1;
        b.stick_y = 15 - (f as i16) * 4;
        b.b = f % 2 == 0;
        script.push(vec![a, b]);
    }
    let run = |script: &Vec<Vec<ControllerInput>>| -> Vec<Vec<Player>> {
        let (mut game, mut input) = two_player_game(&package);
        for rows in script {
            tick(&mut game, &package, &mut input, rows.clone(), OsInput::none());
        }
        (0..game.history_len()).map(|f| game.snapshot(f).unwrap().clone()).collect()
    };
    let first = run(&script);
    let second = run(&script);
    assert_eq!(first, second);
}

#[test]
fn scenario_press_affects_only_its_frame_onward() {
    // two entities, no time limit; five frames where frame 2 presses the
    // attack button on player 0
    let package = base_package();
    let (mut game, mut input) = two_player_game(&package);
    for f in 0..5 {
        let mut a = plugged();
        a.a = f == 2;
        tick(&mut game, &package, &mut input, vec![a, plugged()], OsInput::none());
    }
    let s1 = game.snapshot(1).unwrap().clone();
    let s2 = game.snapshot(2).unwrap().clone();
    // the press changes exactly player 0's action (entered at its first
    // frame); positions are untouched under a neutral stick
    assert_eq!(s2[0].action, ATTACK);
    assert_eq!(s2[0].frame, 0);
    assert_ne!(s1[0].action, ATTACK);
    assert_eq!(s2[0].bps_x, s1[0].bps_x);
    assert_eq!(s2[0].bps_y, s1[0].bps_y);
    assert_eq!(s2[0].stocks, s1[0].stocks);
    assert_eq!(s2[0].spawn, s1[0].spawn);
    // player 1 advances exactly as it would without the press
    assert_eq!(s2[1].action, s1[1].action);
    assert_eq!(s2[1].frame, s1[1].frame + 1);
    // the frames before the press are unaffected by the future input
    let (mut short_game, mut short_input) = two_player_game(&package);
    for _ in 0..2 {
        tick(&mut short_game, &package, &mut short_input, vec![plugged(), plugged()], OsInput::none());
    }
    assert_eq!(short_game.snapshot(0).unwrap(), game.snapshot(0).unwrap());
    assert_eq!(short_game.snapshot(1).unwrap(), game.snapshot(1).unwrap());
}

#[test]
fn pause_freezes_the_frame() {
    let package = base_package();
    let (mut game, mut input) = two_player_game(&package);
    for _ in 0..3 {
        tick(&mut game, &package, &mut input, vec![plugged(), plugged()], OsInput::none());
    }
    let mut pause = OsInput::none();
    pause.key_space = true;
    tick(&mut game, &package, &mut input, vec![plugged(), plugged()], pause);
    assert!(matches!(game.state(), GameState::Paused));
    // the cursor sits on the frame just simulated and the live entities
    // equal its snapshot
    assert_eq!(game.current_frame(), 3);
    assert_eq!(game.history_len(), 4);
    assert_eq!(game.current_players(), game.snapshot(3).unwrap());
}

#[test]
fn backward_then_forward_round_trip() {
    let package = base_package();
    let (mut game, mut input) = two_player_game(&package);
    for f in 0..6 {
        let mut a = plugged();
        a.stick_x = (f as i16) * 9;
        a.a = f == 3;
        tick(&mut game, &package, &mut input, vec![a, plugged()], OsInput::none());
    }
    let mut pause = OsInput::none();
    pause.key_space = true;
    tick(&mut game, &package, &mut input, vec![plugged(), plugged()], pause);
    let n = game.current_frame();
    let expected = game.snapshot(n).unwrap().clone();
    let mut back = OsInput::none();
    back.key_j = true;
    let mut fwd = OsInput::none();
    fwd.key_k = true;
    for _ in 0..3 {
        tick(&mut game, &package, &mut input, vec![plugged(), plugged()], back);
    }
    assert_eq!(game.current_frame(), n - 3);
    assert_eq!(game.current_players(), game.snapshot(n - 3).unwrap());
    for _ in 0..3 {
        tick(&mut game, &package, &mut input, vec![plugged(), plugged()], fwd);
    }
    assert_eq!(game.current_frame(), n);
    assert_eq!(game.current_players(), &expected);
    assert!(matches!(game.state(), GameState::Paused));
}

#[test]
fn bookmark_jump_restores_snapshot() {
    let package = base_package();
    let (mut game, mut input) = two_player_game(&package);
    for f in 0..6 {
        let mut a = plugged();
        a.stick_y = 10 + f as i16;
        tick(&mut game, &package, &mut input, vec![a, plugged()], OsInput::none());
    }
    let mut pause = OsInput::none();
    pause.key_space = true;
    tick(&mut game, &package, &mut input, vec![plugged(), plugged()], pause);
    // walk back two frames, bookmark, walk back two more, then jump
    let mut back = OsInput::none();
    back.key_j = true;
    tick(&mut game, &package, &mut input, vec![plugged(), plugged()], back);
    tick(&mut game, &package, &mut input, vec![plugged(), plugged()], back);
    let marked = game.current_frame();
    let mut mark = OsInput::none();
    mark.key_u = true;
    tick(&mut game, &package, &mut input, vec![plugged(), plugged()], mark);
    assert_eq!(game.saved_frame(), marked);
    tick(&mut game, &package, &mut input, vec![plugged(), plugged()], back);
    tick(&mut game, &package, &mut input, vec![plugged(), plugged()], back);
    let mut jump = OsInput::none();
    jump.key_i = true;
    tick(&mut game, &package, &mut input, vec![plugged(), plugged()], jump);
    assert_eq!(game.current_frame(), marked);
    assert_eq!(game.current_players(), game.snapshot(marked).unwrap());
}

#[test]
fn resume_truncates_the_stale_future() {
    let package = base_package();
    let (mut game, mut input) = two_player_game(&package);
    for _ in 0..6 {
        tick(&mut game, &package, &mut input, vec![plugged(), plugged()], OsInput::none());
    }
    let mut pause = OsInput::none();
    pause.key_space = true;
    tick(&mut game, &package, &mut input, vec![plugged(), plugged()], pause);
    let mut back = OsInput::none();
    back.key_j = true;
    for _ in 0..4 {
        tick(&mut game, &package, &mut input, vec![plugged(), plugged()], back);
    }
    let cursor = game.current_frame();
    // resume live play: start pressed while paused
    let mut held = plugged();
    held.start = true;
    tick(&mut game, &package, &mut input, vec![held, plugged()], OsInput::none());
    assert!(matches!(game.state(), GameState::Local));
    // one live tick re-records the frame after the cursor and drops the rest
    tick(&mut game, &package, &mut input, vec![plugged(), plugged()], OsInput::none());
    assert_eq!(game.history_len(), cursor + 2);
    assert_eq!(input.last_frame(), Some(cursor + 1));
}

#[test]
fn time_limit_concludes_the_match() {
    let mut package = base_package();
    package.rules.time_limit = Some(0);
    let (mut game, mut input) = two_player_game(&package);
    for _ in 0..=60 {
        tick(&mut game, &package, &mut input, vec![plugged(), plugged()], OsInput::none());
    }
    assert!(matches!(game.state(), GameState::Results));
    let frozen = game.current_frame();
    tick(&mut game, &package, &mut input, vec![plugged(), plugged()], OsInput::none());
    assert!(matches!(game.state(), GameState::Results));
    assert_eq!(game.current_frame(), frozen);
}

#[test]
fn debug_overlays_toggle_while_paused() {
    let package = base_package();
    let (mut game, mut input) = two_player_game(&package);
    tick(&mut game, &package, &mut input, vec![plugged(), plugged()], OsInput::none());
    let mut pause = OsInput::none();
    pause.key_space = true;
    tick(&mut game, &package, &mut input, vec![plugged(), plugged()], pause);
    assert!(!game.debug_player(0).unwrap().physics);
    // select player 0's fighter and toggle the physics overlay in one tick
    let mut os = OsInput::none();
    os.key_1 = true;
    os.key_f1 = true;
    tick(&mut game, &package, &mut input, vec![plugged(), plugged()], os);
    assert!(game.debug_player(0).unwrap().physics);
    assert!(!game.debug_player(1).unwrap().physics);
}

#[test]
fn render_projects_every_entity() {
    let package = base_package();
    let (mut game, mut input) = two_player_game(&package);
    tick(&mut game, &package, &mut input, vec![plugged(), plugged()], OsInput::none());
    let render = game.render();
    assert!(matches!(render.state, GameState::Local));
    assert_eq!(render.entities.len(), 2);
}

#[test]
fn players_spawn_at_stage_spawn_points() {
    let package = base_package();
    let (game, _input) = two_player_game(&package);
    let players = game.current_players();
    assert_eq!(players[0].bps_x, -500);
    assert_eq!(players[0].bps_y, 500);
    assert_eq!(players[1].bps_x, 500);
    assert_eq!(players[1].bps_y, 500);
    assert_eq!(players[0].stocks, 4);
}

#[test]
fn stick_moves_are_clamped_to_stage_bounds() {
    let package = base_package();
    let (mut game, mut input) = two_player_game(&package);
    // hold the stick hard right for many frames: the player stops at the
    // stage's higher bound instead of leaving it
    for _ in 0..100 {
        let mut a = plugged();
        a.stick_x = 80;
        tick(&mut game, &package, &mut input, vec![a, plugged()], OsInput::none());
    }
    assert_eq!(game.current_players()[0].bps_x, 2000);
}

#[test]
fn setup_rejects_unusable_stage_bounds() {
    let mut package = base_package();
    package.stages[0].lower_bounds.x = 100;
    package.stages[0].higher_bounds.x = -100;
    assert!(matches!(
        Game::new(&package, vec![0], 0, false, vec![0]),
        Err(ConfigError::BadStageBounds)
    ));
}

#[test]
fn replay_clamps_at_history_edges() {
    let package = base_package();
    let (mut game, mut input) = two_player_game(&package);
    for _ in 0..2 {
        tick(&mut game, &package, &mut input, vec![plugged(), plugged()], OsInput::none());
    }
    let mut pause = OsInput::none();
    pause.key_space = true;
    tick(&mut game, &package, &mut input, vec![plugged(), plugged()], pause);
    // walk back past frame 0: the match pauses there instead of failing
    let mut back = OsInput::none();
    back.key_h = true;
    tick(&mut game, &package, &mut input, vec![plugged(), plugged()], back);
    assert!(matches!(game.state(), GameState::ReplayBackwards));
    for _ in 0..5 {
        tick(&mut game, &package, &mut input, vec![plugged(), plugged()], OsInput::none());
    }
    assert!(matches!(game.state(), GameState::Paused));
    assert_eq!(game.current_frame(), 0);
    assert_eq!(game.current_players(), game.snapshot(0).unwrap());
    // walk forward past the last recorded frame: the match pauses again
    let mut fwd = OsInput::none();
    fwd.key_l = true;
    tick(&mut game, &package, &mut input, vec![plugged(), plugged()], fwd);
    for _ in 0..6 {
        tick(&mut game, &package, &mut input, vec![plugged(), plugged()], OsInput::none());
    }
    assert!(matches!(game.state(), GameState::Paused));
    assert_eq!(game.current_frame(), game.history_len() - 1);
}

#[test]
fn single_step_while_paused() {
    let package = base_package();
    let (mut game, mut input) = two_player_game(&package);
    for _ in 0..3 {
        tick(&mut game, &package, &mut input, vec![plugged(), plugged()], OsInput::none());
    }
    let mut pause = OsInput::none();
    pause.key_space = true;
    tick(&mut game, &package, &mut input, vec![plugged(), plugged()], pause);
    let frozen = game.current_frame();
    // space while paused simulates exactly one more frame and stays paused
    tick(&mut game, &package, &mut input, vec![plugged(), plugged()], pause);
    assert!(matches!(game.state(), GameState::Paused));
    assert_eq!(game.current_frame(), frozen + 1);
    assert_eq!(game.history_len(), frozen + 2);
    assert_eq!(game.current_players(), game.snapshot(frozen + 1).unwrap());
}
