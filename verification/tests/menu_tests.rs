use pf_sandbox::input::{ControllerInput, Input};
use pf_sandbox::menu::{
    Config, Menu, MenuOutcome, MenuState, MenuTicker, PackageHolder, RenderMenuState,
    STICK_MENU_THRESHOLD,
};
use pf_sandbox::package::{Fighter, Package, Rules, Verify};
use pf_sandbox::stage::Stage;

fn base_package() -> Package {
    Package {
        fighters: vec![
            Fighter { name: "alpha".to_string(), attack_action: 3 },
            Fighter { name: "beta".to_string(), attack_action: 4 },
        ],
        stages: vec![Stage::base()],
        rules: Rules { stock_count: 4, time_limit: None },
    }
}

fn plugged() -> ControllerInput {
    let mut c = ControllerInput::empty();
    c.plugged_in = true;
    c
}

fn fresh_menu() -> Menu {
    Menu::new(Some(base_package()), Config { current_package: None }, MenuState::character_select())
}

#[test]
fn ticker_fires_immediately_from_rest() {
    let mut t = MenuTicker::new(3);
    assert_eq!(t.cursor, 0);
    assert!(t.tick());
    // the next repeat waits out the first delay
    for _ in 0..19 {
        assert!(!t.tick());
    }
    assert!(t.tick());
}

#[test]
fn ticker_wraps_both_ways() {
    let mut t = MenuTicker::new(3);
    t.up();
    assert_eq!(t.cursor, 2);
    t.reset();
    t.down();
    assert_eq!(t.cursor, 0);
    t.reset();
    t.down();
    assert_eq!(t.cursor, 1);
}

#[test]
fn ticker_on_empty_list_stays_put() {
    let mut t = MenuTicker::new(0);
    t.up();
    assert_eq!(t.cursor, 0);
    t.reset();
    t.down();
    assert_eq!(t.cursor, 0);
}

#[test]
fn package_holder_round_trip() {
    let holder = PackageHolder::new(Some(base_package()));
    assert_eq!(holder.verify(), Verify::Valid);
    assert_eq!(holder.get().fighters.len(), 2);
    let empty = PackageHolder::new(None);
    assert_eq!(empty.verify(), Verify::Absent);
}

#[test]
fn menu_states() {
    let names = vec!["base".to_string(), "extra".to_string()];
    let state = MenuState::package_select(names);
    assert!(matches!(state, MenuState::PackageSelect(_, _)));
    assert!(matches!(MenuState::character_select(), MenuState::CharacterSelect(0)));
}

#[test]
fn fighter_select_picks_on_confirm() {
    let mut menu = fresh_menu();
    let mut input = Input::new(2);
    // first tick populates the selections; second presses confirm on
    // player 0 (fresh edge: a goes from up to down)
    input.update(&vec![plugged(), plugged()]);
    menu.step(&mut input);
    let mut confirm = plugged();
    confirm.a = true;
    input.update(&vec![confirm, plugged()]);
    menu.step(&mut input);
    let selections = menu.fighter_selections();
    assert_eq!(selections.len(), 2);
    assert_eq!(selections[0].selection, Some(0));
    assert_eq!(selections[1].selection, None);
}

#[test]
fn fighter_select_cursor_moves_with_stick() {
    let mut menu = fresh_menu();
    let mut input = Input::new(1);
    input.update(&vec![plugged()]);
    menu.step(&mut input);
    let mut up = plugged();
    up.stick_y = STICK_MENU_THRESHOLD + 1;
    input.update(&vec![up]);
    menu.step(&mut input);
    // two fighters: moving up from the first wraps to the last
    assert_eq!(menu.fighter_selections()[0].ticker.cursor, 1);
}

#[test]
fn cancel_clears_selection() {
    let mut menu = fresh_menu();
    let mut input = Input::new(1);
    input.update(&vec![plugged()]);
    menu.step(&mut input);
    let mut confirm = plugged();
    confirm.a = true;
    input.update(&vec![confirm]);
    menu.step(&mut input);
    assert_eq!(menu.fighter_selections()[0].selection, Some(0));
    let mut cancel = plugged();
    cancel.b = true;
    input.update(&vec![cancel]);
    menu.step(&mut input);
    assert_eq!(menu.fighter_selections()[0].selection, None);
}

#[test]
fn start_walks_to_stage_select_and_match_start() {
    let mut menu = fresh_menu();
    let mut input = Input::new(2);
    // populate selections, confirm player 0's pick
    input.update(&vec![plugged(), plugged()]);
    assert!(matches!(menu.step(&mut input), MenuOutcome::Idle));
    let mut confirm = plugged();
    confirm.a = true;
    input.update(&vec![confirm, plugged()]);
    menu.step(&mut input);
    // start opens stage select
    let mut held = plugged();
    held.start = true;
    input.update(&vec![held, plugged()]);
    menu.step(&mut input);
    assert!(matches!(menu.state, MenuState::StageSelect));
    // release start, then confirm the stage with a fresh press
    input.update(&vec![plugged(), plugged()]);
    menu.step(&mut input);
    input.update(&vec![held, plugged()]);
    let outcome = menu.step(&mut input);
    match outcome {
        MenuOutcome::Start(setup) => {
            assert_eq!(setup.controllers, vec![0]);
            assert_eq!(setup.fighters, vec![0]);
            assert_eq!(setup.stage, 0);
            assert!(!setup.netplay);
        },
        _ => panic!("expected a match start"),
    }
}

#[test]
fn package_select_reports_the_chosen_name() {
    let names = vec!["base".to_string(), "extra".to_string()];
    let mut menu = Menu::new(
        Some(base_package()),
        Config { current_package: None },
        MenuState::package_select(names),
    );
    let mut input = Input::new(1);
    let mut held = plugged();
    held.start = true;
    input.update(&vec![held]);
    let outcome = menu.step(&mut input);
    match outcome {
        MenuOutcome::LoadPackage(name, update) => {
            assert_eq!(name, "base".to_string());
            assert!(update);
        },
        _ => panic!("expected a package load request"),
    }
}

#[test]
fn install_package_returns_to_character_select() {
    let mut menu = Menu::new(
        Some(base_package()),
        Config { current_package: None },
        MenuState::package_select(vec!["base".to_string()]),
    );
    menu.install_package(base_package(), "base".to_string());
    assert!(matches!(menu.state, MenuState::CharacterSelect(0)));
    assert_eq!(menu.config.current_package, Some("base".to_string()));
    assert_eq!(menu.package_verify(), Verify::Valid);
}

#[test]
fn holding_cancel_backs_out_to_package_select() {
    let mut menu = fresh_menu();
    let mut input = Input::new(1);
    input.update(&vec![plugged()]);
    menu.step(&mut input);
    let mut cancel_held = plugged();
    cancel_held.b = true;
    // the back counter must exceed its threshold before the menu asks for
    // the package list
    let mut asked = false;
    for _ in 0..=91 {
        input.update(&vec![cancel_held]);
        if matches!(menu.step(&mut input), MenuOutcome::ListPackages) {
            asked = true;
            break;
        }
    }
    assert!(asked);
    menu.open_package_select(vec!["base".to_string()]);
    assert!(matches!(menu.state, MenuState::PackageSelect(_, _)));
}

#[test]
fn render_projects_the_active_screen() {
    let mut menu = fresh_menu();
    let mut input = Input::new(1);
    input.update(&vec![plugged()]);
    menu.step(&mut input);
    let render = menu.render();
    assert_eq!(render.package_verify, Verify::Valid);
    match render.state {
        RenderMenuState::CharacterSelect(selections, back, back_max) => {
            assert_eq!(selections.len(), 1);
            assert_eq!(back, 0);
            assert_eq!(back_max, 90);
        },
        _ => panic!("expected the character-select screen"),
    }
}

#[test]
fn reclaim_hands_the_package_back() {
    let menu = fresh_menu();
    let (package, config) = menu.reclaim();
    assert_eq!(package.fighters.len(), 2);
    assert_eq!(config.current_package, None);
}
