use paddle_strike::audio::SoundType;
use paddle_strike::cursor::{CursorStep, UiCursorComp, UiCursorOptionComp, UiCursorOptionStyle};
use paddle_strike::cursor_movement::{UiCursorMovementComp, UiMainMenuCursorPos};
use paddle_strike::effects::{UiGlowingComp, UiGlowingStyle};
use paddle_strike::main_menu::{main_menu_cursor, BUTTON_1_PLAYER, BUTTON_ARCADE, BUTTON_EXIT, MAIN_MENU};

fn three_stop_cursor(at: usize) -> UiCursorComp {
    UiCursorComp::new(
        "menu".to_string(),
        at,
        vec![(0, 0), (0, -10), (0, -20)],
        vec!["a".to_string(), "b".to_string(), "c".to_string()],
        false,
    )
}

#[test]
fn next_pos_walks_the_menu_down() {
    let p = UiMainMenuCursorPos::Game1Player;
    assert_eq!(p.next_pos(true), UiMainMenuCursorPos::Game2Player2);
    assert_eq!(p.next_pos(true).next_pos(true), UiMainMenuCursorPos::GameCpuVCpu);
    assert_eq!(UiMainMenuCursorPos::GameCpuVCpu.next_pos(true), UiMainMenuCursorPos::GameExit);
    assert_eq!(UiMainMenuCursorPos::GameExit.next_pos(true), UiMainMenuCursorPos::Game1Player);
}

#[test]
fn next_pos_walks_the_menu_up() {
    assert_eq!(UiMainMenuCursorPos::Game1Player.next_pos(false), UiMainMenuCursorPos::GameExit);
    assert_eq!(UiMainMenuCursorPos::GameExit.next_pos(false), UiMainMenuCursorPos::GameCpuVCpu);
    assert_eq!(UiMainMenuCursorPos::GameCpuVCpu.next_pos(false), UiMainMenuCursorPos::Game2Player2);
    assert_eq!(UiMainMenuCursorPos::Game2Player2.next_pos(false), UiMainMenuCursorPos::Game1Player);
}

#[test]
fn next_pos_down_then_up_is_identity() {
    for p in [
        UiMainMenuCursorPos::Game1Player,
        UiMainMenuCursorPos::Game2Player2,
        UiMainMenuCursorPos::GameCpuVCpu,
        UiMainMenuCursorPos::GameExit,
    ] {
        assert_eq!(p.next_pos(true).next_pos(false), p);
        assert_eq!(p.next_pos(false).next_pos(true), p);
        assert_eq!(p.next_pos(true).next_pos(true).next_pos(true).next_pos(true), p);
    }
}

#[test]
fn local_y_of_each_entry() {
    assert_eq!(UiMainMenuCursorPos::Game1Player.get_local_y(), 0);
    assert_eq!(UiMainMenuCursorPos::Game2Player2.get_local_y(), -100);
    assert_eq!(UiMainMenuCursorPos::GameCpuVCpu.get_local_y(), -200);
    assert_eq!(UiMainMenuCursorPos::GameExit.get_local_y(), -350);
}

#[test]
fn cursor_movement_component() {
    let mut c = UiCursorMovementComp::default();
    assert_eq!(c.current_pos, UiMainMenuCursorPos::Game1Player);
    c.advance_pos(false);
    assert_eq!(c.current_pos, UiMainMenuCursorPos::GameExit);
    c.set_pos(UiMainMenuCursorPos::GameCpuVCpu);
    assert_eq!(c.current_pos, UiMainMenuCursorPos::GameCpuVCpu);
    c.advance_pos(true);
    assert_eq!(c.current_pos, UiMainMenuCursorPos::GameExit);
}

#[test]
fn advance_wraps_at_the_bottom() {
    let mut c = three_stop_cursor(2);
    c.advance_pos(true);
    assert_eq!(c.current_pos, 0);
    c.advance_pos(true);
    assert_eq!(c.current_pos, 1);
}

#[test]
fn advance_wraps_at_the_top() {
    let mut c = three_stop_cursor(0);
    c.advance_pos(false);
    assert_eq!(c.current_pos, 2);
    c.advance_pos(false);
    assert_eq!(c.current_pos, 1);
}

#[test]
fn single_position_cursor_stays() {
    let mut c = UiCursorComp::new("g".to_string(), 0, vec![(1, 2)], vec!["only".to_string()], false);
    c.advance_pos(true);
    assert_eq!(c.current_pos, 0);
    c.advance_pos(false);
    assert_eq!(c.current_pos, 0);
}

#[test]
fn set_pos_and_current_id() {
    let mut c = three_stop_cursor(0);
    c.set_pos(2);
    assert_eq!(c.current_id(), "c");
    assert_eq!(c.target_y(), -20);
}

#[test]
fn freeze_marks_cursor() {
    let mut c = three_stop_cursor(1);
    c.freeze();
    assert!(c.freezed);
    assert_eq!(c.current_pos, 1);
}

#[test]
fn first_step_places_cursor_silently() {
    let mut c = three_stop_cursor(1);
    assert!(c.start_up);
    let s = c.step(true);
    assert_eq!(s, CursorStep { move_to_y: Some(-10), sound: None });
    assert!(!c.start_up);
}

#[test]
fn step_at_target_does_nothing() {
    let mut c = three_stop_cursor(1);
    c.step(false);
    let s = c.step(true);
    assert_eq!(s, CursorStep { move_to_y: None, sound: None });
}

#[test]
fn step_after_move_ticks() {
    let mut c = three_stop_cursor(0);
    c.step(true);
    c.advance_pos(true);
    let s = c.step(false);
    assert_eq!(s, CursorStep { move_to_y: Some(-10), sound: Some(SoundType::CursorTick) });
}

#[test]
fn highlight_lights_only_the_current_option() {
    let c = three_stop_cursor(1);
    let b = UiCursorOptionComp::new("menu".to_string(), "b".to_string(), UiCursorOptionStyle::Glowing);
    let a = UiCursorOptionComp::new("menu".to_string(), "a".to_string(), UiCursorOptionStyle::default());
    let mut gb = UiGlowingComp::new(false, UiGlowingStyle::Lightening);
    let mut ga = UiGlowingComp::new(true, UiGlowingStyle::Lightening);
    b.highlight(&c, &mut gb);
    a.highlight(&c, &mut ga);
    assert!(gb.is_glowing);
    assert!(!ga.is_glowing);
    assert_eq!(ga.style, UiGlowingStyle::Lightening);
}

#[test]
fn highlight_ignores_other_groups() {
    let c = three_stop_cursor(1);
    let other = UiCursorOptionComp::new("pause".to_string(), "b".to_string(), UiCursorOptionStyle::Glowing);
    let mut g = UiGlowingComp::new(false, UiGlowingStyle::TwoWays);
    other.highlight(&c, &mut g);
    assert!(!g.is_glowing);
}

#[test]
fn main_menu_cursor_layout() {
    let c = main_menu_cursor();
    assert_eq!(c.group, MAIN_MENU);
    assert_eq!(c.current_pos, 0);
    assert_eq!(c.pos_list, vec![(-160, 0), (-160, -80), (-160, -160), (-160, -240), (-160, -360)]);
    assert_eq!(c.pos_id_list.len(), 5);
    assert_eq!(c.pos_id_list[0], BUTTON_ARCADE);
    assert_eq!(c.pos_id_list[1], BUTTON_1_PLAYER);
    assert_eq!(c.pos_id_list[4], BUTTON_EXIT);
    assert!(c.start_up);
    assert!(!c.freezed);
}
