use bigrace::game::gamestate::{GameMode, GameState};
use bigrace::game::sound::MusicParams;
use bigrace::gui::button::{Button, ElementState, Ui};
use bigrace::input::MenuInput;
use bigrace::math::Rect;

fn menu(names: [&str; 3]) -> Ui {
    Ui::from(vec![
        Button::new(Rect::new(0, 0, 600, 100), names[0].to_string()),
        Button::new(Rect::new(0, 150, 600, 100), names[1].to_string()),
        Button::new(Rect::new(0, 300, 600, 100), names[2].to_string()),
    ])
}

fn input(up: bool, down: bool, click: bool) -> MenuInput {
    MenuInput { up, down, click, ..MenuInput::new() }
}

fn states(ui: &Ui) -> Vec<ElementState> {
    ui.widgets.iter().map(|w| w.state).collect()
}

#[test]
fn new_button_is_normal() {
    let button = Button::new(Rect::new(1, 2, 3, 4), "Play".to_string());
    assert_eq!(button.state, ElementState::Normal);
    assert_eq!(button.name, "Play");
    assert_eq!(button.dest, Rect::new(1, 2, 3, 4));
    assert!(!button.is_clicked());
}

#[test]
fn button_is_clicked_only_in_that_state() {
    let mut button = Button::new(Rect::new(0, 0, 1, 1), "Quit".to_string());
    button.state = ElementState::Selected;
    assert!(!button.is_clicked());
    button.state = ElementState::Clicked;
    assert!(button.is_clicked());
}

#[test]
fn back_button_sits_in_the_lower_left_corner() {
    let button = Button::back_button(1_080_000_000);
    assert_eq!(button.name, "Back");
    assert_eq!(button.state, ElementState::Normal);
    assert_eq!(button.dest, Rect::new(10_000_000, 1_030_000_000, 180_000_000, 40_000_000));
    let button = Button::back_button(i64::MIN);
    assert_eq!(button.dest.y, i64::MIN);
}

#[test]
fn ui_starts_with_the_cursor_on_the_first_button() {
    let ui = menu(["Play", "Options", "Quit"]);
    assert_eq!(ui.cursor, 0);
    assert_eq!(ui.widgets.len(), 3);
    let ui = Ui::default();
    assert_eq!(ui.cursor, 0);
    assert!(ui.widgets.is_empty());
}

#[test]
fn build_replaces_the_buttons() {
    let mut ui = menu(["Play", "Options", "Quit"]);
    ui.cursor = 2;
    ui.build(vec![Button::new(Rect::new(0, 0, 1, 1), "Back".to_string())]);
    assert_eq!(ui.widgets.len(), 1);
    assert_eq!(ui.widgets[0].name, "Back");
    assert_eq!(ui.cursor, 2);
}

#[test]
fn update_selects_the_button_under_the_cursor() {
    let mut ui = menu(["Play", "Options", "Quit"]);
    ui.update(input(false, false, false));
    assert_eq!(ui.cursor, 0);
    assert_eq!(states(&ui), vec![ElementState::Selected, ElementState::Normal, ElementState::Normal]);
}

#[test]
fn cursor_walks_down_and_round() {
    let mut ui = menu(["Play", "Options", "Quit"]);
    ui.update(input(false, true, false));
    assert_eq!(ui.cursor, 1);
    assert_eq!(states(&ui), vec![ElementState::Normal, ElementState::Selected, ElementState::Normal]);
    ui.update(input(false, true, false));
    assert_eq!(ui.cursor, 2);
    ui.update(input(false, true, false));
    assert_eq!(ui.cursor, 0);
    assert_eq!(states(&ui), vec![ElementState::Selected, ElementState::Normal, ElementState::Normal]);
}

#[test]
fn cursor_walks_up_and_round() {
    let mut ui = menu(["Play", "Options", "Quit"]);
    ui.update(input(true, false, false));
    assert_eq!(ui.cursor, 2);
    assert_eq!(states(&ui), vec![ElementState::Normal, ElementState::Normal, ElementState::Selected]);
    ui.update(input(true, false, false));
    assert_eq!(ui.cursor, 1);
}

#[test]
fn up_wins_over_down() {
    let mut ui = menu(["Play", "Options", "Quit"]);
    ui.cursor = 1;
    ui.update(input(true, true, false));
    assert_eq!(ui.cursor, 0);
}

#[test]
fn click_marks_the_button_under_the_cursor() {
    let mut ui = menu(["Play", "Options", "Quit"]);
    ui.update(input(false, true, true));
    assert_eq!(states(&ui), vec![ElementState::Normal, ElementState::Clicked, ElementState::Normal]);
    assert!(ui.widgets[1].is_clicked());
    ui.update(input(false, false, false));
    assert_eq!(states(&ui), vec![ElementState::Normal, ElementState::Selected, ElementState::Normal]);
}

#[test]
fn update_keeps_names_and_places() {
    let mut ui = menu(["Play", "Options", "Quit"]);
    ui.update(input(false, true, true));
    let names: Vec<&str> = ui.widgets.iter().map(|w| w.name.as_str()).collect();
    assert_eq!(names, vec!["Play", "Options", "Quit"]);
    assert_eq!(ui.widgets[2].dest, Rect::new(0, 300, 600, 100));
}

#[test]
fn single_button_keeps_the_cursor() {
    let mut ui = Ui::from(vec![Button::new(Rect::new(0, 0, 1, 1), "Back".to_string())]);
    ui.update(input(false, true, false));
    assert_eq!(ui.cursor, 0);
    ui.update(input(true, false, true));
    assert_eq!(ui.cursor, 0);
    assert_eq!(states(&ui), vec![ElementState::Clicked]);
}

#[test]
fn main_menu_lays_four_buttons_out() {
    let mut ui = Ui::default();
    let next = bigrace::gui::main_menu(&mut ui, input(false, false, false), 1_920_000_000, 1_080_000_000);
    assert_eq!(next, None);
    assert_eq!(ui.cursor, 0);
    let names: Vec<&str> = ui.widgets.iter().map(|w| w.name.as_str()).collect();
    assert_eq!(names, vec!["Play", "Options", "Credits", "Quit"]);
    // a button is 3 / 32 of 1080 high and six times as wide
    let places: Vec<Rect> = ui.widgets.iter().map(|w| w.dest).collect();
    assert_eq!(
        places,
        vec![
            Rect::new(656_250_000, 540_000_000, 607_500_000, 101_250_000),
            Rect::new(656_250_000, 675_000_000, 607_500_000, 101_250_000),
            Rect::new(656_250_000, 810_000_000, 607_500_000, 101_250_000),
            Rect::new(656_250_000, 945_000_000, 607_500_000, 101_250_000),
        ]
    );
    assert_eq!(
        states(&ui),
        vec![
            ElementState::Selected,
            ElementState::Normal,
            ElementState::Normal,
            ElementState::Normal
        ]
    );
}

#[test]
fn main_menu_leads_where_the_clicked_button_says() {
    use_menu(0, input(false, false, true), Some(GameState::Playing(GameMode::Arcade)), 0);
    use_menu(1, input(false, false, true), Some(GameState::Options), 1);
    use_menu(2, input(false, false, true), Some(GameState::Credits), 2);
    use_menu(3, input(false, false, true), Some(GameState::Quit), 3);
    use_menu(3, input(false, true, true), Some(GameState::Playing(GameMode::Arcade)), 0);
    use_menu(0, input(true, false, true), Some(GameState::Quit), 3);
    use_menu(1, input(true, true, true), Some(GameState::Playing(GameMode::Arcade)), 0);
    use_menu(2, input(false, false, false), None, 2);
    use_menu(2, input(false, true, false), None, 3);
}

fn use_menu(cursor: usize, input: MenuInput, next: Option<GameState>, cursor_after: usize) {
    let mut ui = Ui::default();
    ui.cursor = cursor;
    assert_eq!(bigrace::gui::main_menu(&mut ui, input, 800_000_000, 600_000_000), next);
    assert_eq!(ui.cursor, cursor_after);
    assert_eq!(ui.widgets.len(), 4);
}

#[test]
fn main_menu_on_odd_screens() {
    let mut ui = Ui::default();
    bigrace::gui::main_menu(&mut ui, input(false, false, false), 7, -9);
    // 3 / 32 of -9 rounds to zero, half of it to -4 and an eighth of it to -1
    let places: Vec<Rect> = ui.widgets.iter().map(|w| w.dest).collect();
    assert_eq!(
        places,
        vec![Rect::new(3, -4, 0, 0), Rect::new(3, -5, 0, 0), Rect::new(3, -6, 0, 0), Rect::new(3, -7, 0, 0)]
    );
    bigrace::gui::main_menu(&mut ui, input(false, false, false), i64::MIN, i64::MAX);
    assert_eq!(
        ui.widgets[3].dest,
        Rect::new(
            -4_611_686_018_427_387_904,
            8_070_450_532_247_928_828,
            5_188_146_770_730_811_386,
            864_691_128_455_135_231
        )
    );
}

fn music(is_activated: bool) -> MusicParams {
    MusicParams { is_playing: true, is_activated, volume: 700_000 }
}

#[test]
fn options_lay_the_switch_and_the_back_button_out() {
    let mut ui = Ui::default();
    let mut params = music(true);
    let next = bigrace::gui::options(
        &mut ui,
        input(false, false, false),
        &mut params,
        1_920_000_000,
        1_080_000_000,
    );
    assert_eq!(next, None);
    assert_eq!(params, music(true));
    assert_eq!(ui.widgets.len(), 2);
    assert_eq!(ui.widgets[0].name, "turn music off");
    assert_eq!(ui.widgets[0].dest, Rect::new(717_000_000, 270_000_000, 486_000_000, 81_000_000));
    assert_eq!(ui.widgets[1].name, "Back");
    assert_eq!(ui.widgets[1].dest, Rect::new(10_000_000, 1_030_000_000, 180_000_000, 40_000_000));
    assert_eq!(states(&ui), vec![ElementState::Selected, ElementState::Normal]);
    let mut params = music(false);
    bigrace::gui::options(&mut ui, input(false, false, false), &mut params, 0, 0);
    assert_eq!(ui.widgets[0].name, "turn music on");
}

#[test]
fn click_on_the_switch_turns_the_music_round() {
    let mut ui = Ui::default();
    let mut params = music(true);
    let next = bigrace::gui::options(&mut ui, input(false, false, true), &mut params, 800, 600);
    assert_eq!(next, Some(GameState::Options));
    assert_eq!(params, music(false));
    assert_eq!(ui.widgets[0].name, "turn music off");
    let next = bigrace::gui::options(&mut ui, input(false, false, true), &mut params, 800, 600);
    assert_eq!(next, Some(GameState::Options));
    assert_eq!(params, music(true));
    assert_eq!(ui.widgets[0].name, "turn music on");
}

#[test]
fn options_lead_back_to_the_menu() {
    let mut ui = Ui::default();
    let mut params = music(true);
    let next = bigrace::gui::options(&mut ui, input(false, true, true), &mut params, 800, 600);
    assert_eq!(next, Some(GameState::Menu));
    assert_eq!(ui.cursor, 1);
    assert_eq!(params, music(true));
    let mut ui = Ui::default();
    let back = MenuInput { back: true, ..MenuInput::new() };
    let next = bigrace::gui::options(&mut ui, back, &mut params, 800, 600);
    assert_eq!(next, Some(GameState::Menu));
    assert_eq!(params, music(true));
}

#[test]
fn switch_wins_over_the_back_key() {
    let mut ui = Ui::default();
    let mut params = music(false);
    let both = MenuInput { back: true, click: true, ..MenuInput::new() };
    let next = bigrace::gui::options(&mut ui, both, &mut params, 800, 600);
    assert_eq!(next, Some(GameState::Options));
    assert_eq!(params, music(true));
}

#[test]
fn credits_lead_back_to_the_menu() {
    let mut ui = Ui::default();
    assert_eq!(bigrace::gui::credits(&mut ui, input(false, false, false), 600_000_000), None);
    assert_eq!(ui.widgets.len(), 1);
    assert_eq!(ui.widgets[0].name, "Back");
    assert_eq!(ui.widgets[0].dest, Rect::new(10_000_000, 550_000_000, 180_000_000, 40_000_000));
    assert_eq!(states(&ui), vec![ElementState::Selected]);
    assert_eq!(
        bigrace::gui::credits(&mut ui, input(true, false, true), 600_000_000),
        Some(GameState::Menu)
    );
    assert_eq!(states(&ui), vec![ElementState::Clicked]);
    let back = MenuInput { back: true, ..MenuInput::new() };
    assert_eq!(bigrace::gui::credits(&mut ui, back, 600_000_000), Some(GameState::Menu));
    assert_eq!(ui.cursor, 0);
}
