use autons::simple::render::draw_item;
use autons::simple::{
    theme_dark, CellDraw, ItemDrawing, Route, SelectError, SelectorState, SimpleSelect,
    SimpleSelectTheme, TouchEvent, TouchState,
};
use autons::Selector;

struct Robot {
    log: Vec<&'static str>,
}

type Routine = fn(&mut Robot);

fn route_1(robot: &mut Robot) {
    robot.log.push("route_1");
}

fn route_2(robot: &mut Robot) {
    robot.log.push("route_2");
}

fn two_routes() -> SimpleSelect<Routine, 2> {
    match SimpleSelect::new([
        Route::new("Route 1", route_1 as Routine),
        Route::new("Route 2", route_2 as Routine),
    ]) {
        Ok(select) => select,
        Err(error) => panic!("{}", error.message()),
    }
}

fn numbered<const N: usize>() -> [Route<usize>; N] {
    let names: [&'static str; 13] = [
        "r0", "r1", "r2", "r3", "r4", "r5", "r6", "r7", "r8", "r9", "r10", "r11", "r12",
    ];
    std::array::from_fn(|i| Route::new(names[i], i))
}

fn press(x: i16, y: i16) -> TouchEvent {
    TouchEvent { state: TouchState::Pressed, x, y }
}

fn hold(x: i16, y: i16) -> TouchEvent {
    TouchEvent { state: TouchState::Held, x, y }
}

fn release(x: i16, y: i16) -> TouchEvent {
    TouchEvent { state: TouchState::Released, x, y }
}

fn item(label: &'static str, index: usize, selected: bool, active: bool) -> ItemDrawing {
    draw_item(&theme_dark(), label, index, selected, active)
}

#[test]
fn construction_succeeds_with_one_to_twelve_routes() {
    assert!(SimpleSelect::new(numbered::<1>()).is_ok());
    assert!(SimpleSelect::new(numbered::<2>()).is_ok());
    assert!(SimpleSelect::new(numbered::<6>()).is_ok());
    assert!(SimpleSelect::new(numbered::<7>()).is_ok());
    assert!(SimpleSelect::new(numbered::<11>()).is_ok());
    assert!(SimpleSelect::new(numbered::<12>()).is_ok());
}

#[test]
fn construction_fails_without_routes() {
    let routes: [Route<usize>; 0] = [];
    assert!(matches!(SimpleSelect::new(routes), Err(SelectError::NoRoutes)));
    let routes: [Route<usize>; 0] = [];
    assert!(matches!(
        SimpleSelect::new_with_theme(routes, theme_dark()),
        Err(SelectError::NoRoutes)
    ));
}

#[test]
fn construction_fails_with_thirteen_routes() {
    assert!(matches!(SimpleSelect::new(numbered::<13>()), Err(SelectError::TooManyRoutes)));
    assert!(matches!(
        SimpleSelect::new_with_theme(numbered::<13>(), theme_dark()),
        Err(SelectError::TooManyRoutes)
    ));
}

#[test]
fn error_messages_name_the_bound() {
    assert_eq!(SelectError::NoRoutes.message(), "SimpleSelect requires at least one route.");
    assert_eq!(
        SelectError::TooManyRoutes.message(),
        "SimpleSelect currently only supports up to 12 routes."
    );
}

#[test]
fn new_selector_selects_first_route_and_shows_it() {
    let select = two_routes();
    assert_eq!(select.selection(), 0);
    assert_eq!(
        select.state(),
        SelectorState { selection: 0, dirty_selection: None, active_item: None }
    );
    assert_eq!(*select.theme(), theme_dark());
    assert_eq!(select.routes()[0].name, "Route 1");
    assert_eq!(select.routes()[1].name, "Route 2");

    let menu = select.draw_menu();
    let theme = theme_dark();
    assert_eq!(menu.items.len(), 2);
    assert_eq!(menu.items[0], item("Route 1", 0, true, false));
    assert_eq!(menu.items[1], item("Route 2", 1, false, false));
    assert_eq!(menu.items[0].rect.color, theme.background_selected);
    assert_eq!(menu.items[0].label.color, theme.text_selected);
    assert_eq!(menu.items[0].label.text, "Route 1");
    assert_eq!(menu.items[1].rect.color, theme.background_default);
    assert_eq!(menu.items[1].label.color, theme.text_default);
    assert_eq!(menu.items[1].label.text, "Route 2");
    assert_eq!(menu.background.color, theme.background_default);
    assert_eq!(
        (menu.background.x, menu.background.y, menu.background.width, menu.background.height),
        (0, 0, 480, 240)
    );
    assert_eq!(menu.borders.len(), 6);
}

#[test]
fn press_then_release_on_cell_selects_it() {
    let mut select = two_routes();

    let drawn = select.tick(&press(100, 50));
    assert_eq!(drawn, vec![item("Route 2", 1, false, true)]);
    assert_eq!(select.selection(), 0);
    assert_eq!(select.state().active_item, Some(1));

    let drawn = select.tick(&hold(100, 50));
    assert_eq!(drawn, vec![]);
    assert_eq!(select.state().active_item, Some(1));

    let drawn = select.tick(&release(100, 50));
    assert_eq!(drawn, vec![item("Route 1", 0, false, false), item("Route 2", 1, true, false)]);
    assert_eq!(select.selection(), 1);
    assert_eq!(select.state().active_item, None);

    let drawn = select.tick(&release(100, 50));
    assert_eq!(drawn, vec![]);
    assert_eq!(select.selection(), 1);
}

#[test]
fn select_is_drawn_by_next_tick() {
    let mut select = two_routes();
    select.select(1);
    assert_eq!(select.selection(), 1);
    assert_eq!(select.state().dirty_selection, Some(0));

    let drawn = select.tick(&release(0, 0));
    assert_eq!(drawn, vec![item("Route 1", 0, false, false), item("Route 2", 1, true, false)]);
    assert_eq!(select.selection(), 1);
    assert_eq!(select.state().dirty_selection, None);

    let drawn = select.tick(&release(0, 0));
    assert_eq!(drawn, vec![]);
}

#[test]
fn select_marks_only_the_preceding_selection() {
    let mut select = match SimpleSelect::new(numbered::<5>()) {
        Ok(select) => select,
        Err(error) => panic!("{}", error.message()),
    };
    select.select(3);
    assert_eq!(select.state().dirty_selection, Some(0));
    select.select(4);
    assert_eq!(select.selection(), 4);
    assert_eq!(select.state().dirty_selection, Some(3));
    select.select(4);
    assert_eq!(select.selection(), 4);
    assert_eq!(select.state().dirty_selection, Some(4));

    let drawn = select.tick(&release(0, 0));
    assert_eq!(drawn, vec![item("r4", 4, false, false), item("r4", 4, true, false)]);
    assert_eq!(select.state().dirty_selection, None);
}

#[test]
fn drag_to_another_cell_selects_the_cell_of_release() {
    let mut select = two_routes();

    let drawn = select.tick(&press(10, 10));
    assert_eq!(drawn, vec![item("Route 1", 0, true, true)]);

    let drawn = select.tick(&hold(10, 60));
    assert_eq!(drawn, vec![item("Route 1", 0, true, false), item("Route 2", 1, false, true)]);
    assert_eq!(select.selection(), 0);
    assert_eq!(select.state().active_item, Some(1));

    let drawn = select.tick(&release(10, 60));
    assert_eq!(drawn, vec![item("Route 1", 0, false, false), item("Route 2", 1, true, false)]);
    assert_eq!(select.selection(), 1);
}

#[test]
fn release_off_the_pressed_cell_cancels() {
    let mut select = two_routes();

    let drawn = select.tick(&press(10, 60));
    assert_eq!(drawn, vec![item("Route 2", 1, false, true)]);

    let drawn = select.tick(&release(10, 10));
    assert_eq!(drawn, vec![item("Route 2", 1, false, false)]);
    assert_eq!(select.selection(), 0);
    assert_eq!(select.state().active_item, None);
}

#[test]
fn drag_into_empty_space_drops_the_press() {
    let mut select = two_routes();

    let drawn = select.tick(&press(10, 10));
    assert_eq!(drawn, vec![item("Route 1", 0, true, true)]);

    let drawn = select.tick(&hold(300, 10));
    assert_eq!(drawn, vec![item("Route 1", 0, true, false)]);
    assert_eq!(select.state().active_item, None);

    let drawn = select.tick(&release(300, 10));
    assert_eq!(drawn, vec![]);
    assert_eq!(select.selection(), 0);
}

#[test]
fn press_in_empty_space_does_nothing() {
    let mut select = two_routes();
    assert_eq!(select.tick(&press(10, 90)), vec![]);
    assert_eq!(select.tick(&hold(-5, -90)), vec![]);
    assert_eq!(select.tick(&release(10, 90)), vec![]);
    assert_eq!(
        select.state(),
        SelectorState { selection: 0, dirty_selection: None, active_item: None }
    );
}

#[test]
fn select_during_a_press_is_drawn_after_the_touch() {
    let mut select = two_routes();
    select.tick(&press(10, 60));
    select.select(1);

    let drawn = select.tick(&release(10, 10));
    assert_eq!(
        drawn,
        vec![
            item("Route 2", 1, true, false),
            item("Route 1", 0, false, false),
            item("Route 2", 1, true, false),
        ]
    );
    assert_eq!(select.selection(), 1);
    assert_eq!(select.state().dirty_selection, None);
}

#[test]
fn commit_and_select_in_one_tick() {
    let mut select = match SimpleSelect::new(numbered::<8>()) {
        Ok(select) => select,
        Err(error) => panic!("{}", error.message()),
    };
    select.tick(&press(250, 45));
    assert_eq!(select.state().active_item, Some(7));
    select.select(2);

    let drawn = select.tick(&release(250, 45));
    assert_eq!(
        drawn,
        vec![
            item("r2", 2, false, false),
            item("r7", 7, true, false),
            item("r0", 0, false, false),
            item("r7", 7, true, false),
        ]
    );
    assert_eq!(select.selection(), 7);
}

#[test]
fn custom_theme_colors_the_menu() {
    let mut theme = theme_dark();
    theme.background_selected = autons::simple::Color::new(1, 2, 3);
    theme.text_active = autons::simple::Color::new(4, 5, 6);
    let mut select = match SimpleSelect::new_with_theme(numbered::<3>(), theme) {
        Ok(select) => select,
        Err(error) => panic!("{}", error.message()),
    };
    assert_eq!(*select.theme(), theme);
    let menu = select.draw_menu();
    assert_eq!(menu.items[0].rect.color, autons::simple::Color::new(1, 2, 3));
    let drawn = select.tick(&press(0, 80));
    assert_eq!(drawn.len(), 1);
    assert_eq!(drawn[0].label.color, autons::simple::Color::new(4, 5, 6));
    assert_eq!(drawn[0], draw_item(&theme, "r2", 2, false, true));
}

#[test]
fn default_theme_is_the_dark_theme() {
    assert_eq!(SimpleSelectTheme::default(), theme_dark());
}

#[test]
fn pick_hands_out_the_selected_routine() {
    let mut select = two_routes();
    let mut robot = Robot { log: Vec::new() };

    let routine = select.pick();
    routine(&mut robot);
    assert_eq!(robot.log, vec!["route_1"]);

    select.select(1);
    let routine = select.pick();
    routine(&mut robot);
    assert_eq!(robot.log, vec!["route_1", "route_2"]);

    select.tick(&press(10, 10));
    select.tick(&release(10, 10));
    let routine = select.pick();
    routine(&mut robot);
    assert_eq!(robot.log, vec!["route_1", "route_2", "route_1"]);
}

#[test]
fn state_machine_alone_reports_cells() {
    let mut state = SelectorState::new();
    assert_eq!(state, SelectorState { selection: 0, dirty_selection: None, active_item: None });

    let cells = state.tick(12, &press(470, 230));
    assert_eq!(cells, vec![CellDraw { index: 11, selected: false, active: true }]);

    let cells = state.tick(12, &hold(0, 0));
    assert_eq!(
        cells,
        vec![
            CellDraw { index: 11, selected: false, active: false },
            CellDraw { index: 0, selected: true, active: true },
        ]
    );

    state.select(5);
    assert_eq!(
        state,
        SelectorState { selection: 5, dirty_selection: Some(0), active_item: Some(0) }
    );

    let cells = state.tick(12, &release(0, 0));
    assert_eq!(
        cells,
        vec![
            CellDraw { index: 5, selected: false, active: false },
            CellDraw { index: 0, selected: true, active: false },
            CellDraw { index: 0, selected: false, active: false },
            CellDraw { index: 0, selected: true, active: false },
        ]
    );
    assert_eq!(state, SelectorState { selection: 0, dirty_selection: None, active_item: None });
}

#[test]
fn release_on_selected_cell_elsewhere_keeps_it_selected() {
    let mut state = SelectorState::new();
    state.tick(2, &press(0, 0));
    let cells = state.tick(2, &release(0, 40));
    assert_eq!(cells, vec![CellDraw { index: 0, selected: true, active: false }]);
    assert_eq!(state, SelectorState { selection: 0, dirty_selection: None, active_item: None });
}

#[test]
fn cancelled_press_on_the_selection_redraws_it_selected() {
    let mut select = two_routes();
    let theme = theme_dark();

    let drawn = select.tick(&press(10, 10));
    assert_eq!(drawn, vec![item("Route 1", 0, true, true)]);

    let drawn = select.tick(&release(10, 50));
    assert_eq!(drawn, vec![item("Route 1", 0, true, false)]);
    assert_eq!(drawn.len(), 1);
    assert_eq!(drawn[0].rect.color, theme.background_selected);
    assert_eq!(drawn[0].rect.color, autons::simple::Color::new(67, 189, 224));
    assert_eq!(drawn[0].label.color, theme.text_selected);
    assert_eq!(select.selection(), 0);
    assert_eq!(select.state().active_item, None);
}

#[test]
fn select_of_the_pressed_cell_draws_it_at_rest() {
    let mut state = SelectorState::new();
    state.tick(2, &press(0, 40));
    state.select(1);
    let cells = state.tick(2, &hold(0, 40));
    assert_eq!(
        cells,
        vec![
            CellDraw { index: 0, selected: false, active: false },
            CellDraw { index: 1, selected: true, active: false },
        ]
    );
    assert_eq!(state, SelectorState { selection: 1, dirty_selection: None, active_item: Some(1) });
}

fn show(screen: &mut [(bool, bool)], cells: &[CellDraw]) {
    for cell in cells {
        screen[cell.index] = (cell.selected, cell.active);
    }
}

fn in_step(screen: &[(bool, bool)], state: &SelectorState) -> bool {
    screen.iter().enumerate().all(|(index, look)| {
        *look == (index == state.selection, state.active_item == Some(index))
    })
}

#[test]
fn menu_stays_in_step_with_the_state() {
    let count: usize = 8;
    let mut state = SelectorState::new();
    let mut screen: Vec<(bool, bool)> = (0..count).map(|index| (index == 0, false)).collect();
    assert!(in_step(&screen, &state));

    let touches = [
        press(10, 50),
        hold(10, 50),
        hold(10, 130),
        hold(300, 10),
        hold(300, 200),
        hold(10, 10),
        release(10, 10),
        release(10, 10),
        press(250, 45),
        release(250, 45),
        press(250, 45),
        hold(470, 230),
        release(470, 230),
        press(10, 90),
        release(10, 130),
        press(250, 45),
        release(10, 10),
    ];
    for touch in &touches {
        let cells = state.tick(count, touch);
        show(&mut screen, &cells);
        assert!(in_step(&screen, &state));
    }
    assert_eq!(state.selection, 7);

    state.select(3);
    let cells = state.tick(count, &release(0, 0));
    show(&mut screen, &cells);
    assert!(in_step(&screen, &state));
    assert_eq!(state.selection, 3);
}

#[test]
fn idle_touch_ends_a_press_like_a_release() {
    let mut select = two_routes();
    select.tick(&press(10, 50));
    let idle = TouchEvent { state: TouchState::Idle, x: 10, y: 50 };
    let drawn = select.tick(&idle);
    assert_eq!(drawn, vec![item("Route 1", 0, false, false), item("Route 2", 1, true, false)]);
    assert_eq!(select.selection(), 1);
    assert_eq!(select.tick(&idle), vec![]);
}
