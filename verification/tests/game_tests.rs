use game_of_life::engine::{App, SeedPolicy};
use game_of_life::game::{Action, Button, Event, Game};

fn live_cells(game: &Game) -> Vec<(usize, usize)> {
    let app = game.app();
    let mut cells = Vec::new();
    for y in 0..app.height() {
        for x in 0..app.width() {
            if app.pixel_alive(x, y) {
                cells.push((x, y));
            }
        }
    }
    cells
}

fn press(button: Button) -> Event {
    Event::Press { button: button }
}

fn release(button: Button) -> Event {
    Event::Release { button: button }
}

/// Moves the pointer into the cell `(x, y)` and clicks the left button.
fn click(game: &mut Game, x: i64, y: i64) {
    assert_eq!(game.handle(Event::MouseCursor { x: 7 * x + 2, y: 7 * y + 4 }), Action::Nothing);
    assert_eq!(game.handle(press(Button::Left)), Action::Nothing);
    assert_eq!(game.handle(release(Button::Left)), Action::Nothing);
}

#[test]
fn new_game_is_paused() {
    let game = Game::new(App::new(5, 5, SeedPolicy::Empty));
    assert!(!game.running());
    assert!(game.can_right_click());
    assert_eq!(game.mouse(), (0, 0));
    assert_eq!(game.app().width(), 5);
    assert_eq!(game.app().height(), 5);
    assert_eq!(live_cells(&game), vec![]);
}

#[test]
fn render_asks_for_a_drawing_and_changes_nothing() {
    let mut game = Game::new(App::new(5, 5, SeedPolicy::Empty));
    click(&mut game, 1, 2);
    assert_eq!(game.handle(Event::Render), Action::Draw);
    assert_eq!(live_cells(&game), vec![(1, 2)]);
    assert!(!game.running());
    assert_eq!(game.mouse(), (9, 18));
}

#[test]
fn clock_advances_the_grid_only_while_running() {
    let mut game = Game::new(App::new(5, 5, SeedPolicy::Empty));
    click(&mut game, 2, 1);
    click(&mut game, 2, 2);
    click(&mut game, 2, 3);
    assert_eq!(game.handle(Event::Update), Action::Nothing);
    assert_eq!(live_cells(&game), vec![(2, 1), (2, 2), (2, 3)]);

    assert_eq!(game.handle(press(Button::Right)), Action::Announce { running: true });
    assert!(game.running());
    assert_eq!(game.handle(Event::Update), Action::Nothing);
    assert_eq!(live_cells(&game), vec![(1, 2), (2, 2), (3, 2)]);
    assert_eq!(game.handle(Event::Update), Action::Nothing);
    assert_eq!(live_cells(&game), vec![(2, 1), (2, 2), (2, 3)]);

    assert_eq!(game.handle(release(Button::Right)), Action::Nothing);
    assert_eq!(game.handle(press(Button::Right)), Action::Announce { running: false });
    assert!(!game.running());
    assert_eq!(game.handle(Event::Update), Action::Nothing);
    assert_eq!(live_cells(&game), vec![(2, 1), (2, 2), (2, 3)]);
}

#[test]
fn right_button_acts_once_for_each_press() {
    let mut game = Game::new(App::new(3, 3, SeedPolicy::Empty));
    assert_eq!(game.handle(press(Button::Right)), Action::Announce { running: true });
    assert!(!game.can_right_click());
    assert_eq!(game.handle(press(Button::Right)), Action::Nothing);
    assert_eq!(game.handle(press(Button::Right)), Action::Nothing);
    assert!(game.running());
    // the left button does not ready the right one
    assert_eq!(game.handle(release(Button::Left)), Action::Nothing);
    assert_eq!(game.handle(press(Button::Right)), Action::Nothing);
    assert!(game.running());
    assert_eq!(game.handle(release(Button::Right)), Action::Nothing);
    assert!(game.can_right_click());
    assert!(game.running());
    assert_eq!(game.handle(press(Button::Right)), Action::Announce { running: false });
    assert!(!game.running());
}

#[test]
fn left_button_edits_at_the_last_pointer_position() {
    let mut game = Game::new(App::new(4, 4, SeedPolicy::Empty));
    // the pointer starts in the top left corner
    assert_eq!(game.handle(press(Button::Left)), Action::Nothing);
    assert_eq!(live_cells(&game), vec![(0, 0)]);
    assert!(!game.app().can_click());
    // held down and moved: nothing more is flipped
    assert_eq!(game.handle(Event::MouseCursor { x: 15, y: 22 }), Action::Nothing);
    assert_eq!(game.mouse(), (15, 22));
    assert_eq!(game.handle(press(Button::Left)), Action::Nothing);
    assert_eq!(live_cells(&game), vec![(0, 0)]);
    // the right button does not open the edit lock
    assert_eq!(game.handle(release(Button::Right)), Action::Nothing);
    assert_eq!(game.handle(press(Button::Left)), Action::Nothing);
    assert_eq!(live_cells(&game), vec![(0, 0)]);
    assert_eq!(game.handle(release(Button::Left)), Action::Nothing);
    assert!(game.app().can_click());
    assert_eq!(game.handle(press(Button::Left)), Action::Nothing);
    assert_eq!(live_cells(&game), vec![(0, 0), (2, 3)]);
}

#[test]
fn left_button_off_the_grid_edits_nothing() {
    let mut game = Game::new(App::new(4, 4, SeedPolicy::Empty));
    assert_eq!(game.handle(Event::MouseCursor { x: -1, y: 5 }), Action::Nothing);
    assert_eq!(game.handle(press(Button::Left)), Action::Nothing);
    assert_eq!(live_cells(&game), vec![]);
    assert!(game.app().can_click());
    assert_eq!(game.handle(Event::MouseCursor { x: 28, y: 5 }), Action::Nothing);
    assert_eq!(game.handle(press(Button::Left)), Action::Nothing);
    assert_eq!(live_cells(&game), vec![]);
    assert_eq!(game.handle(Event::MouseCursor { x: 27, y: 5 }), Action::Nothing);
    assert_eq!(game.handle(press(Button::Left)), Action::Nothing);
    assert_eq!(live_cells(&game), vec![(3, 0)]);
}

#[test]
fn other_buttons_do_nothing() {
    let mut game = Game::new(App::new(4, 4, SeedPolicy::Empty));
    assert_eq!(game.handle(press(Button::Other)), Action::Nothing);
    assert_eq!(game.handle(release(Button::Other)), Action::Nothing);
    assert_eq!(live_cells(&game), vec![]);
    assert!(!game.running());
    assert!(game.can_right_click());
    assert!(game.app().can_click());
    // nor does one of them ready a button that is held down
    assert_eq!(game.handle(press(Button::Right)), Action::Announce { running: true });
    assert_eq!(game.handle(press(Button::Left)), Action::Nothing);
    assert_eq!(game.handle(release(Button::Other)), Action::Nothing);
    assert!(!game.can_right_click());
    assert!(!game.app().can_click());
}

#[test]
fn editing_works_while_the_simulation_runs() {
    let mut game = Game::new(App::new(6, 6, SeedPolicy::Empty));
    assert_eq!(game.handle(press(Button::Right)), Action::Announce { running: true });
    click(&mut game, 2, 2);
    click(&mut game, 3, 2);
    click(&mut game, 2, 3);
    click(&mut game, 3, 3);
    assert_eq!(game.handle(Event::Update), Action::Nothing);
    assert_eq!(live_cells(&game), vec![(2, 2), (3, 2), (2, 3), (3, 3)]);
}
