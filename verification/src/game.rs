//! The game as its main loop sees it: the engine together with the pointer
//! and the run state, and what each event does to them.
//!
//! The program that owns the window takes events from it one by one, hands
//! each to `Game::handle`, and carries out the action that comes back.

use vstd::prelude::*;
use crate::board::Board;
use crate::engine::App;

verus! {

/// A mouse button.
#[derive(Clone, Copy, Debug, PartialEq, Eq, Structural)]
pub enum Button {
    /// Edits the grid.
    Left,
    /// Starts and pauses the simulation.
    Right,
    /// Any other button: it does nothing.
    Other,
}

/// What the window reports.
#[derive(Clone, Copy, Debug, PartialEq, Eq, Structural)]
pub enum Event {
    /// The window wants to be drawn.
    Render,
    /// One tick of the clock.
    Update,
    /// The pointer moved to `(x, y)`.
    MouseCursor { x: i64, y: i64 },
    /// A button went down.
    Press { button: Button },
    /// A button came up.
    Release { button: Button },
}

/// What is to be done outside the game once an event is handled.
#[derive(Clone, Copy, Debug, PartialEq, Eq, Structural)]
pub enum Action {
    /// Nothing.
    Nothing,
    /// Draw every cell.
    Draw,
    /// Tell the user that the simulation now runs, or that it is paused.
    Announce { running: bool },
}

/// The state of the game as a mathematical value.
pub struct GameState {
    /// The grid and the edit lock.
    pub board: Board,
    /// Where the pointer was last seen.
    pub mouse_x: int,
    pub mouse_y: int,
    /// Whether the clock advances the grid.
    pub running: bool,
    /// Whether the next press of the right button may start or pause the
    /// simulation.
    pub can_right_click: bool,
}

impl GameState {
    /// The state after `event`.
    ///
    /// A tick advances the grid by one generation while the simulation
    /// runs. The left button edits the grid at the pointer. A press of the
    /// right button starts or pauses the simulation, once: the button has
    /// to come up before it does so again.
    pub open spec fn next(self, event: Event) -> GameState {
        match event {
            Event::Render => self,
            Event::Update => if self.running {
                GameState { board: self.board.step(), ..self }
            } else {
                self
            },
            Event::MouseCursor { x, y } => GameState { mouse_x: x as int, mouse_y: y as int, ..self },
            Event::Press { button: Button::Left } => GameState {
                board: self.board.toggle(self.mouse_x, self.mouse_y),
                ..self
            },
            Event::Press { button: Button::Right } => if self.can_right_click {
                GameState { can_right_click: false, running: !self.running, ..self }
            } else {
                self
            },
            Event::Press { button: Button::Other } => self,
            Event::Release { button: Button::Left } => GameState { board: self.board.release(), ..self },
            Event::Release { button: Button::Right } => GameState { can_right_click: true, ..self },
            Event::Release { button: Button::Other } => self,
        }
    }

    /// What is to be done outside the game when `event` comes in this
    /// state.
    pub open spec fn action(self, event: Event) -> Action {
        match event {
            Event::Render => Action::Draw,
            Event::Press { button: Button::Right } => if self.can_right_click {
                Action::Announce { running: !self.running }
            } else {
                Action::Nothing
            },
            _ => Action::Nothing,
        }
    }
}

/// The game: the engine, the last position of the pointer, whether the
/// simulation runs, and the lock of the right button.
pub struct Game {
    app: App,
    mouse_x: i64,
    mouse_y: i64,
    running: bool,
    can_right_click: bool,
}

impl View for Game {
    type V = GameState;

    closed spec fn view(&self) -> GameState {
        GameState {
            board: self.app@,
            mouse_x: self.mouse_x as int,
            mouse_y: self.mouse_y as int,
            running: self.running,
            can_right_click: self.can_right_click,
        }
    }
}

impl Game {
    /// A game around the engine `app`: paused, with the pointer in the top
    /// left corner and the right button ready.
    pub fn new(app: App) -> (game: Game)
        ensures
            game@ == (GameState {
                board: app@,
                mouse_x: 0,
                mouse_y: 0,
                running: false,
                can_right_click: true,
            }),
    {
        Game { app: app, mouse_x: 0, mouse_y: 0, running: false, can_right_click: true }
    }

    /// Handles one event and says what is to be done outside the game.
    pub fn handle(&mut self, event: Event) -> (action: Action)
        ensures
            final(self)@ == old(self)@.next(event),
            action == old(self)@.action(event),
    {
        match event {
            Event::Render => Action::Draw,
            Event::Update => {
                if self.running {
                    self.app.update_pixels();
                }
                Action::Nothing
            },
            Event::MouseCursor { x, y } => {
                self.mouse_x = x;
                self.mouse_y = y;
                Action::Nothing
            },
            Event::Release { button } => {
                match button {
                    Button::Left => {
                        self.app.mouse_left_released(self.mouse_x, self.mouse_y);
                    },
                    Button::Right => {
                        self.can_right_click = true;
                    },
                    Button::Other => {},
                }
                Action::Nothing
            },
            Event::Press { button } => {
                match button {
                    Button::Left => {
                        self.app.mouse_left_clicked(self.mouse_x, self.mouse_y);
                        Action::Nothing
                    },
                    Button::Right => {
                        if self.can_right_click {
                            self.can_right_click = false;
                            self.running = !self.running;
                            Action::Announce { running: self.running }
                        } else {
                            Action::Nothing
                        }
                    },
                    Button::Other => Action::Nothing,
                }
            },
        }
    }

    /// The engine, for whoever draws the cells.
    pub fn app(&self) -> (app: &App)
        ensures
            app@ == self@.board,
    {
        &self.app
    }

    /// Whether the clock advances the grid.
    pub fn running(&self) -> (running: bool)
        ensures
            running == self@.running,
    {
        self.running
    }

    /// Whether the next press of the right button starts or pauses the
    /// simulation.
    pub fn can_right_click(&self) -> (ready: bool)
        ensures
            ready == self@.can_right_click,
    {
        self.can_right_click
    }

    /// Where the pointer was last seen, as `(x, y)`.
    pub fn mouse(&self) -> (at: (i64, i64))
        ensures
            at.0 == self@.mouse_x,
            at.1 == self@.mouse_y,
    {
        (self.mouse_x, self.mouse_y)
    }
}

} // verus!
