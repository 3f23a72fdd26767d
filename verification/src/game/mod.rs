//! A playing session: the world, and the status that decides whether it
//! advances.

pub mod world;

use vstd::prelude::*;
use world::theme::Color;
use world::{FrameDraws, World, WorldView};

verus! {

/// The phase of a playing session.
#[derive(Clone, Copy, Debug, PartialEq, Eq, Structural)]
pub enum GameStatus {
    Beginning,
    Paused,
    Running,
    Over,
    Closed,
}

#[derive(Clone, Copy, Debug, PartialEq, Eq, Structural)]
pub struct Scores {
    pub highest: u16,
    pub current: u16,
}

/// A key of the keyboard, as far as the session tells keys apart.
#[derive(Clone, Copy, Debug, PartialEq, Eq, Structural)]
pub enum Key {
    Char(char),
    Up,
    Other,
}

/// The modifier keys held down with a key.
#[derive(Clone, Copy, Debug, PartialEq, Eq, Structural)]
pub enum Modifiers {
    Plain,
    Control,
    Other,
}

/// What the terminal reports to the session.
#[derive(Clone, Copy, Debug, PartialEq, Eq, Structural)]
pub enum Input {
    FocusLost,
    Key(Key, Modifiers),
    Other,
}

/// What an input asks of the session.
#[derive(Clone, Copy, Debug, PartialEq, Eq, Structural)]
pub enum Command {
    Pause,
    TogglePause,
    Jump,
    Quit,
    Nothing,
}

/// What the session's loop does next.
#[derive(Clone, Copy, Debug, PartialEq, Eq, Structural)]
pub enum Turn {
    /// The session is frozen: wait for input.
    Wait,
    /// The session runs: play a frame.
    Play,
    /// The session is closed: leave the loop.
    Close,
}

impl Input {
    /// The key bindings: losing the focus pauses; `p` toggles the pause; the
    /// space bar and the up arrow jump; `q`, and `c` with the control key,
    /// quit. A key with any other modifier, and anything else, asks nothing.
    pub open spec fn spec_command(self) -> Command {
        match self {
            Input::FocusLost => Command::Pause,
            Input::Key(Key::Char('p'), Modifiers::Plain) => Command::TogglePause,
            Input::Key(Key::Char(' '), Modifiers::Plain) => Command::Jump,
            Input::Key(Key::Up, Modifiers::Plain) => Command::Jump,
            Input::Key(Key::Char('c'), Modifiers::Control) => Command::Quit,
            Input::Key(Key::Char('q'), Modifiers::Plain) => Command::Quit,
            _ => Command::Nothing,
        }
    }

    /// What this input asks of the session.
    pub fn command(&self) -> (command: Command)
        ensures
            command == self.spec_command(),
    {
        match self {
            Input::FocusLost => Command::Pause,
            Input::Key(Key::Char('p'), Modifiers::Plain) => Command::TogglePause,
            Input::Key(Key::Char(' '), Modifiers::Plain) => Command::Jump,
            Input::Key(Key::Up, Modifiers::Plain) => Command::Jump,
            Input::Key(Key::Char('c'), Modifiers::Control) => Command::Quit,
            Input::Key(Key::Char('q'), Modifiers::Plain) => Command::Quit,
            _ => Command::Nothing,
        }
    }
}

impl GameStatus {
    /// The banner shown while the session is in this phase; empty while it
    /// runs and after it is closed.
    pub open spec fn spec_message(self) -> Seq<char> {
        match self {
            GameStatus::Beginning => "Press Space to Start!"@,
            GameStatus::Paused => "Game is Paused"@,
            GameStatus::Over => "Game is Over"@,
            _ => ""@,
        }
    }

    /// The banner of this phase.
    pub fn message(&self) -> (text: &'static str)
        ensures
            text@ == self.spec_message(),
    {
        match self {
            GameStatus::Beginning => "Press Space to Start!",
            GameStatus::Paused => "Game is Paused",
            GameStatus::Over => "Game is Over",
            _ => "",
        }
    }

    /// The phase after a command. A closed session stays closed, and a
    /// session that is over can only be closed. Otherwise a pause pauses and
    /// a quit closes; the pause toggle turns between paused and running; a
    /// jump starts a session that is beginning or paused.
    pub open spec fn spec_after(self, command: Command) -> GameStatus {
        if self == GameStatus::Closed {
            GameStatus::Closed
        } else {
            match command {
                Command::Pause => match self {
                    GameStatus::Over => GameStatus::Over,
                    _ => GameStatus::Paused,
                },
                Command::TogglePause => match self {
                    GameStatus::Paused => GameStatus::Running,
                    GameStatus::Running => GameStatus::Paused,
                    _ => self,
                },
                Command::Jump => match self {
                    GameStatus::Beginning | GameStatus::Paused => GameStatus::Running,
                    _ => self,
                },
                Command::Quit => GameStatus::Closed,
                Command::Nothing => self,
            }
        }
    }

    /// The phase that follows this one when the command is applied.
    pub fn after(self, command: Command) -> (status: GameStatus)
        ensures
            status == self.spec_after(command),
    {
        match (self, command) {
            (GameStatus::Closed, _) => GameStatus::Closed,
            (_, Command::Quit) => GameStatus::Closed,
            (GameStatus::Over, _) => GameStatus::Over,
            (_, Command::Pause) => GameStatus::Paused,
            (GameStatus::Paused, Command::TogglePause) => GameStatus::Running,
            (GameStatus::Running, Command::TogglePause) => GameStatus::Paused,
            (GameStatus::Beginning, Command::Jump) | (GameStatus::Paused, Command::Jump) => {
                GameStatus::Running
            },
            _ => self,
        }
    }

    /// What the loop does in this phase: it plays a frame only while the
    /// session runs, and leaves when the session is closed.
    pub open spec fn spec_turn(self) -> Turn {
        match self {
            GameStatus::Running => Turn::Play,
            GameStatus::Closed => Turn::Close,
            _ => Turn::Wait,
        }
    }

    /// What the loop does next in this phase.
    pub fn turn(&self) -> (turn: Turn)
        ensures
            turn == self.spec_turn(),
    {
        match self {
            GameStatus::Paused | GameStatus::Over | GameStatus::Beginning => Turn::Wait,
            GameStatus::Closed => Turn::Close,
            _ => Turn::Play,
        }
    }
}

/// The session as mathematics.
pub ghost struct GameView {
    pub world: WorldView,
    pub scores: Scores,
    pub status: GameStatus,
}

impl GameView {
    /// A session that is beginning, on a screen of the given size.
    pub open spec fn spec_new(screen: world::Screen) -> GameView {
        GameView {
            world: WorldView::spec_new(screen),
            scores: Scores { highest: 0, current: 0 },
            status: GameStatus::Beginning,
        }
    }

    /// The session after a command: the phase follows the command, and a jump
    /// is passed on to the runner. A closed session ignores every command.
    pub open spec fn handle(self, command: Command) -> GameView {
        if self.status == GameStatus::Closed {
            self
        } else {
            GameView {
                status: self.status.spec_after(command),
                world: if command == Command::Jump {
                    WorldView { trex: self.world.trex.spec_jump(), ..self.world }
                } else {
                    self.world
                },
                ..self
            }
        }
    }

    /// The session is over from the moment the runner has hit a cactus.
    pub open spec fn check_collision(self) -> GameView {
        if self.world.collision() {
            GameView { status: GameStatus::Over, ..self }
        } else {
            self
        }
    }

    /// When the session is over the runner is painted red.
    pub open spec fn check_game_status(self) -> GameView {
        if self.status == GameStatus::Over {
            GameView {
                world: WorldView {
                    theme: world::Theme { trex: Color::Red, ..self.world.theme },
                    ..self.world
                },
                ..self
            }
        } else {
            self
        }
    }

    /// One frame of a running session: the world makes a cycle, and the
    /// collision check decides whether the session is over.
    pub open spec fn play_frame(self, draws: FrameDraws) -> GameView {
        (GameView { world: self.world.cycle(draws), ..self })
            .check_collision()
            .check_game_status()
    }
}

impl GameView {
    /// A frame can always be played on a steady world, and leaves the world
    /// steady. The frame ends the session exactly when the runner then touches
    /// a cactus, and changes the phase in no other way.
    pub proof fn lemma_play_frame(self, draws: FrameDraws)
        requires
            self.world.steady(),
            draws.valid(),
        ensures
            self.world.can_next_frame(),
            self.play_frame(draws).world.steady(),
            self.play_frame(draws).status == (if self.world.cycle(draws).collision() {
                GameStatus::Over
            } else {
                self.status
            }),
    {
        self.world.lemma_cycle_keeps_steady(draws);
    }

    /// Only a collision ends a session, and the end is final. A session is
    /// over after a command only if it was over before; a session that is
    /// over stays so under every command but the one that closes it; and a
    /// closed session is changed by no command.
    pub proof fn lemma_commands_never_end(self, command: Command)
        ensures
            self.handle(command).status == GameStatus::Over ==> self.status == GameStatus::Over,
            self.status == GameStatus::Over && command != Command::Quit
                ==> self.handle(command).status == GameStatus::Over,
            self.status == GameStatus::Closed ==> self.handle(command) == self,
    {
    }
}

/// A playing session.
#[derive(Debug)]
pub struct Game {
    pub world: World,
    pub scores: Scores,
    pub status: GameStatus,
}

impl View for Game {
    type V = GameView;

    open spec fn view(&self) -> GameView {
        GameView { world: self.world@, scores: self.scores, status: self.status }
    }
}

impl Game {
    /// A session that is beginning, on a screen of the given size.
    pub fn new(width: u16, height: u16) -> (game: Game)
        requires
            height >= world::objects::trex::TREX_TOP,
        ensures
            game@ == GameView::spec_new(world::Screen { width, height }),
            (world::Screen { width, height }).playable() ==> game@.world.wf(),
    {
        Game {
            world: World::new(width, height),
            scores: Scores { highest: 0, current: 0 },
            status: GameStatus::Beginning,
        }
    }

    /// Applies what an input asks for.
    pub fn handle_input(&mut self, input: Input)
        ensures
            final(self)@ == old(self)@.handle(input.spec_command()),
            old(self)@.world.steady() ==> final(self)@.world.steady(),
    {
        self.handle(input.command());
    }

    /// Applies a command.
    pub fn handle(&mut self, command: Command)
        ensures
            final(self)@ == old(self)@.handle(command),
            old(self)@.world.steady() ==> final(self)@.world.steady(),
    {
        if self.status != GameStatus::Closed {
            self.status = self.status.after(command);
            if command == Command::Jump {
                self.world.objects.trex.jump();
            }
        }
    }

    /// Ends the session if the runner has hit a cactus.
    pub fn check_collision(&mut self)
        ensures
            final(self)@ == old(self)@.check_collision(),
    {
        if self.world.collision() {
            self.status = GameStatus::Over;
        }
    }

    /// Paints the runner red if the session is over.
    pub fn check_game_status(&mut self)
        ensures
            final(self)@ == old(self)@.check_game_status(),
    {
        match self.status {
            GameStatus::Over => {
                self.world.theme.trex = Color::Red;
            },
            _ => {},
        }
    }

    /// Plays one frame of a running session, drawing what the frame needs:
    /// the world advances by a frame, what scrolled off is dropped, and the
    /// session is over if the runner has hit a cactus.
    pub fn play_frame(&mut self)
        requires
            old(self)@.world.can_next_frame(),
        ensures
            exists|draws: FrameDraws| #[trigger]
                draws.valid() && final(self)@ == old(self)@.play_frame(draws),
            old(self)@.world.steady() ==> final(self)@.world.steady(),
    {
        self.world.next_frame();
        proof {
            if old(self)@.world.steady() {
                let draws = choose|draws: FrameDraws| #[trigger]
                    draws.valid() && self.world@ == old(self).world@.next_frame(draws);
                old(self)@.lemma_play_frame(draws);
            }
        }
        self.world.delete_first_frame();
        self.check_collision();
        self.check_game_status();
    }

    /// Plays one frame of a running session with the draws given.
    pub fn play_frame_with(&mut self, draws: &FrameDraws)
        requires
            draws.valid(),
            old(self)@.world.can_next_frame(),
        ensures
            final(self)@ == old(self)@.play_frame(*draws),
            old(self)@.world.steady() ==> final(self)@.world.steady(),
    {
        proof {
            if old(self)@.world.steady() {
                old(self)@.lemma_play_frame(*draws);
            }
        }
        self.world.next_frame_with(draws);
        self.world.delete_first_frame();
        self.check_collision();
        self.check_game_status();
    }
}

} // verus!
