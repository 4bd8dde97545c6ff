//! What the keyboard means to the character: arrow keys move it, releasing
//! one stops it, escape or a window close ends the run.

use crate::character::{Character, CharacterModel};
use crate::game::TerminationSignal;
use crate::world::Direction;
use vstd::prelude::*;

verus! {

/// The keys that matter, and one name for all the others.
#[derive(Debug, Clone, Copy, PartialEq, Eq, Structural)]
pub enum Key {
    Up,
    Down,
    Left,
    Right,
    Escape,
    Other,
}

/// One event from the input source.
#[derive(Debug, Clone, Copy, PartialEq, Eq, Structural)]
pub enum InputEvent {
    /// The window was asked to close.
    Quit,
    /// A key went down.
    KeyDown(Key),
    /// A key came up.
    KeyUp(Key),
    /// Anything else.
    Other,
}

/// What an input event asks for.
#[derive(Debug, Clone, Copy, PartialEq, Eq, Structural)]
pub enum Command {
    /// End the run.
    Quit,
    /// Take one physics step heading this way.
    Move(Direction),
    /// Come to rest.
    Halt,
    /// Nothing.
    Ignore,
}

impl Key {
    /// The heading that an arrow key stands for.
    pub open spec fn heading(self) -> Option<Direction> {
        match self {
            Key::Up => Some(Direction::North),
            Key::Down => Some(Direction::South),
            Key::Left => Some(Direction::West),
            Key::Right => Some(Direction::East),
            Key::Escape | Key::Other => None,
        }
    }

    /// The heading that an arrow key stands for.
    pub fn direction(&self) -> (heading: Option<Direction>)
        ensures
            heading == self.heading(),
    {
        match self {
            Key::Up => Some(Direction::North),
            Key::Down => Some(Direction::South),
            Key::Left => Some(Direction::West),
            Key::Right => Some(Direction::East),
            Key::Escape | Key::Other => None,
        }
    }
}

impl InputEvent {
    /// A window close or escape going down quits; an arrow key going down
    /// moves; an arrow key coming up halts; nothing else matters.
    pub open spec fn meaning(self) -> Command {
        match self {
            InputEvent::Quit => Command::Quit,
            InputEvent::KeyDown(Key::Escape) => Command::Quit,
            InputEvent::KeyDown(key) => match key.heading() {
                Some(direction) => Command::Move(direction),
                None => Command::Ignore,
            },
            InputEvent::KeyUp(key) => if key.heading() is Some {
                Command::Halt
            } else {
                Command::Ignore
            },
            InputEvent::Other => Command::Ignore,
        }
    }

    /// What this event asks for.
    pub fn command(&self) -> (command: Command)
        ensures
            command == self.meaning(),
    {
        match self {
            InputEvent::Quit => Command::Quit,
            InputEvent::KeyDown(Key::Escape) => Command::Quit,
            InputEvent::KeyDown(key) => match key.direction() {
                Some(direction) => Command::Move(direction),
                None => Command::Ignore,
            },
            InputEvent::KeyUp(key) => match key.direction() {
                Some(_) => Command::Halt,
                None => Command::Ignore,
            },
            InputEvent::Other => Command::Ignore,
        }
    }
}

/// The character after `command`, with `dt` as the time step of a move.
/// Quitting leaves it as it is.
pub open spec fn commanded(character: CharacterModel, command: Command, dt: int) -> CharacterModel {
    match command {
        Command::Move(direction) => character.advanced(direction, dt),
        Command::Halt => character.stopped(),
        Command::Quit | Command::Ignore => character,
    }
}

/// The character after the events of one physics step, taken in order up to
/// the first that quits, and whether one of them did.
pub open spec fn after_events(character: CharacterModel, events: Seq<InputEvent>, dt: int) -> (
    CharacterModel,
    bool,
)
    decreases events.len(),
{
    if events.len() == 0 {
        (character, false)
    } else if events[0].meaning() is Quit {
        (character, true)
    } else {
        after_events(commanded(character, events[0].meaning(), dt), events.skip(1), dt)
    }
}

/// Carries out one input event on the player.
pub fn apply_event(player: &mut Character, event: InputEvent, dt: i64) -> (outcome: Result<
    (),
    TerminationSignal,
>)
    ensures
        final(player)@ == commanded(old(player)@, event.meaning(), dt as int),
        event.meaning() is Quit ==> outcome == Err::<(), TerminationSignal>(
            TerminationSignal::Quit,
        ),
        !(event.meaning() is Quit) ==> outcome is Ok,
{
    match event.command() {
        Command::Quit => {
            return Err(TerminationSignal::Quit);
        },
        Command::Move(direction) => {
            player.move_character(direction, dt);
        },
        Command::Halt => {
            player.stop();
        },
        Command::Ignore => {},
    }
    Ok(())
}

/// One physics step of the game: carries out the pending input events on the
/// player, in order. The first event that quits ends the step at once; the
/// events after it are not looked at.
pub fn update(player: &mut Character, events: &[InputEvent], dt: i64) -> (outcome: Result<
    (),
    TerminationSignal,
>)
    ensures
        final(player)@ == after_events(old(player)@, events@, dt as int).0,
        after_events(old(player)@, events@, dt as int).1 ==> outcome == Err::<
            (),
            TerminationSignal,
        >(TerminationSignal::Quit),
        !after_events(old(player)@, events@, dt as int).1 ==> outcome is Ok,
{
    let mut index: usize = 0;
    assert(events@.skip(0) == events@);
    while index < events.len()
        invariant
            index <= events.len(),
            after_events(old(player)@, events@, dt as int) == after_events(
                player@,
                events@.skip(index as int),
                dt as int,
            ),
        decreases events.len() - index,
    {
        assert(events@.skip(index as int)[0] == events@[index as int]);
        assert(events@.skip(index as int).skip(1) == events@.skip(index as int + 1));
        let outcome = apply_event(player, events[index], dt);
        if outcome.is_err() {
            return outcome;
        }
        index += 1;
    }
    Ok(())
}

} // verus!
