use vstd::prelude::*;
use crate::game_context::{GameContext, GameState, PlayerDirection, toggled, unit_vector_spec};

verus! {

/// The keys the game reacts to: four direction keys and the pause key.
#[derive(Clone, Copy, Debug, PartialEq, Eq, Structural)]
pub enum Key {
    Up,
    Down,
    Left,
    Right,
    Pause,
}

/// The number of rendered frames per tick of the game.
pub const FRAMES_PER_TICK: u32 = 3;

/// The direction a direction key asks for; `None` for the pause key.
pub open spec fn key_direction(k: Key) -> Option<PlayerDirection> {
    match k {
        Key::Up => Some(PlayerDirection::Up),
        Key::Down => Some(PlayerDirection::Down),
        Key::Left => Some(PlayerDirection::Left),
        Key::Right => Some(PlayerDirection::Right),
        Key::Pause => None,
    }
}

/// Whether pressing `key` after `last` turns the snake: a direction key is
/// ignored when it repeats the last accepted key or reverses it.
pub open spec fn turn_allowed(last: Key, key: Key) -> bool {
    match key {
        Key::Up => last != Key::Down && last != Key::Up,
        Key::Down => last != Key::Up && last != Key::Down,
        Key::Left => last != Key::Right && last != Key::Left,
        Key::Right => last != Key::Left && last != Key::Right,
        Key::Pause => false,
    }
}

/// The game after `key` is pressed with `last` as the last accepted key.
pub open spec fn after_key(context: GameContext, last: Key, key: Key) -> GameContext {
    if key == Key::Pause {
        GameContext { state: toggled(context.state), ..context }
    } else if turn_allowed(last, key) {
        GameContext { player_direction: key_direction(key)->Some_0, ..context }
    } else {
        context
    }
}

/// Turns key presses into commands on a game, remembering the last key
/// pressed so that a direct reversal of it is refused.
pub struct InputController {
    pub last_key: Key,
}

impl InputController {
    /// A controller whose last key is `Down`.
    pub fn new() -> (r: InputController)
        ensures
            r.last_key == Key::Down,
    {
        InputController { last_key: Key::Down }
    }

    /// Handles one key press: the pause key toggles the lifecycle; a
    /// direction key sets the direction unless it repeats or reverses the
    /// last key. Either way the key becomes the last key.
    pub fn key_down(&mut self, context: &mut GameContext, key: Key)
        ensures
            final(self).last_key == key,
            *final(context) == after_key(*old(context), old(self).last_key, key),
    {
        match key {
            Key::Up => {
                if self.last_key != Key::Down && self.last_key != Key::Up {
                    context.move_up();
                }
            },
            Key::Left => {
                if self.last_key != Key::Right && self.last_key != Key::Left {
                    context.move_left();
                }
            },
            Key::Down => {
                if self.last_key != Key::Up && self.last_key != Key::Down {
                    context.move_down();
                }
            },
            Key::Right => {
                if self.last_key != Key::Left && self.last_key != Key::Right {
                    context.move_right();
                }
            },
            Key::Pause => {
                context.toggle_pause();
            },
        }
        self.last_key = key;
    }
}

/// Counts one rendered frame. Returns the new frame count and whether the
/// game is due a tick: every `FRAMES_PER_TICK`-th frame is, and the count
/// then starts again from zero.
pub fn next_frame(frame_counter: u32) -> (r: (u32, bool))
    requires
        frame_counter < u32::MAX,
    ensures
        r.1 == ((frame_counter + 1) % FRAMES_PER_TICK as int == 0),
        r.0 == if r.1 { 0 } else { frame_counter + 1 },
{
    let count = frame_counter + 1;
    if count % FRAMES_PER_TICK == 0 {
        (0, true)
    } else {
        (count, false)
    }
}

/// A direction key that reverses the last accepted one is refused, and one
/// at a right angle to it is accepted, so it sets the direction.
pub proof fn lemma_reversal_suppressed(context: GameContext, last: Key, key: Key)
    requires
        key_direction(last) is Some,
        key_direction(key) is Some,
    ensures
        ({
            let a = unit_vector_spec(key_direction(last)->Some_0);
            let b = unit_vector_spec(key_direction(key)->Some_0);
            &&& a.0 + b.0 == 0 && a.1 + b.1 == 0 ==> after_key(context, last, key) == context
            &&& a.0 * b.0 + a.1 * b.1 == 0 ==> after_key(context, last, key) == (GameContext {
                player_direction: key_direction(key)->Some_0,
                ..context
            })
        }),
{
    match last {
        Key::Up => match key {
            Key::Up => {},
            Key::Down => {},
            Key::Left => {},
            Key::Right => {},
            Key::Pause => {},
        },
        Key::Down => match key {
            Key::Up => {},
            Key::Down => {},
            Key::Left => {},
            Key::Right => {},
            Key::Pause => {},
        },
        Key::Left => match key {
            Key::Up => {},
            Key::Down => {},
            Key::Left => {},
            Key::Right => {},
            Key::Pause => {},
        },
        Key::Right => match key {
            Key::Up => {},
            Key::Down => {},
            Key::Left => {},
            Key::Right => {},
            Key::Pause => {},
        },
        Key::Pause => {},
    }
}

} // verus!
