use vstd::prelude::*;
use crate::game::Action;

verus! {

/// A key of the keyboard, as far as the game tells keys apart.
#[derive(Debug, Clone, Copy, PartialEq, Eq, Structural)]
pub enum Key {
    Esc,
    Down,
    Left,
    Right,
    Char(char),
    Other,
}

/// Something that happened to a key.
#[derive(Debug, Clone, Copy, PartialEq, Eq, Structural)]
pub struct KeyStroke {
    /// The key.
    pub key: Key,
    /// Whether the key was let go; else it was pressed or is held down.
    pub released: bool,
}

/// What a key asks for: the arrows move the piece, `q` and `e` turn it counter-clockwise and
/// clockwise, the space bar drops it, `p` switches the pause, and Esc leaves the game. Every
/// other key asks for nothing.
pub open spec fn spec_action_for(key: Key) -> Action {
    match key {
        Key::Esc => Action::Exit,
        Key::Down => Action::MoveDown,
        Key::Left => Action::MoveLeft,
        Key::Right => Action::MoveRight,
        Key::Char(c) => if c == 'q' {
            Action::RotateCounterClockwise
        } else if c == 'e' {
            Action::RotateClockwise
        } else if c == ' ' {
            Action::Drop
        } else if c == 'p' {
            Action::TogglePause
        } else {
            Action::Idle
        },
        Key::Other => Action::Idle,
    }
}

/// The actions that a sequence of key events asks for: one for each key that was let go, in
/// the order of the events.
pub open spec fn spec_actions_for(strokes: Seq<KeyStroke>) -> Seq<Action> {
    strokes.filter(|stroke: KeyStroke| stroke.released).map_values(
        |stroke: KeyStroke| spec_action_for(stroke.key),
    )
}

/// What a key asks for.
pub fn action_for(key: Key) -> (action: Action)
    ensures
        action == spec_action_for(key),
{
    match key {
        Key::Esc => Action::Exit,
        Key::Down => Action::MoveDown,
        Key::Left => Action::MoveLeft,
        Key::Right => Action::MoveRight,
        Key::Char(c) => {
            if c == 'q' {
                Action::RotateCounterClockwise
            } else if c == 'e' {
                Action::RotateClockwise
            } else if c == ' ' {
                Action::Drop
            } else if c == 'p' {
                Action::TogglePause
            } else {
                Action::Idle
            }
        },
        Key::Other => Action::Idle,
    }
}

/// The batch of actions that the key events since the last tick ask for: one for each key
/// that was let go, in the order of the events.
pub fn actions_for(strokes: &Vec<KeyStroke>) -> (actions: Vec<Action>)
    ensures
        actions@ == spec_actions_for(strokes@),
{
    let mut actions: Vec<Action> = Vec::new();
    let mut i: usize = 0;
    proof {
        reveal(Seq::filter);
        assert(strokes@.take(0) =~= Seq::empty());
        assert(actions@ =~= spec_actions_for(strokes@.take(0)));
    }
    while i < strokes.len()
        invariant
            i <= strokes@.len(),
            actions@ == spec_actions_for(strokes@.take(i as int)),
        decreases strokes@.len() - i,
    {
        proof {
            reveal(Seq::filter);
            assert(strokes@.take(i + 1).drop_last() =~= strokes@.take(i as int));
        }
        let stroke = strokes[i];
        if stroke.released {
            actions.push(action_for(stroke.key));
        }
        i += 1;
        assert(actions@ =~= spec_actions_for(strokes@.take(i as int)));
    }
    assert(strokes@.take(i as int) =~= strokes@);
    actions
}

} // verus!
