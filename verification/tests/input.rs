use tetris::game::Action;
use tetris::input::{action_for, actions_for, Key, KeyStroke};

#[test]
fn keys_and_what_they_ask_for() {
    assert_eq!(action_for(Key::Esc), Action::Exit);
    assert_eq!(action_for(Key::Down), Action::MoveDown);
    assert_eq!(action_for(Key::Left), Action::MoveLeft);
    assert_eq!(action_for(Key::Right), Action::MoveRight);
    assert_eq!(action_for(Key::Char('q')), Action::RotateCounterClockwise);
    assert_eq!(action_for(Key::Char('e')), Action::RotateClockwise);
    assert_eq!(action_for(Key::Char(' ')), Action::Drop);
    assert_eq!(action_for(Key::Char('p')), Action::TogglePause);
    assert_eq!(action_for(Key::Char('Q')), Action::Idle);
    assert_eq!(action_for(Key::Char('x')), Action::Idle);
    assert_eq!(action_for(Key::Other), Action::Idle);
}

#[test]
fn only_released_keys_count_and_keep_their_order() {
    let strokes = vec![
        KeyStroke { key: Key::Left, released: false },
        KeyStroke { key: Key::Left, released: true },
        KeyStroke { key: Key::Char('e'), released: true },
        KeyStroke { key: Key::Down, released: false },
        KeyStroke { key: Key::Other, released: true },
        KeyStroke { key: Key::Esc, released: true },
    ];
    assert_eq!(
        actions_for(&strokes),
        vec![Action::MoveLeft, Action::RotateClockwise, Action::Idle, Action::Exit]
    );
    assert_eq!(actions_for(&Vec::new()), Vec::<Action>::new());
    assert_eq!(
        actions_for(&vec![KeyStroke { key: Key::Down, released: false }]),
        Vec::<Action>::new()
    );
}
