use renderer_rust::{InputEvent, InputState, KeyCode};

const ALL: [InputEvent; 6] = [
    InputEvent::MoveForward,
    InputEvent::MoveBackward,
    InputEvent::StrafeLeft,
    InputEvent::StrafeRight,
    InputEvent::Ascend,
    InputEvent::Descend,
];

#[test]
fn new_state_holds_nothing() {
    let state = InputState::new();
    for e in ALL {
        assert!(!state.index(e));
    }
}

#[test]
fn writing_one_movement_changes_no_other() {
    for target in ALL {
        let mut state = InputState::new();
        *state.index_mut(target) = true;
        for e in ALL {
            assert_eq!(state.index(e), e == target);
        }
        *state.index_mut(target) = false;
        for e in ALL {
            assert!(!state.index(e));
        }
    }
}

#[test]
fn index_mut_shows_the_value_held() {
    let mut state = InputState::new();
    *state.index_mut(InputEvent::Ascend) = true;
    assert!(*state.index_mut(InputEvent::Ascend));
    assert!(!*state.index_mut(InputEvent::Descend));
}

#[test]
fn keys_are_bound_as_documented() {
    assert_eq!(InputEvent::from_key(KeyCode::KeyW), Some(InputEvent::MoveForward));
    assert_eq!(InputEvent::from_key(KeyCode::KeyS), Some(InputEvent::MoveBackward));
    assert_eq!(InputEvent::from_key(KeyCode::KeyA), Some(InputEvent::StrafeLeft));
    assert_eq!(InputEvent::from_key(KeyCode::KeyD), Some(InputEvent::StrafeRight));
    assert_eq!(InputEvent::from_key(KeyCode::Space), Some(InputEvent::Ascend));
    assert_eq!(InputEvent::from_key(KeyCode::KeyC), Some(InputEvent::Descend));
    assert_eq!(InputEvent::from_key(KeyCode::Unbound), None);
}
