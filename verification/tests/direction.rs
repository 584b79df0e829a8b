use last_of_pipisenok::controls::ControlledAction;
use last_of_pipisenok::controls::ControlledAction::{Attack, MoveDown, MoveLeft, MoveRight, MoveUp, NoAction, Run};
use last_of_pipisenok::movement::{Direction, MoveEndEvent, MoveEvent, StepVec};

fn resolve(actions: &[ControlledAction]) -> Direction {
    Direction::from_actions(&actions.to_vec())
}

#[test]
fn up_and_right_resolve_to_up_right() {
    assert_eq!(resolve(&[MoveUp, MoveRight]), Direction::UpRight);
    assert_eq!(resolve(&[MoveRight, MoveUp]), Direction::UpRight);
}

#[test]
fn down_and_left_resolve_to_down_left() {
    assert_eq!(resolve(&[MoveDown, MoveLeft]), Direction::DownLeft);
}

#[test]
fn down_and_right_resolve_to_down_right() {
    assert_eq!(resolve(&[MoveDown, MoveRight]), Direction::DownRight);
}

#[test]
fn up_and_left_resolve_to_up_left() {
    assert_eq!(resolve(&[MoveUp, MoveLeft]), Direction::UpLeft);
}

#[test]
fn no_action_resolves_to_zero() {
    assert_eq!(resolve(&[]), Direction::Zero);
}

#[test]
fn single_moves_resolve_to_their_direction() {
    assert_eq!(resolve(&[MoveUp]), Direction::Up);
    assert_eq!(resolve(&[MoveDown]), Direction::Down);
    assert_eq!(resolve(&[MoveLeft]), Direction::Left);
    assert_eq!(resolve(&[MoveRight]), Direction::Right);
}

#[test]
fn actions_that_are_no_moves_resolve_to_zero() {
    assert_eq!(resolve(&[Run, Attack, NoAction]), Direction::Zero);
    assert_eq!(resolve(&[Run, MoveLeft]), Direction::Left);
}

#[test]
fn three_keys_follow_the_order_of_the_rules() {
    assert_eq!(resolve(&[MoveUp, MoveDown, MoveLeft]), Direction::DownLeft);
    assert_eq!(resolve(&[MoveUp, MoveDown, MoveRight]), Direction::UpRight);
    assert_eq!(resolve(&[MoveUp, MoveLeft, MoveRight]), Direction::UpRight);
    assert_eq!(resolve(&[MoveDown, MoveLeft, MoveRight]), Direction::DownLeft);
    assert_eq!(resolve(&[MoveUp, MoveDown, MoveLeft, MoveRight]), Direction::UpRight);
}

#[test]
fn opposite_keys_do_not_cancel() {
    assert_eq!(resolve(&[MoveUp, MoveDown]), Direction::Up);
    assert_eq!(resolve(&[MoveLeft, MoveRight]), Direction::Left);
}

#[test]
fn repeated_actions_count_once() {
    assert_eq!(resolve(&[MoveUp, MoveUp, MoveUp]), Direction::Up);
}

#[test]
fn same_input_gives_the_same_direction() {
    let actions = vec![MoveDown, Run, MoveRight];
    assert_eq!(Direction::from_actions(&actions), Direction::from_actions(&actions));
    assert_eq!(Direction::from_actions(&actions), Direction::DownRight);
}

#[test]
fn steps_of_the_fixed_directions() {
    let step = |x, y| Some(StepVec { x, y, z: 0 });
    assert_eq!(Direction::Up.get_direction_vec(), step(0, 1));
    assert_eq!(Direction::Down.get_direction_vec(), step(0, -1));
    assert_eq!(Direction::Right.get_direction_vec(), step(1, 0));
    assert_eq!(Direction::Left.get_direction_vec(), step(-1, 0));
    assert_eq!(Direction::UpRight.get_direction_vec(), step(1, 1));
    assert_eq!(Direction::UpLeft.get_direction_vec(), step(-1, 1));
    assert_eq!(Direction::DownRight.get_direction_vec(), step(1, -1));
    assert_eq!(Direction::DownLeft.get_direction_vec(), step(-1, -1));
    assert_eq!(Direction::Zero.get_direction_vec(), step(0, 0));
}

#[test]
fn random_direction_has_no_fixed_steps() {
    assert_eq!(Direction::Random.get_direction_vec(), None);
}

#[test]
fn steps_from_actions_sum_the_axes() {
    let steps = |actions: &[ControlledAction]| Direction::vec_from_actions(&actions.to_vec());
    assert_eq!(steps(&[MoveUp, MoveRight]), StepVec { x: 1, y: 1, z: 0 });
    assert_eq!(steps(&[MoveDown, MoveLeft]), StepVec { x: -1, y: -1, z: 0 });
    assert_eq!(steps(&[MoveDown, MoveRight]), StepVec { x: 1, y: -1, z: 0 });
    assert_eq!(steps(&[MoveUp, MoveLeft]), StepVec { x: -1, y: 1, z: 0 });
    assert_eq!(steps(&[MoveUp]), StepVec { x: 0, y: 1, z: 0 });
    assert_eq!(steps(&[MoveDown]), StepVec { x: 0, y: -1, z: 0 });
    assert_eq!(steps(&[MoveLeft]), StepVec { x: -1, y: 0, z: 0 });
    assert_eq!(steps(&[MoveRight]), StepVec { x: 1, y: 0, z: 0 });
    assert_eq!(steps(&[]), StepVec { x: 0, y: 0, z: 0 });
    assert_eq!(steps(&[Attack]), StepVec { x: 0, y: 0, z: 0 });
}

#[test]
fn steps_from_actions_agree_with_the_resolved_direction() {
    let sets: Vec<Vec<ControlledAction>> = vec![
        vec![],
        vec![MoveUp, MoveDown, MoveLeft],
        vec![MoveRight, MoveUp, Run],
        vec![MoveLeft, MoveRight],
        vec![MoveDown],
    ];
    for actions in sets.iter() {
        let direction = Direction::from_actions(actions);
        assert_eq!(Some(Direction::vec_from_actions(actions)), direction.get_direction_vec());
    }
}

#[test]
fn leftward_directions_are_mirrored() {
    assert!(Direction::Left.is_neg_x_axes());
    assert!(Direction::UpLeft.is_neg_x_axes());
    assert!(Direction::DownLeft.is_neg_x_axes());
    assert!(!Direction::Right.is_neg_x_axes());
    assert!(!Direction::UpRight.is_neg_x_axes());
    assert!(!Direction::DownRight.is_neg_x_axes());
    assert!(!Direction::Up.is_neg_x_axes());
    assert!(!Direction::Down.is_neg_x_axes());
    assert!(!Direction::Zero.is_neg_x_axes());
    assert!(!Direction::Random.is_neg_x_axes());
}

#[test]
fn default_direction_is_zero() {
    assert_eq!(Direction::default(), Direction::Zero);
}

#[test]
fn move_event_keeps_its_parts() {
    let event = MoveEvent::new(7, Direction::UpLeft, 2, 200);
    assert_eq!(event, MoveEvent { entity: 7, direction: Direction::UpLeft, acceleration: 2, speed: 200 });
    assert_eq!(MoveEndEvent { entity: 7 }.entity, 7);
}
