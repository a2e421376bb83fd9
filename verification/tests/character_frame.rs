use whiskerwhomp::animation::{AnimationSet, AnimationState};
use whiskerwhomp::character::{
    update_direction, update_sprite_direction, Character, Direction, Resolved, Velocity,
};
use whiskerwhomp::contact::{ContactChange, PhysicsFeedback};
use whiskerwhomp::fixed::Fixed;
use whiskerwhomp::input::Intents;
use whiskerwhomp::easing::ControlPoints;
use whiskerwhomp::movement::{Jump, JumpProfile, JumpState};
use whiskerwhomp::vector::Vector2;

fn frames() -> AnimationSet {
    AnimationSet::new(
        vec![0, 1, 2, 3],
        vec![32, 33, 34, 35, 36, 37, 38, 39, 40],
        vec![64, 65, 66, 67, 68, 69, 70],
        70_000,
    )
    .unwrap()
}

fn profile() -> JumpProfile {
    JumpProfile {
        duration: 200_000,
        max_height: Fixed::from_int(4500),
        easing: ControlPoints {
            p0: Fixed::zero(),
            p1: Fixed::from_raw(9_000),
            p2: Fixed::from_raw(9_000),
            p3: Fixed::zero(),
        },
    }
}

fn player(set: &AnimationSet) -> Character {
    Character::new(
        Vector2::new(Fixed::from_int(-412), Fixed::from_int(-60)),
        Velocity { x: Fixed::from_int(400), y: Fixed::from_int(850) },
        Direction::Right,
        set,
    )
}

fn keys(move_left: bool, move_right: bool, jump: bool) -> Intents {
    Intents { move_left, move_right, jump }
}

fn report(grounded: bool, applied: Vector2) -> PhysicsFeedback {
    PhysicsFeedback { grounded, applied_translation: applied }
}

#[test]
fn facing_stickiness() {
    let after_right = update_direction(Direction::Left, Fixed::from_int(40));
    assert_eq!(after_right, Direction::Right);
    assert_eq!(update_direction(after_right, Fixed::zero()), Direction::Right);
    let after_left = update_direction(Direction::Right, Fixed::from_int(-40));
    assert_eq!(after_left, Direction::Left);
    assert_eq!(update_direction(after_left, Fixed::zero()), Direction::Left);
    assert_eq!(update_direction(Direction::Right, Fixed::from_raw(-1)), Direction::Left);
    assert_eq!(update_direction(Direction::Left, Fixed::from_raw(1)), Direction::Right);
}

#[test]
fn the_sprite_is_mirrored_when_facing_left() {
    assert!(!update_sprite_direction(Direction::Right));
    assert!(update_sprite_direction(Direction::Left));
}

#[test]
fn a_new_character_rests_idle_on_the_ground() {
    let set = frames();
    let c = player(&set);
    assert_eq!(c.jump_state, JumpState::Grounded);
    assert_eq!(c.animation.state(), AnimationState::Idle);
    assert_eq!(c.animation.sprite_index(), 0);
    assert_eq!(c.facing, Direction::Right);
    assert!(!c.contact.grounded);
    assert_eq!(c.requested, Vector2::zero());
    assert_eq!(c.position, Vector2::new(Fixed::from_int(-412), Fixed::from_int(-60)));
}

#[test]
fn a_frame_of_walking() {
    let set = frames();
    let p = profile();
    let mut c = player(&set);
    let asked = c.drive(keys(true, false, false), &p, 100_000);
    assert_eq!(asked, Vector2::new(Fixed::from_int(-40), Fixed::from_raw(-56_666_666)));
    assert_eq!(c.requested, asked);
    assert_eq!(c.jump_state, JumpState::Grounded);
    assert_eq!(c.facing, Direction::Right);
    let applied = Vector2::new(Fixed::from_int(-40), Fixed::zero());
    let at = Vector2::new(Fixed::from_int(-452), Fixed::from_int(-60));
    let change = c.settle(report(true, applied), at, &set, 100_000);
    assert_eq!(change, ContactChange::Landed);
    assert_eq!(c.position, at);
    assert_eq!(c.contact.applied_translation, applied);
    assert_eq!(c.facing, Direction::Left);
    assert_eq!(c.animation.state(), AnimationState::Walking);
    assert_eq!(c.animation.sprite_index(), 33);
    assert_eq!(c.jump_state, JumpState::Grounded);
    assert_eq!(
        c.resolved(),
        Resolved { position: at, facing: Direction::Left, sprite_index: 33 }
    );
    // Standing still again: idle, and still facing left.
    c.drive(keys(false, false, false), &p, 100_000);
    c.settle(report(true, Vector2::zero()), at, &set, 100_000);
    assert_eq!(c.facing, Direction::Left);
    assert_eq!(c.animation.state(), AnimationState::Idle);
    assert_eq!(c.animation.sprite_index(), 1);
}

#[test]
fn a_whole_jump() {
    let set = frames();
    let p = profile();
    let mut c = player(&set);
    let at = c.position;
    let jump_key = keys(false, false, true);
    // Before the first report of contact the key does nothing.
    let asked = c.drive(jump_key, &p, 50_000);
    assert_eq!(asked.y.raw(), -28_333_333);
    assert_eq!(c.jump_state, JumpState::Grounded);
    let change = c.settle(report(true, Vector2::zero()), at, &set, 50_000);
    assert_eq!(change, ContactChange::Landed);
    // The jump begins; the curve starts at zero height.
    let asked = c.drive(jump_key, &p, 50_000);
    assert_eq!(asked, Vector2::zero());
    assert_eq!(c.jump_state, JumpState::Rising(Jump { elapsed: 50_000 }));
    let change = c.settle(report(false, asked), at, &set, 50_000);
    assert_eq!(change, ContactChange::LeftGround);
    assert_eq!(c.jump_state, JumpState::Rising(Jump { elapsed: 50_000 }));
    assert_eq!(c.animation.state(), AnimationState::Jumping);
    // Holding the key in the air changes nothing.
    let asked = c.drive(jump_key, &p, 50_000);
    assert_eq!(asked.y.raw(), 22_779_000);
    assert_eq!(c.jump_state, JumpState::Rising(Jump { elapsed: 100_000 }));
    c.settle(report(false, asked), at, &set, 50_000);
    let asked = c.drive(jump_key, &p, 50_000);
    assert_eq!(asked.y.raw(), 30_375_000);
    c.settle(report(false, asked), at, &set, 50_000);
    let asked = c.drive(jump_key, &p, 50_000);
    assert_eq!(asked.y.raw(), 22_779_000);
    assert_eq!(c.jump_state, JumpState::Rising(Jump { elapsed: 200_000 }));
    c.settle(report(false, asked), at, &set, 50_000);
    // The duration has passed: the rise is over.
    let asked = c.drive(jump_key, &p, 50_000);
    assert_eq!(asked.y.raw(), 0);
    assert_eq!(c.jump_state, JumpState::Falling);
    c.settle(report(false, asked), at, &set, 50_000);
    assert_eq!(c.jump_state, JumpState::Falling);
    // The fall; still no contact reported, so the key is ignored.
    let asked = c.drive(jump_key, &p, 50_000);
    assert_eq!(asked.y.raw(), -28_333_333);
    assert_eq!(c.jump_state, JumpState::Falling);
    let change = c.settle(report(true, asked), at, &set, 50_000);
    assert_eq!(change, ContactChange::Landed);
    assert_eq!(c.jump_state, JumpState::Grounded);
    assert_eq!(c.animation.state(), AnimationState::Idle);
    // Back on the ground the key starts the next jump.
    c.drive(jump_key, &p, 50_000);
    assert_eq!(c.jump_state, JumpState::Rising(Jump { elapsed: 50_000 }));
}

#[test]
fn a_jump_asked_for_one_frame_after_leaving_the_ground_is_refused() {
    let set = frames();
    let p = profile();
    let mut c = player(&set);
    let at = c.position;
    let asked = c.drive(keys(false, true, false), &p, 16_000);
    c.settle(report(true, asked), at, &set, 16_000);
    assert_eq!(c.jump_state, JumpState::Grounded);
    let asked = c.drive(keys(false, true, false), &p, 16_000);
    let change = c.settle(report(false, asked), at, &set, 16_000);
    assert_eq!(change, ContactChange::LeftGround);
    assert_eq!(c.jump_state, JumpState::Falling);
    c.drive(keys(false, true, true), &p, 16_000);
    assert_eq!(c.jump_state, JumpState::Falling);
}
