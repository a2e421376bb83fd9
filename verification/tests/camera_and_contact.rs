use whiskerwhomp::camera::CameraRig;
use whiskerwhomp::contact::{ContactChange, GroundContactTracker, PhysicsFeedback};
use whiskerwhomp::fixed::Fixed;
use whiskerwhomp::vector::Vector2;

fn camera() -> CameraRig {
    CameraRig {
        position: Vector2::new(Fixed::zero(), Fixed::from_int(7)),
        deadzone_half_width: Fixed::from_int(512),
        edge_margin: Fixed::from_int(100),
    }
}

#[test]
fn camera_dead_zone() {
    let mut c = camera();
    assert_eq!(c.bounds(), (Fixed::from_int(-412), Fixed::from_int(412)));
    c.follow(Fixed::from_int(417));
    assert_eq!(c.position.x, Fixed::from_int(5));
    assert_eq!(c.position.y, Fixed::from_int(7));
    let mut d = camera();
    d.follow(Fixed::from_int(400));
    assert_eq!(d, camera());
}

#[test]
fn the_camera_follows_to_the_left_too() {
    let mut c = camera();
    c.follow(Fixed::from_int(-420));
    assert_eq!(c.position.x, Fixed::from_int(-8));
    assert_eq!(c.bounds(), (Fixed::from_int(-420), Fixed::from_int(404)));
}

#[test]
fn the_camera_rests_on_the_bounds() {
    let mut c = camera();
    c.follow(Fixed::from_int(412));
    assert_eq!(c, camera());
    c.follow(Fixed::from_int(-412));
    assert_eq!(c, camera());
    c.follow(Fixed::from_raw(412_000_001));
    assert_eq!(c.position.x.raw(), 1);
}

#[test]
fn a_camera_that_has_followed_is_at_rest() {
    let mut c = camera();
    c.follow(Fixed::from_int(1000));
    assert_eq!(c.position.x, Fixed::from_int(588));
    let after = c;
    c.follow(Fixed::from_int(1000));
    assert_eq!(c, after);
}

#[test]
fn the_camera_stops_at_the_ends_of_the_range() {
    let mut c = camera();
    c.edge_margin = Fixed::from_int(600);
    c.follow(Fixed::from_raw(i64::MAX));
    assert_eq!(c.position.x.raw(), i64::MAX);
    let mut d = camera();
    d.edge_margin = Fixed::from_int(600);
    d.follow(Fixed::from_raw(i64::MIN));
    assert_eq!(d.position.x.raw(), -i64::MAX);
    let mut e = camera();
    e.position.x = Fixed::from_raw(i64::MAX);
    assert_eq!(e.bounds().1.raw(), i64::MAX);
    assert_eq!(e.bounds().0.raw(), i64::MAX - 412_000_000);
}

#[test]
fn a_margin_wider_than_the_view_goes_by_the_right_bound_first() {
    let mut c = camera();
    c.edge_margin = Fixed::from_int(600);
    assert_eq!(c.bounds(), (Fixed::from_int(88), Fixed::from_int(-88)));
    c.follow(Fixed::zero());
    assert_eq!(c.position.x, Fixed::from_int(88));
}

#[test]
fn without_a_subject_the_camera_stays() {
    let mut c = camera();
    c.track(None);
    assert_eq!(c, camera());
    c.track(Some(Vector2::new(Fixed::from_int(417), Fixed::from_int(-90))));
    assert_eq!(c.position, Vector2::new(Fixed::from_int(5), Fixed::from_int(7)));
}

#[test]
fn the_tracker_holds_the_latest_report() {
    let mut t = GroundContactTracker::new(true);
    assert!(t.grounded);
    assert_eq!(t.applied_translation, Vector2::zero());
    let up = Vector2::new(Fixed::from_int(3), Fixed::from_int(1));
    let change = t.sample(PhysicsFeedback { grounded: false, applied_translation: up });
    assert_eq!(change, ContactChange::LeftGround);
    assert!(!t.grounded);
    assert_eq!(t.applied_translation, up);
    let change = t.sample(PhysicsFeedback { grounded: false, applied_translation: up });
    assert_eq!(change, ContactChange::Unchanged);
    let down = Vector2::new(Fixed::zero(), Fixed::from_int(-2));
    let change = t.sample(PhysicsFeedback { grounded: true, applied_translation: down });
    assert_eq!(change, ContactChange::Landed);
    assert!(t.grounded);
    assert_eq!(t.applied_translation, down);
    let change = t.sample(PhysicsFeedback { grounded: true, applied_translation: down });
    assert_eq!(change, ContactChange::Unchanged);
}
