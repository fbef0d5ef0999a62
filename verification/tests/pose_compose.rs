use framecore::pose::Pose;
use framecore::pose::QONE;
use framecore::pose::TMAX;

fn translation(tx: i64, ty: i64, tz: i64) -> Pose {
    Pose {
        tx,
        ty,
        tz,
        ..Pose::identity()
    }
}

#[test]
fn identity_is_neutral_for_composition() {
    let p = Pose {
        tx: 12345,
        ty: -999,
        tz: 42,
        qi: 100,
        qj: -200,
        qk: 300,
        qw: 65000,
    };
    assert_eq!(p.compose(&Pose::identity()), p);
    assert_eq!(Pose::identity().compose(&p), p);
}

#[test]
fn unrotated_translations_add() {
    let a = translation(100, 200, -300);
    let b = translation(50, -20, 3);
    assert_eq!(a.compose(&b), translation(150, 180, -297));
}

#[test]
fn half_turn_about_z_mirrors_the_following_translation() {
    // A unit quaternion (0, 0, 1, 0) is a half turn about the z axis:
    // it maps (x, y, z) to (-x, -y, z).
    let half_turn = Pose {
        qi: 0,
        qj: 0,
        qk: QONE,
        qw: 0,
        ..Pose::identity()
    };
    let step = translation(100, 40, 7);
    let composed = half_turn.compose(&step);
    assert_eq!((composed.tx, composed.ty, composed.tz), (-100, -40, 7));
    // The rotation part of the composition stays the half turn.
    assert_eq!(
        (composed.qi, composed.qj, composed.qk, composed.qw),
        (0, 0, QONE, 0)
    );
}

#[test]
fn two_half_turns_cancel() {
    let half_turn = Pose {
        qi: 0,
        qj: 0,
        qk: QONE,
        qw: 0,
        ..Pose::identity()
    };
    let full = half_turn.compose(&half_turn);
    // (0,0,1,0) * (0,0,1,0) = (0,0,0,-1): the same rotation as the
    // identity, written with the opposite sign.
    assert_eq!((full.qi, full.qj, full.qk, full.qw), (0, 0, 0, -QONE));
}

#[test]
fn out_of_range_components_are_clamped() {
    let wild = Pose {
        tx: i64::MAX,
        ty: i64::MIN,
        tz: 0,
        qi: i64::MAX,
        qj: 0,
        qk: 0,
        qw: i64::MAX,
    };
    let r = wild.compose(&Pose::identity());
    assert!(r.tx <= TMAX && r.tx >= -TMAX);
    assert!(r.ty <= TMAX && r.ty >= -TMAX);
    assert!(r.qi <= QONE && r.qi >= -QONE);
    assert_eq!(r.tx, TMAX);
    assert_eq!(r.ty, -TMAX);
    assert_eq!(r.qi, QONE);
    assert_eq!(r.qw, QONE);
}
