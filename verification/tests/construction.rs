use cframe::construct::{
    euler_from_order, euler_in_order, look_at_up, numbers, resolve, Arg, Construction, EulerOrder,
    InvalidArguments,
};
use cframe::dom::{DomCFrame, DomMatrix3};
use cframe::{CFrame, Scalar, Vector3};
use glam::{EulerRot, Mat4, Quat, Vec3};

fn num(x: f32) -> Scalar {
    Scalar::from_bits(x.to_bits())
}

fn vec3(x: f32, y: f32, z: f32) -> Vector3 {
    Vector3::new(num(x), num(y), num(z))
}

fn glam_vec(v: Vector3) -> Vec3 {
    Vec3::new(
        f32::from_bits(v.x.to_bits()),
        f32::from_bits(v.y.to_bits()),
        f32::from_bits(v.z.to_bits()),
    )
}

fn lib_vec(v: Vec3) -> Vector3 {
    vec3(v.x, v.y, v.z)
}

fn from_mat4(m: Mat4) -> CFrame {
    CFrame::from_matrix(
        lib_vec(m.w_axis.truncate()),
        lib_vec(m.x_axis.truncate()),
        lib_vec(m.y_axis.truncate()),
        lib_vec(m.z_axis.truncate()),
    )
}

fn number_args(values: &[f32]) -> Vec<Arg> {
    values.iter().map(|x| Arg::Number(num(*x))).collect()
}

/// Carries out what a construction leaves to do, with glam's arithmetic.
fn finish(c: Construction) -> CFrame {
    match c {
        Construction::Frame(f) => f,
        Construction::LookAt { from, to, up } => {
            let dir = (glam_vec(to) - glam_vec(from)).normalize();
            let right = glam_vec(up).cross(dir).normalize();
            let up = dir.cross(right).normalize();
            CFrame::from_matrix(from, lib_vec(right), lib_vec(up), lib_vec(dir))
        }
        Construction::Quaternion { position, qx, qy, qz, qw } => {
            let q = Quat::from_array([qx, qy, qz, qw].map(|x| f32::from_bits(x.to_bits())));
            from_mat4(Mat4::from_rotation_translation(q, glam_vec(position)))
        }
        Construction::CompleteBasis { position, right, up } => {
            let back = glam_vec(right).cross(glam_vec(up)).normalize();
            CFrame::from_matrix(position, right, up, lib_vec(back))
        }
    }
}

fn is_invalid(args: &[Arg]) -> bool {
    matches!(resolve(args), Err(InvalidArguments))
}

#[test]
fn no_arguments_give_identity() {
    let c = resolve(&[]).unwrap();
    assert_eq!(c.frame(), Some(CFrame::identity()));
}

#[test]
fn one_vector_gives_a_translation() {
    let c = resolve(&[Arg::Vector(vec3(1.0, 2.0, 3.0))]).unwrap();
    let f = c.frame().unwrap();
    assert_eq!(f.position(), vec3(1.0, 2.0, 3.0));
    assert_eq!(f.rotation(), CFrame::identity());
    assert_eq!(f, CFrame::from_translation(vec3(1.0, 2.0, 3.0)));
}

#[test]
fn three_numbers_give_a_translation() {
    let c = resolve(&number_args(&[1.0, 2.0, 3.0])).unwrap();
    assert_eq!(c.frame(), Some(CFrame::from_translation(vec3(1.0, 2.0, 3.0))));
}

#[test]
fn two_or_three_vectors_give_a_look_at() {
    let from = vec3(1.0, 2.0, 3.0);
    let to = vec3(4.0, 5.0, 6.0);
    let up = vec3(0.0, 0.0, 1.0);
    match resolve(&[Arg::Vector(from), Arg::Vector(to), Arg::Vector(up)]).unwrap() {
        Construction::LookAt { from: a, to: b, up: c } => {
            assert_eq!((a, b, c), (from, to, up));
        }
        other => panic!("{:?}", other),
    }
    for args in [
        vec![Arg::Vector(from), Arg::Vector(to)],
        vec![Arg::Vector(from), Arg::Vector(to), Arg::Nil],
    ] {
        let c = resolve(&args).unwrap();
        assert_eq!(c.frame(), None);
        match c {
            Construction::LookAt { from: a, to: b, up: c } => {
                assert_eq!((a, b, c), (from, to, vec3(0.0, 1.0, 0.0)));
            }
            other => panic!("{:?}", other),
        }
    }
}

#[test]
fn look_at_down_the_negative_z_axis() {
    let c = resolve(&[
        Arg::Vector(vec3(0.0, 0.0, 0.0)),
        Arg::Vector(vec3(0.0, 0.0, -1.0)),
        Arg::Vector(vec3(0.0, 1.0, 0.0)),
    ])
    .unwrap();
    let f = finish(c);
    assert_eq!(f.position(), vec3(0.0, 0.0, 0.0));
    assert_eq!(f.up_vector(), vec3(0.0, 1.0, 0.0));
    assert_eq!(f.right_vector(), vec3(-1.0, 0.0, 0.0));
    // The back axis points from `from` towards `to`, and the look vector is its negation.
    assert_eq!(f.z_vector(), vec3(0.0, 0.0, -1.0));
    assert_eq!(f.look_vector(), vec3(0.0, 0.0, 1.0));
}

#[test]
fn seven_numbers_of_the_identity_quaternion_give_identity() {
    let c = resolve(&number_args(&[0.0, 0.0, 0.0, 0.0, 0.0, 0.0, 1.0])).unwrap();
    assert_eq!(c.frame(), None);
    assert_eq!(finish(c), CFrame::identity());
}

#[test]
fn seven_numbers_keep_their_places() {
    match resolve(&number_args(&[1.0, 2.0, 3.0, 4.0, 5.0, 6.0, 7.0])).unwrap() {
        Construction::Quaternion { position, qx, qy, qz, qw } => {
            assert_eq!(position, vec3(1.0, 2.0, 3.0));
            assert_eq!((qx, qy, qz, qw), (num(4.0), num(5.0), num(6.0), num(7.0)));
        }
        other => panic!("{:?}", other),
    }
}

#[test]
fn twelve_numbers_give_the_frame_of_these_numbers() {
    let values: [f32; 12] = [1.0, 2.0, 3.0, 4.0, 5.0, 6.0, 7.0, 8.0, 9.0, 10.0, 11.0, 12.0];
    let f = resolve(&number_args(&values)).unwrap().frame().unwrap();
    assert_eq!(f, CFrame::from_components(&values.map(num)));
    assert_eq!(f.position(), vec3(1.0, 2.0, 3.0));
    assert_eq!(f.right_vector(), vec3(4.0, 5.0, 6.0));
    assert_eq!(f.up_vector(), vec3(7.0, 8.0, 9.0));
    assert_eq!(f.z_vector(), vec3(10.0, 11.0, 12.0));
    let out: Vec<f32> = f
        .get_components()
        .iter()
        .map(|x| f32::from_bits(x.to_bits()))
        .collect();
    assert_eq!(
        out,
        vec![1.0, 2.0, -3.0, 4.0, 5.0, 6.0, 7.0, 8.0, 9.0, 10.0, 11.0, 12.0]
    );
}

#[test]
fn other_shapes_are_invalid() {
    let p = Arg::Vector(vec3(1.0, 2.0, 3.0));
    let n = Arg::Number(num(1.0));
    assert!(is_invalid(&[n]));
    assert!(is_invalid(&[n, n]));
    assert!(is_invalid(&[Arg::Nil]));
    assert!(is_invalid(&[Arg::Other]));
    assert!(is_invalid(&[p, n]));
    assert!(is_invalid(&[p, Arg::Nil]));
    assert!(is_invalid(&[n, p]));
    assert!(is_invalid(&[p, p, n]));
    assert!(is_invalid(&[p, p, Arg::Other]));
    assert!(is_invalid(&[p, p, p, p]));
    assert!(is_invalid(&[p, n, n]));
    assert!(is_invalid(&[n, n, p]));
    assert!(is_invalid(&[n, n, Arg::Nil]));
    assert!(is_invalid(&number_args(&[0.0; 4])));
    assert!(is_invalid(&number_args(&[0.0; 6])));
    assert!(is_invalid(&number_args(&[0.0; 8])));
    assert!(is_invalid(&number_args(&[0.0; 11])));
    assert!(is_invalid(&number_args(&[0.0; 13])));
    let mut seven = number_args(&[0.0; 7]);
    seven[6] = Arg::Other;
    assert!(is_invalid(&seven));
    let mut twelve = number_args(&[0.0; 12]);
    twelve[0] = p;
    assert!(is_invalid(&twelve));
    twelve[0] = n;
    twelve[11] = Arg::Nil;
    assert!(is_invalid(&twelve));
    assert_eq!(InvalidArguments.message(), "Invalid arguments to constructor");
}

#[test]
fn shape_does_not_depend_on_the_numbers() {
    let odd = [f32::NAN, f32::INFINITY, -0.0];
    assert_eq!(
        resolve(&number_args(&odd)).unwrap().frame().unwrap().position().y,
        num(f32::INFINITY)
    );
    assert!(resolve(&number_args(&[f32::NAN; 7])).is_ok());
    assert!(resolve(&number_args(&[f32::NAN; 12])).is_ok());
}

#[test]
fn arguments_by_type() {
    let p = vec3(1.0, 2.0, 3.0);
    assert_eq!(Arg::Vector(p).as_vector(), Some(p));
    assert_eq!(Arg::Number(num(1.0)).as_vector(), None);
    assert_eq!(Arg::Nil.as_vector(), None);
    assert_eq!(Arg::Number(num(4.0)).as_number(), Some(num(4.0)));
    assert_eq!(Arg::Vector(p).as_number(), None);
    assert_eq!(Arg::Other.as_number(), None);
    assert_eq!(
        numbers(&number_args(&[1.0, 2.0, 3.0])),
        Some(vec![num(1.0), num(2.0), num(3.0)])
    );
    assert_eq!(numbers(&[]), Some(vec![]));
    assert_eq!(numbers(&[Arg::Number(num(1.0)), Arg::Vector(p)]), None);
}

#[test]
fn look_at_up_defaults_to_y() {
    assert_eq!(look_at_up(None), vec3(0.0, 1.0, 0.0));
    assert_eq!(look_at_up(Some(vec3(1.0, 0.0, 0.0))), vec3(1.0, 0.0, 0.0));
    match Construction::look_at(vec3(0.0, 0.0, 0.0), vec3(1.0, 0.0, 0.0), None) {
        Construction::LookAt { from, to, up } => {
            assert_eq!(from, vec3(0.0, 0.0, 0.0));
            assert_eq!(to, vec3(1.0, 0.0, 0.0));
            assert_eq!(up, vec3(0.0, 1.0, 0.0));
        }
        other => panic!("{:?}", other),
    }
}

#[test]
fn from_matrix_with_and_without_a_back_axis() {
    let pos = vec3(1.0, 2.0, 3.0);
    let right = vec3(0.0, 0.0, 2.0);
    let up = vec3(0.0, 3.0, 0.0);
    let back = vec3(5.0, 5.0, 5.0);
    let given = Construction::from_matrix(pos, right, up, Some(back));
    assert_eq!(given.frame(), Some(CFrame::from_matrix(pos, right, up, back)));
    let open = Construction::from_matrix(pos, right, up, None);
    assert_eq!(open.frame(), None);
    let f = finish(open);
    assert_eq!(f.position(), pos);
    assert_eq!(f.right_vector(), right);
    assert_eq!(f.up_vector(), up);
    assert_eq!(f.z_vector(), vec3(-1.0, 0.0, 0.0));
}

#[test]
fn euler_angles_in_application_order() {
    let (rx, ry, rz) = (num(0.1), num(0.2), num(0.3));
    assert_eq!(euler_in_order(EulerOrder::Xyz, rx, ry, rz), (rx, ry, rz));
    assert_eq!(euler_in_order(EulerOrder::Yxz, rx, ry, rz), (ry, rx, rz));
    assert_eq!(euler_from_order(EulerOrder::Xyz, rx, ry, rz), (rx, ry, rz));
    assert_eq!(euler_from_order(EulerOrder::Yxz, ry, rx, rz), (rx, ry, rz));
}

#[test]
fn euler_angles_round_trip_through_glam() {
    let angles = (0.3f32, -0.4f32, 0.5f32);
    for (order, rot) in [(EulerOrder::Xyz, EulerRot::XYZ), (EulerOrder::Yxz, EulerRot::YXZ)] {
        let (a, b, c) = euler_in_order(order, num(angles.0), num(angles.1), num(angles.2));
        let m = Mat4::from_euler(
            rot,
            f32::from_bits(a.to_bits()),
            f32::from_bits(b.to_bits()),
            f32::from_bits(c.to_bits()),
        );
        let frame = from_mat4(m);
        let back = Quat::from_mat4(&Mat4::from_cols_array(
            &frame.to_cols_array().map(|x| f32::from_bits(x.to_bits())),
        ))
        .to_euler(rot);
        let (rx, ry, rz) = euler_from_order(order, num(back.0), num(back.1), num(back.2));
        for (got, want) in [(rx, angles.0), (ry, angles.1), (rz, angles.2)] {
            assert!((f32::from_bits(got.to_bits()) - want).abs() < 1e-5);
        }
    }
}

#[test]
fn stored_frame_maps_field_by_field() {
    let stored = DomCFrame {
        position: vec3(1.0, 2.0, 3.0),
        orientation: DomMatrix3 {
            x: vec3(4.0, 5.0, 6.0),
            y: vec3(7.0, 8.0, 9.0),
            z: vec3(10.0, 11.0, 12.0),
        },
    };
    let f = CFrame::from(stored);
    assert_eq!(f.position(), vec3(1.0, 2.0, 3.0));
    assert_eq!(f.right_vector(), vec3(4.0, 5.0, 6.0));
    assert_eq!(f.up_vector(), vec3(7.0, 8.0, 9.0));
    assert_eq!(f.z_vector(), vec3(10.0, 11.0, 12.0));
    let again = DomCFrame::from(f);
    assert_eq!(again.position, stored.position);
    assert_eq!(again.orientation.x, stored.orientation.x);
    assert_eq!(again.orientation.y, stored.orientation.y);
    assert_eq!(again.orientation.z, stored.orientation.z);
}
