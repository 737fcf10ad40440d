use cgmath::{
    perspective, Deg, InnerSpace, Matrix, Matrix3, Matrix4, Point3, Quaternion, Rad, Rotation3,
    SquareMatrix, Vector3,
};
use scene_core::controller::{Controller, ElementState, KeyCode, PIXELS_PER_LINE};
use scene_core::events::{Action, Event};
use scene_core::transforms::{FlatTransform, Transform, Transforms};
use scene_core::view::{Camera, Projection, View, OPENGL_TO_WGPU_MATRIX, SAFE_FRAC_PI_2};
use std::time::Duration;

fn point_bits(point: Point3<f32>) -> [u32; 3] {
    [point.x.to_bits(), point.y.to_bits(), point.z.to_bits()]
}

fn point_of(bits: [u32; 3]) -> Point3<f32> {
    Point3::new(
        f32::from_bits(bits[0]),
        f32::from_bits(bits[1]),
        f32::from_bits(bits[2]),
    )
}

fn camera_matrix(camera: &Camera) -> Matrix4<f32> {
    let (sin_pitch, cos_pitch) = f32::from_bits(camera.pitch()).sin_cos();
    let (sin_yaw, cos_yaw) = f32::from_bits(camera.yaw()).sin_cos();
    Matrix4::look_to_rh(
        point_of(camera.position()),
        Vector3::new(cos_pitch * cos_yaw, sin_pitch, cos_pitch * sin_yaw).normalize(),
        Vector3::unit_y(),
    )
}

fn projection_matrix(projection: &Projection) -> Matrix4<f32> {
    let aspect = projection.width() as f32 / projection.height() as f32;
    Matrix4::from(OPENGL_TO_WGPU_MATRIX.map(|column| column.map(f32::from_bits)))
        * perspective(
            Rad(f32::from_bits(projection.fovy())),
            aspect,
            f32::from_bits(projection.znear()),
            f32::from_bits(projection.zfar()),
        )
}

fn integrate(camera: &Camera, controller: &Controller, dt: Duration) -> ([u32; 3], u32, u32) {
    let dt = dt.as_secs_f32();
    let speed = f32::from_bits(controller.speed);
    let sensitivity = f32::from_bits(controller.sensitivity);
    let mut position = point_of(camera.position());
    let mut yaw = Rad(f32::from_bits(camera.yaw()));
    let mut pitch = Rad(f32::from_bits(camera.pitch()));

    let (yaw_sin, yaw_cos) = yaw.0.sin_cos();
    let forward = Vector3::new(yaw_cos, 0.0, yaw_sin).normalize();
    let right = Vector3::new(-yaw_sin, 0.0, yaw_cos).normalize();

    position += forward * (controller.forward_axis() as f32) * speed * dt;
    position += right * (controller.right_axis() as f32) * speed * dt;

    let (pitch_sin, pitch_cos) = pitch.0.sin_cos();
    let scrollward =
        Vector3::new(pitch_cos * yaw_cos, pitch_sin, pitch_cos * yaw_sin).normalize();
    position += scrollward * f32::from_bits(controller.scroll) * speed * sensitivity * dt;

    position.y += (controller.up_axis() as f32) * speed * dt;

    yaw += Rad(f32::from_bits(controller.rotate_horizontal)) * sensitivity * dt;
    pitch += Rad(-f32::from_bits(controller.rotate_vertical)) * sensitivity * dt;

    (point_bits(position), yaw.0.to_bits(), pitch.0.to_bits())
}

fn step(view: &mut View, dt: Duration) {
    let (position, yaw, pitch) = integrate(&view.camera, &view.controller, dt);
    view.update(position, yaw, pitch);
}

fn rotation_of(transform: &Transform) -> Quaternion<f32> {
    let axis = Vector3::new(
        transform.rotation.axis.x as f32,
        transform.rotation.axis.y as f32,
        transform.rotation.axis.z as f32,
    );
    Quaternion::from_axis_angle(axis.normalize(), Deg(transform.rotation.degrees as f32))
}

fn flattened(transform: &Transform) -> FlatTransform {
    let translation = Vector3::new(
        transform.translation.x as f32,
        transform.translation.y as f32,
        transform.translation.z as f32,
    );
    let rotation = rotation_of(transform);
    let model = Matrix4::from_translation(translation)
        * Matrix4::from(rotation)
        * Matrix4::from_scale(transform.scale as f32);
    let model: [[f32; 4]; 4] = model.into();
    let normal: [[f32; 3]; 3] = Matrix3::from(rotation).into();
    FlatTransform {
        model_transform: model.map(|row| row.map(f32::to_bits)),
        normal_transform: normal.map(|row| row.map(f32::to_bits)),
    }
}

fn sample_view() -> View {
    View::build()
        .camera(
            point_bits(Point3::new(0.0, 5.0, 10.0)),
            Rad::from(Deg(-90.0f32)).0.to_bits(),
            Rad::from(Deg(-20.0f32)).0.to_bits(),
        )
        .projection(
            800,
            600,
            Rad::from(Deg(45.0f32)).0.to_bits(),
            0.1f32.to_bits(),
            100.0f32.to_bits(),
        )
        .controller(Controller::new(4.0f32.to_bits(), 0.4f32.to_bits()))
        .finalize()
}

#[test]
fn pitch_stays_within_limits_through_any_pointer_movement() {
    let safe = f32::from_bits(SAFE_FRAC_PI_2);
    let mut view = sample_view();
    let movements = [
        10.0f32, 500.0, -3.0, -2000.0, 0.0, 1.0e9, -1.0e9, 0.5, -0.5, 1.0e-20, f32::MAX, f32::MIN,
    ];
    for dy in movements {
        view.handle_event(Event::MouseMotion {
            dx: 0,
            dy: dy.to_bits(),
        });
        step(&mut view, Duration::from_millis(16));
        let pitch = f32::from_bits(view.camera.pitch());
        assert!(-safe <= pitch && pitch <= safe, "{:?} after {:?}", pitch, dy);
    }
}

#[test]
fn a_pitch_that_is_not_a_number_stays_so() {
    let mut view = sample_view();
    view.handle_event(Event::MouseMotion {
        dx: 0,
        dy: f32::INFINITY.to_bits(),
    });
    step(&mut view, Duration::ZERO);
    assert!(f32::from_bits(view.camera.pitch()).is_nan());
}

#[test]
fn a_second_update_without_input_leaves_the_pose() {
    let mut view = sample_view();
    view.handle_event(Event::MouseMotion {
        dx: 40.0f32.to_bits(),
        dy: (-25.0f32).to_bits(),
    });
    view.handle_event(Event::MouseWheel {
        pixels: (2.0 * f32::from_bits(PIXELS_PER_LINE)).to_bits(),
    });
    step(&mut view, Duration::from_millis(16));
    let first = (view.camera.position(), view.camera.yaw(), view.camera.pitch());
    assert_ne!(first.0, point_bits(Point3::new(0.0, 5.0, 10.0)));
    step(&mut view, Duration::from_millis(16));
    let second = (view.camera.position(), view.camera.yaw(), view.camera.pitch());
    assert_eq!(first, second);
}

#[test]
fn a_held_key_keeps_moving_the_camera() {
    let mut view = sample_view();
    view.handle_event(Event::KeyboardInput {
        key: KeyCode::Space,
        state: ElementState::Pressed,
        escape: false,
    });
    step(&mut view, Duration::from_millis(250));
    assert_eq!(f32::from_bits(view.camera.position()[1]), 6.0);
    step(&mut view, Duration::from_millis(250));
    assert_eq!(f32::from_bits(view.camera.position()[1]), 7.0);
    view.handle_event(Event::KeyboardInput {
        key: KeyCode::Space,
        state: ElementState::Released,
        escape: false,
    });
    step(&mut view, Duration::from_millis(250));
    assert_eq!(f32::from_bits(view.camera.position()[1]), 7.0);
}

#[test]
fn forward_moves_along_the_yaw() {
    let mut view = sample_view();
    view.handle_event(Event::KeyboardInput {
        key: KeyCode::KeyW,
        state: ElementState::Pressed,
        escape: false,
    });
    step(&mut view, Duration::from_millis(500));
    let position = point_of(view.camera.position());
    assert!((position.x - 0.0).abs() < 1.0e-5);
    assert_eq!(position.y, 5.0);
    assert!((position.z - 8.0).abs() < 1.0e-5);
}

#[test]
fn rotation_adds_to_yaw_and_takes_from_pitch() {
    let mut view = sample_view();
    let yaw = f32::from_bits(view.camera.yaw());
    let pitch = f32::from_bits(view.camera.pitch());
    view.handle_event(Event::MouseMotion {
        dx: 2.0f32.to_bits(),
        dy: 1.0f32.to_bits(),
    });
    step(&mut view, Duration::from_millis(500));
    assert!((f32::from_bits(view.camera.yaw()) - (yaw + 2.0 * 0.4 * 0.5)).abs() < 1.0e-6);
    assert!((f32::from_bits(view.camera.pitch()) - (pitch - 1.0 * 0.4 * 0.5)).abs() < 1.0e-6);
}

#[test]
fn uniform_holds_the_position_and_the_product_of_the_matrices() {
    let view = sample_view();
    let view_proj = projection_matrix(&view.projection) * camera_matrix(&view.camera);
    let columns: [[f32; 4]; 4] = view_proj.into();
    let uniform = view.as_uniform(columns.map(|column| column.map(f32::to_bits)));
    assert_eq!(
        uniform.view_position.map(f32::from_bits),
        [0.0, 5.0, 10.0, 1.0]
    );
    assert_eq!(uniform.view_proj.map(|c| c.map(f32::from_bits)), columns);
    let bytes = uniform.to_bytes();
    assert_eq!(bytes.len() % 16, 0);
    for (i, word) in columns.iter().flatten().enumerate() {
        assert_eq!(&bytes[16 + 4 * i..20 + 4 * i], &word.to_ne_bytes());
    }
}

#[test]
fn resizing_changes_the_aspect_of_the_projection() {
    let mut view = sample_view();
    let before = projection_matrix(&view.projection);
    assert_eq!(
        view.handle_event(Event::Resized {
            width: 600,
            height: 600
        }),
        Action::Configure {
            width: 600,
            height: 600
        }
    );
    let after = projection_matrix(&view.projection);
    assert!((before[0][0] * (800.0 / 600.0) - after[0][0]).abs() < 1.0e-5);
    assert_eq!(before[1][1], after[1][1]);
    assert_eq!(before[2][2], after[2][2]);
}

#[test]
fn generated_rotations_are_unit_quaternions() {
    let field = Transforms::build().transform_field(4, 6).finalize();
    for t in field.transforms() {
        assert!((rotation_of(t).magnitude() - 1.0).abs() < 1.0e-6);
    }
}

#[test]
fn the_placement_at_the_origin_is_not_turned() {
    let field = Transforms::build().transform_field(2, 2).finalize();
    let last = field.transforms()[3];
    assert_eq!(rotation_of(&last), Quaternion::new(1.0, 0.0, 0.0, 0.0));
    let flat = flattened(&last);
    let identity: [[f32; 4]; 4] = Matrix4::identity().into();
    assert_eq!(flat.model_transform.map(|r| r.map(f32::from_bits)), identity);
}

#[test]
fn normal_matrix_is_the_rotation_and_the_inverse_transpose_of_the_model() {
    let field = Transforms::build().transform_field(5, 4).finalize();
    for t in field.transforms() {
        let flat = flattened(t);
        let normal = Matrix3::from(flat.normal_transform.map(|r| r.map(f32::from_bits)));
        assert_eq!(normal, Matrix3::from(rotation_of(t)));
        let model = flat.model_transform.map(|r| r.map(f32::from_bits));
        let upper = Matrix3::new(
            model[0][0],
            model[0][1],
            model[0][2],
            model[1][0],
            model[1][1],
            model[1][2],
            model[2][0],
            model[2][1],
            model[2][2],
        );
        let reference = upper.invert().unwrap().transpose();
        for col in 0..3 {
            for row in 0..3 {
                assert!((normal[col][row] - reference[col][row]).abs() < 1.0e-5);
            }
        }
        assert_eq!(
            [model[3][0], model[3][1], model[3][2], model[3][3]],
            [
                t.translation.x as f32,
                t.translation.y as f32,
                t.translation.z as f32,
                1.0
            ]
        );
    }
}

#[test]
fn instance_bytes_of_the_flattened_field() {
    let field = Transforms::build().transform_field(3, 3).finalize();
    let records: Vec<FlatTransform> = field.transforms().iter().map(flattened).collect();
    let bytes = field.instance_bytes(&records).unwrap();
    assert_eq!(bytes.len(), 900);
    assert_eq!(field.instance_count(), 9);
    for (i, record) in records.iter().enumerate() {
        let first = f32::from_bits(record.model_transform[0][0]);
        assert_eq!(&bytes[100 * i..100 * i + 4], &first.to_ne_bytes());
        let last = f32::from_bits(record.normal_transform[2][2]);
        assert_eq!(&bytes[100 * i + 96..100 * i + 100], &last.to_ne_bytes());
    }
}

#[test]
fn the_direction_of_view_has_unit_length() {
    let mut view = sample_view();
    let mut yaw = -7.0f32;
    while yaw < 7.0 {
        let mut pitch = -2.0f32;
        while pitch < 2.0 {
            view.update(view.camera.position(), yaw.to_bits(), pitch.to_bits());
            let (sin_pitch, cos_pitch) = f32::from_bits(view.camera.pitch()).sin_cos();
            let (sin_yaw, cos_yaw) = f32::from_bits(view.camera.yaw()).sin_cos();
            let direction = Vector3::new(cos_pitch * cos_yaw, sin_pitch, cos_pitch * sin_yaw);
            assert!((direction.magnitude() - 1.0).abs() < 1.0e-6);
            let m = camera_matrix(&view.camera);
            let back = Vector3::new(m[0][2], m[1][2], m[2][2]);
            assert!((back + direction).magnitude() < 1.0e-5);
            pitch += 0.37;
        }
        yaw += 0.61;
    }
}
