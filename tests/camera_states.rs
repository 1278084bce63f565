use molecular_visualization::camera::{PerspectiveCamera, Virtual};
use molecular_visualization::geometry::Quad;

fn virtual_camera() -> PerspectiveCamera<Virtual, f32> {
    PerspectiveCamera {
        fov: 90.0_f32.to_radians(),
        fov_min: 20.0_f32.to_radians(),
        fov_max: 120.0_f32.to_radians(),
        zoom_sensitivity: 0.01,
        znear: 0.1,
        zfar: 1024.0,
        state: Virtual {},
    }
}

#[test]
fn transition_order_does_not_matter() {
    let pos = [0.0_f32, 0.0, 4.0];
    let target = [0.0_f32, 0.0, 0.0];
    let up = [0.0_f32, 1.0, 0.0];
    let a = virtual_camera().place(pos).point(target, up);
    let b = virtual_camera().point(target, up).place(pos);
    assert_eq!((a.state.pos, a.state.target, a.state.up), (b.state.pos, b.state.target, b.state.up));
    assert_eq!(
        (a.fov, a.fov_min, a.fov_max, a.zoom_sensitivity, a.znear, a.zfar),
        (b.fov, b.fov_min, b.fov_max, b.zoom_sensitivity, b.znear, b.zfar)
    );
    assert_eq!(a.get_position(), pos);
}

#[test]
fn transitions_keep_the_intrinsics() {
    let c = virtual_camera().place((1, 2, 3));
    assert_eq!(c.state.pos, (1, 2, 3));
    assert_eq!(c.fov, 90.0_f32.to_radians());
    assert_eq!(c.zfar, 1024.0);
    let c = c.point((4, 5, 6), (0, 1, 0));
    assert_eq!(c.get_position(), (1, 2, 3));
    assert_eq!(c.state.target, (4, 5, 6));
    assert_eq!(c.state.up, (0, 1, 0));
    assert_eq!(c.fov_min, 20.0_f32.to_radians());
    assert_eq!(c.fov_max, 120.0_f32.to_radians());
    assert_eq!(c.znear, 0.1);
    assert_eq!(c.zoom_sensitivity, 0.01);
}

#[test]
fn billboard_is_two_triangles_over_four_corners() {
    assert_eq!(Quad::get_billboard_indices(), [0, 1, 2, 1, 3, 2]);
}
