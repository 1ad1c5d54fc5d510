use live_wallpaper::pointer::{normalize, PointerSample, PointerUniform};
use live_wallpaper::shader::ShaderStage;
use live_wallpaper::surface::SurfaceDimensions;

#[test]
fn corners_map_to_unit_square_corners() {
    let d = SurfaceDimensions { width: 1920, height: 1080 };
    let top_left = normalize(PointerSample { x: 0, y: 0 }, d);
    assert_eq!(top_left, PointerUniform { x_num: -1920, x_den: 1920, y_num: 1080, y_den: 1080 });
    let bottom_right = normalize(PointerSample { x: 1920, y: 1080 }, d);
    assert_eq!(bottom_right, PointerUniform { x_num: 1920, x_den: 1920, y_num: -1080, y_den: 1080 });
    assert_eq!(top_left.x_num as f32 / top_left.x_den as f32, -1.0f32);
    assert_eq!(bottom_right.y_num as f32 / bottom_right.y_den as f32, -1.0f32);
}

#[test]
fn corners_on_one_pixel_surface() {
    let d = SurfaceDimensions { width: 1, height: 1 };
    assert_eq!(
        normalize(PointerSample { x: 1, y: 1 }, d),
        PointerUniform { x_num: 1, x_den: 1, y_num: -1, y_den: 1 }
    );
}

#[test]
fn scenario_point_normalizes_exactly() {
    let u = normalize(PointerSample { x: 20, y: 20 }, SurfaceDimensions { width: 100, height: 100 });
    assert_eq!(u, PointerUniform { x_num: -60, x_den: 100, y_num: 60, y_den: 100 });
}

#[test]
fn centre_maps_to_origin() {
    let u = normalize(PointerSample { x: 400, y: 300 }, SurfaceDimensions { width: 800, height: 600 });
    assert_eq!((u.x_num, u.y_num), (0, 0));
}

#[test]
fn off_surface_positions_are_not_clamped() {
    let d = SurfaceDimensions { width: 100, height: 50 };
    let u = normalize(PointerSample { x: -50, y: 100 }, d);
    assert_eq!(u, PointerUniform { x_num: -200, x_den: 100, y_num: -150, y_den: 50 });
}

#[test]
fn extreme_positions_do_not_overflow() {
    let d = SurfaceDimensions { width: u32::MAX, height: u32::MAX };
    let u = normalize(PointerSample { x: i64::MIN, y: i64::MIN }, d);
    assert_eq!(u.x_num, 2 * (i64::MIN as i128) - u32::MAX as i128);
    assert_eq!(u.y_num, u32::MAX as i128 - 2 * (i64::MIN as i128));
}

#[test]
fn neutral_uniform_is_centre() {
    assert_eq!(PointerUniform::neutral(), PointerUniform { x_num: 0, x_den: 1, y_num: 0, y_den: 1 });
}

#[test]
fn shader_entry_points() {
    assert_eq!(ShaderStage::Vertex.entry_point(), Some("vs_main"));
    assert_eq!(ShaderStage::Fragment.entry_point(), Some("fs_main"));
    assert_eq!(ShaderStage::Compute.entry_point(), None);
}
