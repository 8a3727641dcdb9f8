use vectoria::layout::{identity3, identity4, rotation_x4, rotation_y4, rotation_z4, scale4, translate4};

#[test]
fn identity4_matches_the_unit_matrix() {
    assert_eq!(
        identity4(0.0f32, 1.0),
        [[1.0, 0.0, 0.0, 0.0], [0.0, 1.0, 0.0, 0.0], [0.0, 0.0, 1.0, 0.0], [0.0, 0.0, 0.0, 1.0]]
    );
}

#[test]
fn identity3_matches_the_unit_matrix() {
    assert_eq!(identity3(0.0f32, 1.0), [[1.0, 0.0, 0.0], [0.0, 1.0, 0.0], [0.0, 0.0, 1.0]]);
}

#[test]
fn scale4_puts_factors_on_the_diagonal() {
    assert_eq!(
        scale4(2.0f32, 3.0, 4.0, 0.0, 1.0),
        [[2.0, 0.0, 0.0, 0.0], [0.0, 3.0, 0.0, 0.0], [0.0, 0.0, 4.0, 0.0], [0.0, 0.0, 0.0, 1.0]]
    );
}

#[test]
fn translate4_puts_offsets_in_the_last_column() {
    assert_eq!(
        translate4(5.0f32, -6.0, 7.0, 0.0, 1.0),
        [[1.0, 0.0, 0.0, 5.0], [0.0, 1.0, 0.0, -6.0], [0.0, 0.0, 1.0, 7.0], [0.0, 0.0, 0.0, 1.0]]
    );
}

#[test]
fn rotation_x4_layout() {
    // distinct markers for cos, sin and -sin expose any misplaced entry
    assert_eq!(rotation_x4(7u8, 8, 9, 0, 1), [[1, 0, 0, 0], [0, 7, 9, 0], [0, 8, 7, 0], [0, 0, 0, 1]]);
}

#[test]
fn rotation_y4_layout() {
    assert_eq!(rotation_y4(7u8, 8, 9, 0, 1), [[7, 0, 8, 0], [0, 1, 0, 0], [9, 0, 7, 0], [0, 0, 0, 1]]);
}

#[test]
fn rotation_z4_layout() {
    assert_eq!(rotation_z4(7u8, 8, 9, 0, 1), [[7, 9, 0, 0], [8, 7, 0, 0], [0, 0, 1, 0], [0, 0, 0, 1]]);
}

#[test]
fn quarter_turn_about_z_maps_x_axis_to_y_axis() {
    let angle = core::f32::consts::FRAC_PI_2;
    let (s, c) = (angle.sin(), angle.cos());
    let r = rotation_z4(c, s, -s, 0.0f32, 1.0);
    let x = [1.0f32, 0.0, 0.0, 1.0];
    let mut out = [0.0f32; 4];
    for i in 0..4 {
        for k in 0..4 {
            out[i] += r[i][k] * x[k];
        }
    }
    assert!(out[0].abs() < 1e-6);
    assert!((out[1] - 1.0).abs() < 1e-6);
    assert_eq!(out[2], 0.0);
    assert_eq!(out[3], 1.0);
}
