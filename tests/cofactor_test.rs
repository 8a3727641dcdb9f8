use vectoria::cofactor::{cofactor_negated, get_minor3, get_minor4};

fn counting4() -> [[u32; 4]; 4] {
    [[0, 1, 2, 3], [4, 5, 6, 7], [8, 9, 10, 11], [12, 13, 14, 15]]
}

fn det3(m: &[[f32; 3]; 3]) -> f32 {
    let mut det = 0.0;
    for j in 0..3 {
        let minor = get_minor3(m, 0, j);
        let d = minor[0][0] * minor[1][1] - minor[0][1] * minor[1][0];
        let term = m[0][j] * d;
        det = if cofactor_negated(0, j) { det - term } else { det + term };
    }
    det
}

fn det4(m: &[[f32; 4]; 4]) -> f32 {
    let mut det = 0.0;
    for j in 0..4 {
        let term = m[0][j] * det3(&get_minor4(m, 0, j));
        det = if cofactor_negated(0, j) { det - term } else { det + term };
    }
    det
}

#[test]
fn cofactor_signs_alternate() {
    assert!(!cofactor_negated(0, 0));
    assert!(cofactor_negated(0, 1));
    assert!(!cofactor_negated(0, 2));
    assert!(cofactor_negated(0, 3));
    assert!(cofactor_negated(1, 0));
    assert!(!cofactor_negated(1, 1));
    assert!(cofactor_negated(2, 3));
    assert!(!cofactor_negated(3, 3));
}

#[test]
fn minor4_of_middle_entry() {
    let minor = get_minor4(&counting4(), 1, 2);
    assert_eq!(minor, [[0, 1, 3], [8, 9, 11], [12, 13, 15]]);
}

#[test]
fn minor4_of_corners() {
    assert_eq!(get_minor4(&counting4(), 0, 0), [[5, 6, 7], [9, 10, 11], [13, 14, 15]]);
    assert_eq!(get_minor4(&counting4(), 3, 3), [[0, 1, 2], [4, 5, 6], [8, 9, 10]]);
    assert_eq!(get_minor4(&counting4(), 0, 3), [[4, 5, 6], [8, 9, 10], [12, 13, 14]]);
}

#[test]
fn minor3_of_each_row_start() {
    let m = [[1, 2, 3], [4, 5, 6], [7, 8, 9]];
    assert_eq!(get_minor3(&m, 0, 0), [[5, 6], [8, 9]]);
    assert_eq!(get_minor3(&m, 1, 0), [[2, 3], [8, 9]]);
    assert_eq!(get_minor3(&m, 2, 1), [[1, 3], [4, 6]]);
}

#[test]
fn minor_keeps_float_entries() {
    let m = [[1.5f32, -2.0, 0.25], [3.0, 4.5, -1.0], [0.0, 7.0, 8.0]];
    assert_eq!(get_minor3(&m, 1, 1), [[1.5, 0.25], [0.0, 8.0]]);
}

#[test]
fn expansion_of_identity_is_one() {
    let id = [[1.0f32, 0.0, 0.0, 0.0], [0.0, 1.0, 0.0, 0.0], [0.0, 0.0, 1.0, 0.0], [0.0, 0.0, 0.0, 1.0]];
    assert_eq!(det4(&id), 1.0);
}

#[test]
fn expansion_of_zero_matrix_is_zero() {
    assert_eq!(det4(&[[0.0f32; 4]; 4]), 0.0);
}

#[test]
fn expansion_of_general_matrix() {
    // det = 1 * (6*3 - 0*8) - 2 * (4*3 - 0*(-1)) + 3 * (4*8 - 6*(-1)) = 18 - 24 + 114
    let m = [[1.0f32, 2.0, 3.0], [4.0, 6.0, 0.0], [-1.0, 8.0, 3.0]];
    assert_eq!(det3(&m), 108.0);
    let m4 = [[2.0f32, 0.0, 0.0, 0.0], [0.0, 1.0, 2.0, 3.0], [0.0, 4.0, 6.0, 0.0], [0.0, -1.0, 8.0, 3.0]];
    assert_eq!(det4(&m4), 216.0);
}

#[test]
fn expansion_with_swapped_rows_changes_sign() {
    let m4 = [[0.0f32, 1.0, 2.0, 3.0], [2.0, 0.0, 0.0, 0.0], [0.0, 4.0, 6.0, 0.0], [0.0, -1.0, 8.0, 3.0]];
    assert_eq!(det4(&m4), -216.0);
}

fn adjugate4(m: &[[f32; 4]; 4]) -> [[f32; 4]; 4] {
    let mut adj = [[0.0f32; 4]; 4];
    for i in 0..4 {
        for j in 0..4 {
            let d = det3(&get_minor4(m, i, j));
            adj[j][i] = if cofactor_negated(i, j) { -d } else { d };
        }
    }
    adj
}

fn product4(a: &[[f32; 4]; 4], b: &[[f32; 4]; 4]) -> [[f32; 4]; 4] {
    let mut r = [[0.0f32; 4]; 4];
    for i in 0..4 {
        for j in 0..4 {
            for k in 0..4 {
                r[i][j] += a[i][k] * b[k][j];
            }
        }
    }
    r
}

#[test]
fn matrix_times_adjugate_is_scaled_identity() {
    let m = [[2.0f32, 1.0, 0.0, 3.0], [1.0, 4.0, 2.0, 0.0], [0.0, 1.0, 5.0, 1.0], [3.0, 0.0, 1.0, 2.0]];
    let det = det4(&m);
    assert_eq!(det, -116.0);
    let p = product4(&m, &adjugate4(&m));
    for i in 0..4 {
        for j in 0..4 {
            assert_eq!(p[i][j], if i == j { det } else { 0.0 });
        }
    }
}

#[test]
fn adjugate_of_identity_is_identity() {
    let id = [[1.0f32, 0.0, 0.0, 0.0], [0.0, 1.0, 0.0, 0.0], [0.0, 0.0, 1.0, 0.0], [0.0, 0.0, 0.0, 1.0]];
    assert_eq!(adjugate4(&id), id);
    assert_eq!(product4(&id, &id), id);
}
