use sound_wave_image::geometry::{column_of_sample, end_row, MAX_DIM};

#[test]
fn columns_follow_the_floor_formula() {
    // floor(10 * i / 4) for i = 0..4.
    assert_eq!(column_of_sample(10, 0, 4), 0);
    assert_eq!(column_of_sample(10, 1, 4), 2);
    assert_eq!(column_of_sample(10, 2, 4), 5);
    assert_eq!(column_of_sample(10, 3, 4), 7);
}

#[test]
fn columns_never_decrease_and_stay_inside_the_width() {
    let w: usize = 7;
    let n: usize = 23;
    let mut prev: usize = 0;
    for i in 0..n {
        let x = column_of_sample(w, i, n);
        assert!(x >= prev);
        assert!(x < w);
        prev = x;
    }
    assert_eq!(column_of_sample(w, n - 1, n), 6);
}

#[test]
fn largest_accepted_width_keeps_the_last_column_inside() {
    let n: usize = 3;
    assert_eq!(column_of_sample(MAX_DIM, n - 1, n), MAX_DIM / 3 * 2);
}

#[test]
fn end_rows_follow_the_displacement_formula() {
    // height 100, peak 10: a full-scale sample reaches the far edge.
    assert_eq!(end_row(100, 10, 10, 0), 99);
    assert_eq!(end_row(100, 10, 10, 1), 0);
    // Half scale: half the distance from the center.
    assert_eq!(end_row(100, 5, 10, 0), 75);
    assert_eq!(end_row(100, 5, 10, 1), 25);
    // Negative samples mirror the direction.
    assert_eq!(end_row(100, -5, 10, 0), 25);
    assert_eq!(end_row(100, -5, 10, 1), 75);
}

#[test]
fn displacement_rounds_to_nearest_away_from_zero() {
    // 10 * 2 / (2 * 4) = 2.5 rounds to 3.
    assert_eq!(end_row(10, 2, 4, 0), 5 + 3);
    assert_eq!(end_row(10, -2, 4, 0), 5 - 3);
    // 10 * 1 / (2 * 4) = 1.25 rounds to 1.
    assert_eq!(end_row(10, 1, 4, 0), 5 + 1);
}

#[test]
fn end_rows_are_clamped_into_the_image() {
    // A sample far above the accumulated peak would shoot past the edge.
    assert_eq!(end_row(10, 100, 1, 0), 9);
    assert_eq!(end_row(10, 100, 1, 1), 0);
    assert_eq!(end_row(10, -100, 1, 0), 0);
    // A one-pixel-tall image only ever has row zero.
    assert_eq!(end_row(1, 3, 4, 0), 0);
}
