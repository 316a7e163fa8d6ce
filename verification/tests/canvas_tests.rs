use sound_wave_image::canvas::Canvas;
use sound_wave_image::RenderError;

#[test]
fn create_fills_the_whole_grid_with_the_background() {
    let c = Canvas::create(3, 2, [7, 8, 9]).unwrap();
    assert_eq!(c.width(), 3);
    assert_eq!(c.height(), 2);
    let bytes = c.to_bytes();
    assert_eq!(bytes.len(), 18);
    for (i, b) in bytes.iter().enumerate() {
        assert_eq!(*b, [7u8, 8, 9][i % 3]);
    }
}

#[test]
fn zero_or_oversized_dimensions_are_rejected() {
    assert!(matches!(Canvas::create(0, 5, [0, 0, 0]), Err(RenderError::InvalidDimensions)));
    assert!(matches!(Canvas::create(5, 0, [0, 0, 0]), Err(RenderError::InvalidDimensions)));
    assert!(matches!(
        Canvas::create(16777216, 4, [0, 0, 0]),
        Err(RenderError::InvalidDimensions)
    ));
}

#[test]
fn set_and_get_pixel_round_trip() {
    let mut c = Canvas::create(4, 3, [0, 0, 0]).unwrap();
    assert!(c.set_pixel(2, 1, [10, 20, 30]));
    assert_eq!(c.get_pixel(2, 1), Some((10, 20, 30)));
    assert_eq!(c.get_pixel(0, 0), Some((0, 0, 0)));
    let base: usize = 3 * (1 * 4 + 2);
    let bytes = c.to_bytes();
    assert_eq!(&bytes[base..base + 3], &[10, 20, 30]);
}

#[test]
fn out_of_range_pixel_access_is_refused() {
    let mut c = Canvas::create(2, 2, [1, 1, 1]).unwrap();
    assert!(!c.set_pixel(2, 0, [9, 9, 9]));
    assert!(!c.set_pixel(0, 2, [9, 9, 9]));
    assert_eq!(c.get_pixel(2, 0), None);
    assert_eq!(c.get_pixel(0, 5), None);
    assert_eq!(c.to_bytes(), vec![1u8; 12]);
}

#[test]
fn draw_line_paints_exactly_one_column_span() {
    let mut c = Canvas::create(4, 4, [0, 0, 0]).unwrap();
    c.draw_line((1, 1), (1, 2), [255, 4, 8]);
    for y in 0..4usize {
        for x in 0..4usize {
            let expected = if x == 1 && (y == 1 || y == 2) { (255, 4, 8) } else { (0, 0, 0) };
            assert_eq!(c.get_pixel(x, y), Some(expected));
        }
    }
}

#[test]
fn draw_line_clips_rows_outside_the_canvas() {
    let mut c = Canvas::create(3, 3, [0, 0, 0]).unwrap();
    c.draw_line((2, -10), (2, 1), [5, 6, 7]);
    for y in 0..3usize {
        let expected = if y <= 1 { (5, 6, 7) } else { (0, 0, 0) };
        assert_eq!(c.get_pixel(2, y), Some(expected));
    }
}

#[test]
fn draw_line_outside_the_width_changes_nothing() {
    let mut c = Canvas::create(3, 3, [2, 2, 2]).unwrap();
    c.draw_line((7, 0), (7, 2), [9, 9, 9]);
    c.draw_line((-1, 0), (-1, 2), [9, 9, 9]);
    c.draw_line((0, 5), (0, 9), [9, 9, 9]);
    assert_eq!(c.to_bytes(), vec![2u8; 27]);
}

#[test]
fn draw_line_of_a_single_point_paints_one_pixel() {
    let mut c = Canvas::create(3, 3, [0, 0, 0]).unwrap();
    c.draw_line((1, 1), (1, 1), [50, 60, 70]);
    assert_eq!(c.get_pixel(1, 1), Some((50, 60, 70)));
    assert_eq!(c.get_pixel(1, 0), Some((0, 0, 0)));
    assert_eq!(c.get_pixel(2, 1), Some((0, 0, 0)));
}

#[test]
fn byte_views_agree() {
    let mut c = Canvas::create(2, 2, [3, 1, 4]).unwrap();
    c.set_pixel(0, 1, [9, 9, 9]);
    assert_eq!(c.as_bytes().to_vec(), c.to_bytes());
}
