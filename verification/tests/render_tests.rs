use sound_wave_image::duration::{convert_duration_to_width, sample_duration_secs};
use sound_wave_image::render::ViewSignal;
use sound_wave_image::RenderError;

// The fixed-point value standing for an amplitude of one half.
const HALF: i64 = 5000;

fn pixel(bytes: &[u8], w: usize, x: usize, y: usize) -> (u8, u8, u8) {
    let base = 3 * (y * w + x);
    (bytes[base], bytes[base + 1], bytes[base + 2])
}

#[test]
fn two_half_amplitude_samples_on_a_four_by_four_canvas() {
    // Samples standing for [0.5, -0.5]: the accumulated peak is 0.5, so the
    // scale is 2 and both strokes span the full half height. They land in
    // columns floor(4*0/2) = 0 and floor(4*1/2) = 2, each running from the
    // center row 2 to the clamped far row 3.
    let sound: Vec<i64> = vec![HALF, -HALF];
    let view = ViewSignal::new(&sound, [4, 4], [255, 0, 0], [0, 0, 0]).unwrap();
    assert_eq!(view.width(), 4);
    assert_eq!(view.height(), 4);
    let bytes = view.to_bytes();
    assert_eq!(bytes.len(), 48);
    for y in 0..4usize {
        for x in 0..4usize {
            let on_stroke = (x == 0 || x == 2) && (y == 2 || y == 3);
            let expected = if on_stroke { (255, 0, 0) } else { (0, 0, 0) };
            assert_eq!(pixel(&bytes, 4, x, y), expected, "pixel ({}, {})", x, y);
        }
    }
}

#[test]
fn rendering_twice_is_byte_identical() {
    let sound: Vec<i64> = vec![120, -44, 3067, 13, -9999, 450];
    let first = ViewSignal::new(&sound, [16, 9], [10, 200, 30], [250, 240, 230]).unwrap();
    let second = ViewSignal::new(&sound, [16, 9], [10, 200, 30], [250, 240, 230]).unwrap();
    assert_eq!(first.to_bytes(), second.to_bytes());
}

#[test]
fn pixels_off_the_strokes_keep_the_background() {
    // One positive sample: a single stroke in column 0; everything else
    // must be exactly the background.
    let sound: Vec<i64> = vec![1000];
    let view = ViewSignal::new(&sound, [5, 6], [1, 2, 3], [40, 50, 60]).unwrap();
    let bytes = view.to_bytes();
    for y in 0..6usize {
        for x in 1..5usize {
            assert_eq!(pixel(&bytes, 5, x, y), (40, 50, 60));
        }
    }
    // The stroke runs from the center row 3 to the bottom row 5.
    for y in 3..6usize {
        assert_eq!(pixel(&bytes, 5, 0, y), (1, 2, 3));
    }
    for y in 0..3usize {
        assert_eq!(pixel(&bytes, 5, 0, y), (40, 50, 60));
    }
}

#[test]
fn empty_buffer_is_reported_not_rendered() {
    let sound: Vec<i64> = Vec::new();
    let r = ViewSignal::new(&sound, [4, 4], [255, 0, 0], [0, 0, 0]);
    assert!(matches!(r, Err(RenderError::EmptyInput)));
}

#[test]
fn all_zero_buffer_is_reported_not_rendered() {
    let sound: Vec<i64> = vec![0, 0, 0, 0];
    let r = ViewSignal::new(&sound, [4, 4], [255, 0, 0], [0, 0, 0]);
    assert!(matches!(r, Err(RenderError::DegenerateAmplitude)));
}

#[test]
fn nonpositive_buffer_is_degenerate_too() {
    let sound: Vec<i64> = vec![-5, -1, 0];
    let r = ViewSignal::new(&sound, [4, 4], [255, 0, 0], [0, 0, 0]);
    assert!(matches!(r, Err(RenderError::DegenerateAmplitude)));
}

#[test]
fn bad_dimensions_are_reported_not_rendered() {
    let sound: Vec<i64> = vec![1, 2];
    let r = ViewSignal::new(&sound, [0, 4], [255, 0, 0], [0, 0, 0]);
    assert!(matches!(r, Err(RenderError::InvalidDimensions)));
    let r2 = ViewSignal::new(&sound, [4, 0], [255, 0, 0], [0, 0, 0]);
    assert!(matches!(r2, Err(RenderError::InvalidDimensions)));
    let r3 = ViewSignal::new(&sound, [16777216, 4], [255, 0, 0], [0, 0, 0]);
    assert!(matches!(r3, Err(RenderError::InvalidDimensions)));
}

#[test]
fn empty_buffer_wins_over_bad_dimensions() {
    let sound: Vec<i64> = Vec::new();
    let r = ViewSignal::new(&sound, [0, 0], [255, 0, 0], [0, 0, 0]);
    assert!(matches!(r, Err(RenderError::EmptyInput)));
}

#[test]
fn byte_views_of_a_render_agree() {
    let sound: Vec<i64> = vec![3, 1, 4, 1, 5];
    let view = ViewSignal::new(&sound, [8, 5], [9, 8, 7], [1, 2, 3]).unwrap();
    assert_eq!(view.as_bytes().to_vec(), view.to_bytes());
}

#[test]
fn convert_hands_over_bytes_and_dimensions() {
    let sound: Vec<i64> = vec![10, -20];
    let view = ViewSignal::new(&sound, [6, 3], [9, 8, 7], [1, 2, 3]).unwrap();
    let (len, dims) = view.convert(|bytes, dims| (bytes.len(), dims));
    assert_eq!(len, 6 * 3 * 3);
    assert_eq!(dims, [6, 3]);
}

#[test]
fn one_pixel_tall_render_stays_defined() {
    let sound: Vec<i64> = vec![100, -100, 50];
    let view = ViewSignal::new(&sound, [3, 1], [255, 255, 255], [0, 0, 0]).unwrap();
    let bytes = view.to_bytes();
    assert_eq!(bytes.len(), 9);
    // Every stroke collapses onto the single row.
    for x in 0..3usize {
        assert_eq!(pixel(&bytes, 3, x, 0), (255, 255, 255));
    }
}

#[test]
fn duration_divides_by_rate_then_channels() {
    assert_eq!(sample_duration_secs(44100 * 6, 44100, 2), 3);
    assert_eq!(sample_duration_secs(1000, 44100, 2), 0);
}

#[test]
fn default_width_is_one_column_per_hundred_samples() {
    assert_eq!(convert_duration_to_width(1234), 12);
    assert_eq!(convert_duration_to_width(99), 0);
}
