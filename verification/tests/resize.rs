use ansimage::convert::resize_to_grid;
use ansimage::error::AnsiImageError;
use ansimage::resize::{resize_image, resized};
use ansimage::settings::ResizeFilter;

const FILTERS: [ResizeFilter; 7] = [
    ResizeFilter::Box,
    ResizeFilter::Bilinear,
    ResizeFilter::Hamming,
    ResizeFilter::CatmullRom,
    ResizeFilter::Mitchell,
    ResizeFilter::Gaussian,
    ResizeFilter::Lanczos3,
];

fn uniform(width: usize, height: usize, color: [u8; 3]) -> Vec<u8> {
    color.iter().copied().cycle().take(3 * width * height).collect()
}

#[test]
fn result_has_three_bytes_for_every_target_pixel() {
    for filter in FILTERS {
        let out = resize_image(uniform(2, 2, [10, 20, 30]), 2, 2, 4, 6, filter).unwrap();
        assert_eq!(out.len(), 3 * 4 * 6);
        let out = resize_image(uniform(5, 3, [10, 20, 30]), 5, 3, 2, 1, filter).unwrap();
        assert_eq!(out.len(), 3 * 2);
    }
}

#[test]
fn uniform_image_stays_uniform() {
    for filter in FILTERS {
        let out = resize_image(uniform(3, 3, [200, 100, 7]), 3, 3, 8, 4, filter).unwrap();
        for pixel in out.chunks(3) {
            assert!((pixel[0] as i32 - 200).abs() <= 1);
            assert!((pixel[1] as i32 - 100).abs() <= 1);
            assert!((pixel[2] as i32 - 7).abs() <= 1);
        }
    }
}

#[test]
fn same_size_copies_the_image() {
    let pixels: Vec<u8> = (0..3 * 4 * 2).map(|i| (i * 7) as u8).collect();
    let out = resize_image(pixels.clone(), 4, 2, 4, 2, ResizeFilter::Lanczos3).unwrap();
    assert_eq!(out, pixels);
}

#[test]
fn halves_keep_their_sides() {
    let mut pixels = Vec::new();
    for _row in 0..4 {
        pixels.extend(uniform(4, 1, [0, 0, 0]));
        pixels.extend(uniform(4, 1, [255, 255, 255]));
    }
    let out = resize_image(pixels, 8, 4, 2, 1, ResizeFilter::Box).unwrap();
    assert_eq!(out, vec![0, 0, 0, 255, 255, 255]);
}

#[test]
fn short_buffer_is_a_processing_error() {
    match resize_image(vec![0; 11], 2, 2, 4, 4, ResizeFilter::Lanczos3) {
        Err(AnsiImageError::Processing(m)) => {
            assert_eq!(m, "Size of buffer is smaller than required")
        }
        _ => panic!(),
    }
    assert!(resize_image(Vec::new(), 1, 1, 1, 1, ResizeFilter::Box).is_err());
}

#[test]
fn longer_buffer_is_accepted() {
    let out = resize_image(vec![9; 13], 2, 2, 1, 1, ResizeFilter::Box).unwrap();
    assert_eq!(out, vec![9, 9, 9]);
}

#[test]
fn empty_target_is_an_empty_buffer() {
    let out = resize_image(uniform(2, 2, [1, 2, 3]), 2, 2, 0, 0, ResizeFilter::Lanczos3).unwrap();
    assert!(out.is_empty());
    let out = resize_image(uniform(2, 2, [1, 2, 3]), 2, 2, 5, 0, ResizeFilter::Lanczos3).unwrap();
    assert!(out.is_empty());
}

#[test]
fn empty_source_leaves_the_target_blank() {
    let out = resize_image(Vec::new(), 0, 0, 2, 1, ResizeFilter::Lanczos3).unwrap();
    assert_eq!(out, vec![0; 6]);
}

#[test]
fn sizes_beyond_memory_are_a_processing_error() {
    let huge = u32::MAX;
    assert!(matches!(
        resize_image(vec![0; 12], 2, 2, huge, huge, ResizeFilter::Box),
        Err(AnsiImageError::Processing(_))
    ));
    assert!(matches!(
        resize_image(vec![0; 12], huge, huge, 2, 2, ResizeFilter::Box),
        Err(AnsiImageError::Processing(_))
    ));
}

#[test]
fn answer_of_the_resampler_becomes_the_result() {
    assert_eq!(resized(Ok(vec![1, 2, 3])).unwrap(), vec![1, 2, 3]);
    match resized(Err("no".to_string())) {
        Err(AnsiImageError::Processing(m)) => assert_eq!(m, "no"),
        _ => panic!(),
    }
}

#[test]
fn grid_gets_two_pixels_to_the_cell_each_way() {
    let out = resize_to_grid(uniform(3, 3, [5, 6, 7]), 3, 3, 4, 2, ResizeFilter::Lanczos3).unwrap();
    assert_eq!(out.len(), 3 * 8 * 4);
    let out = resize_to_grid(uniform(3, 3, [5, 6, 7]), 3, 3, 0, 2, ResizeFilter::Lanczos3).unwrap();
    assert!(out.is_empty());
    assert!(matches!(
        resize_to_grid(uniform(3, 3, [5, 6, 7]), 3, 3, 0x8000_0000, 1, ResizeFilter::Box),
        Err(AnsiImageError::Processing(_))
    ));
    assert!(matches!(
        resize_to_grid(vec![0; 5], 3, 3, 1, 1, ResizeFilter::Box),
        Err(AnsiImageError::Processing(_))
    ));
}
