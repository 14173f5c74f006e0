use raytracer::raster::{encode_row, join_rows, push_pixel, PixelLayout};

#[test]
fn layouts_have_three_and_four_channels() {
    assert_eq!(PixelLayout::Rgb.channels(), 3);
    assert_eq!(PixelLayout::Rgba.channels(), 4);
}

#[test]
fn push_pixel_appends_one_pixel() {
    let mut buf = vec![9u8];
    push_pixel(&mut buf, [1, 2, 3], PixelLayout::Rgb);
    assert_eq!(buf, vec![9, 1, 2, 3]);
    push_pixel(&mut buf, [4, 5, 6], PixelLayout::Rgba);
    assert_eq!(buf, vec![9, 1, 2, 3, 4, 5, 6, 255]);
}

#[test]
fn rgb_row_is_tightly_packed() {
    let row = encode_row(&vec![[1, 2, 3], [4, 5, 6]], PixelLayout::Rgb);
    assert_eq!(row, vec![1, 2, 3, 4, 5, 6]);
}

#[test]
fn rgba_row_has_opaque_alpha() {
    let row = encode_row(&vec![[1, 2, 3], [4, 5, 6]], PixelLayout::Rgba);
    assert_eq!(row, vec![1, 2, 3, 255, 4, 5, 6, 255]);
}

#[test]
fn empty_row_is_empty() {
    assert!(encode_row(&Vec::new(), PixelLayout::Rgba).is_empty());
}

#[test]
fn rows_join_top_first() {
    let rows = vec![vec![1u8, 2], vec![], vec![3, 4, 5]];
    assert_eq!(join_rows(&rows), vec![1, 2, 3, 4, 5]);
    assert!(join_rows(&Vec::new()).is_empty());
}

fn flat_image(width: usize, height: usize, layout: PixelLayout) -> Vec<u8> {
    // each row a single colour that depends on the row, as a flat sky gives
    let rows: Vec<Vec<u8>> = (0..height)
        .map(|y| encode_row(&vec![[y as u8, 100, 200]; width], layout))
        .collect();
    join_rows(&rows)
}

#[test]
fn image_of_80_by_60_has_the_expected_size_and_rows() {
    let rgb = flat_image(80, 60, PixelLayout::Rgb);
    assert_eq!(rgb.len(), 80 * 60 * 3);
    let rgba = flat_image(80, 60, PixelLayout::Rgba);
    assert_eq!(rgba.len(), 80 * 60 * 4);
    for y in 0..60 {
        for x in 0..80 {
            let o = (y * 80 + x) * 3;
            assert_eq!(&rgb[o..o + 3], &[y as u8, 100, 200]);
            let o = (y * 80 + x) * 4;
            assert_eq!(&rgba[o..o + 4], &[y as u8, 100, 200, 255]);
        }
    }
}
