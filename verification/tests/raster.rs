use vcard_qr::raster::{can_render, rasterize, render, rgba_from_luma, try_render, GrayImage, RASTER_SIZE};

const CARD: &str = "BEGIN:VCARD\nVERSION:3.0\nN:Doe;Jane;;;\nFN:Jane Doe\nEND:VCARD";

#[test]
fn raster_size_is_512() {
    assert_eq!(RASTER_SIZE, 512);
}

#[test]
fn gray_image_needs_one_sample_per_pixel() {
    assert!(GrayImage::new(2, 2, vec![0, 255, 255, 0]).is_some());
    assert!(GrayImage::new(2, 2, vec![0, 255, 255]).is_none());
    assert!(GrayImage::new(2, 2, vec![0, 255, 255, 0, 0]).is_none());
    assert!(GrayImage::new(0, 7, vec![]).is_some());
    assert!(GrayImage::new(0, 7, vec![1]).is_none());
}

#[test]
fn gray_image_keeps_what_it_was_given() {
    let image = GrayImage::new(3, 2, vec![1, 2, 3, 4, 5, 6]).unwrap();
    assert_eq!(image.width(), 3);
    assert_eq!(image.height(), 2);
    assert_eq!(image.samples(), &vec![1, 2, 3, 4, 5, 6]);
}

#[test]
fn rgba_repeats_each_sample_and_is_opaque() {
    let image = GrayImage::new(2, 2, vec![0, 255, 17, 200]).unwrap();
    let bitmap = rgba_from_luma(&image);
    assert_eq!(bitmap.width(), 2);
    assert_eq!(bitmap.height(), 2);
    assert_eq!(
        bitmap.rgba(),
        &vec![0, 0, 0, 255, 255, 255, 255, 255, 17, 17, 17, 255, 200, 200, 200, 255]
    );
}

#[test]
fn rgba_of_an_empty_image_is_empty() {
    let image = GrayImage::new(0, 0, vec![]).unwrap();
    let bitmap = rgba_from_luma(&image);
    assert_eq!(bitmap.width(), 0);
    assert_eq!(bitmap.height(), 0);
    assert!(bitmap.rgba().is_empty());
}

#[test]
fn raster_is_a_black_and_white_square() {
    let image = rasterize(CARD).unwrap();
    assert_eq!(image.width(), 512);
    assert_eq!(image.height(), 512);
    assert_eq!(image.samples().len(), 512 * 512);
    assert!(image.samples().iter().all(|&s| s == 0 || s == 255));
    assert!(image.samples().iter().any(|&s| s == 0));
    assert!(image.samples().iter().any(|&s| s == 255));
    // the corner lies in the margin, which is white
    assert_eq!(image.samples()[0], 255);
}

#[test]
fn raster_depends_on_the_text() {
    let a = rasterize(CARD).unwrap();
    let b = rasterize("BEGIN:VCARD\nVERSION:3.0\nN:Roe;John;;;\nFN:John Roe\nEND:VCARD").unwrap();
    assert_ne!(a.samples(), b.samples());
}

#[test]
fn render_gives_512_by_512_opaque_gray() {
    assert!(can_render(CARD));
    let bitmap = render(CARD);
    assert_eq!(bitmap.width(), 512);
    assert_eq!(bitmap.height(), 512);
    let bytes = bitmap.rgba();
    assert_eq!(bytes.len(), 512 * 512 * 4);
    for pixel in bytes.chunks(4) {
        assert_eq!(pixel[0], pixel[1]);
        assert_eq!(pixel[1], pixel[2]);
        assert_eq!(pixel[3], 255);
    }
}

#[test]
fn render_is_the_rgba_of_the_raster() {
    let image = rasterize(CARD).unwrap();
    let bitmap = render(CARD);
    assert_eq!(bitmap.rgba(), rgba_from_luma(&image).rgba());
    for (i, sample) in image.samples().iter().enumerate() {
        assert_eq!(bitmap.rgba()[4 * i], *sample);
    }
}

#[test]
fn render_twice_gives_equal_bitmaps() {
    let first = render(CARD);
    let second = render(CARD);
    assert_eq!(first.width(), second.width());
    assert_eq!(first.height(), second.height());
    assert_eq!(first.rgba(), second.rgba());
}

#[test]
fn try_render_agrees_with_render() {
    let bitmap = try_render(CARD).unwrap();
    assert_eq!(bitmap.rgba(), render(CARD).rgba());
}

#[test]
fn text_beyond_every_symbol_is_not_rendered() {
    let long = "x".repeat(4000);
    assert!(!can_render(&long));
    assert!(rasterize(&long).is_none());
    assert!(try_render(&long).is_none());
}

#[test]
fn empty_text_has_a_symbol() {
    assert!(can_render(""));
    let bitmap = try_render("").unwrap();
    assert_eq!(bitmap.rgba().len(), 512 * 512 * 4);
}

#[test]
fn the_samples_can_be_read_back_from_the_bitmap() {
    let samples = vec![0, 255, 17, 200, 3, 99];
    let image = GrayImage::new(3, 2, samples.clone()).unwrap();
    let bitmap = rgba_from_luma(&image);
    let back: Vec<u8> = bitmap.rgba().chunks(4).map(|pixel| pixel[0]).collect();
    assert_eq!(back, samples);
    let other = GrayImage::new(3, 2, vec![0, 255, 17, 200, 3, 98]).unwrap();
    assert_ne!(rgba_from_luma(&other).rgba(), bitmap.rgba());
}
