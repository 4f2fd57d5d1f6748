use image::{DynamicImage, GenericImageView, RgbImage};
use tomato_ui::cover_ascii::{console_cover_ascii, cover_banner, gray_ascii_lines, image_to_ascii};

const PALETTE: &[u8] = b" .:-=+*#%@";

fn float_char(v: u8) -> char {
    let f = v as f32 / 255.0;
    let idx = (f * (PALETTE.len() as f32 - 1.0)).round() as usize;
    *PALETTE.get(idx).unwrap_or(&b' ') as char
}

fn sample_image() -> RgbImage {
    let mut img = RgbImage::new(30, 20);
    for (x, y, p) in img.enumerate_pixels_mut() {
        let v = ((x * 8 + y * 5) % 256) as u8;
        *p = image::Rgb([v, v.wrapping_mul(3), 255 - v]);
    }
    img
}

#[test]
fn every_gray_level_matches_the_rounded_palette() {
    let levels: Vec<u8> = (0..=255u8).collect();
    let lines = gray_ascii_lines(&levels, 256, 1, true);
    let expected: String = levels.iter().map(|&v| float_char(v)).collect();
    assert_eq!(lines, vec![expected]);
    let lines = gray_ascii_lines(&levels, 16, 16, false);
    assert_eq!(lines.len(), 16);
    assert_eq!(lines[0].chars().next(), Some(' '));
    assert_eq!(lines[15].chars().last(), Some('@'));
    let floor: String = levels[16..32].iter().map(|&v| PALETTE[v as usize * 9 / 255] as char).collect();
    assert_eq!(lines[1], floor);
}

#[test]
fn terminal_cover_text() {
    let img = sample_image();
    let (w, h) = img.dimensions();
    let lines = image_to_ascii(img.clone().into_raw(), w, h, 30, 20);
    // The same drawing made directly with the image crate.
    let max_width = 30u16.saturating_sub(6).max(16) as u32;
    let tw = std::cmp::min(max_width, w);
    let th = std::cmp::min(h.saturating_mul(tw).saturating_mul(2) / w, 20u16.saturating_sub(4).max(8) as u32);
    let gray = DynamicImage::ImageRgb8(img).resize(tw, th.max(1), image::imageops::FilterType::Triangle).to_luma8();
    let expected: Vec<String> = (0..gray.height())
        .map(|y| (0..gray.width()).map(|x| float_char(gray.get_pixel(x, y)[0])).collect())
        .collect();
    assert_eq!(lines, expected);
    assert!(image_to_ascii(Vec::new(), 0, 5, 80, 24).is_empty());
}

#[test]
fn console_cover_text() {
    let img = DynamicImage::ImageRgb8(sample_image()).to_luma8();
    let (w, h) = img.dimensions();
    let lines = console_cover_ascii(img.clone().into_raw(), w, h, 30, 20);
    assert_eq!(lines.len(), 14);
    assert!(lines.iter().all(|l| l.chars().count() == 40));
    let resized = image::imageops::resize(&img, 40, 14, image::imageops::FilterType::Triangle);
    let expected: Vec<String> = (0..14)
        .map(|y| (0..40).map(|x| PALETTE[resized.get_pixel(x, y)[0] as usize * 9 / 255] as char).collect())
        .collect();
    assert_eq!(lines, expected);
    assert_eq!(cover_banner(20), format!("{}封面预览{}", "=".repeat(12), "=".repeat(12)));
    assert_eq!(cover_banner(50), format!("{}封面预览{}", "=".repeat(17), "=".repeat(17)));
}
