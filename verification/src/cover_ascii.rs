//! Cover images drawn as text: how large the drawing is for the terminal,
//! the scaling (done by the `image` crate), and the character standing for
//! each gray level.

use crate::text::strings_view;
use vstd::prelude::*;

verus! {

/// The characters from dark to light: " .:-=+*#%@".
pub open spec fn palette(i: nat) -> char {
    if i == 0 {
        ' '
    } else if i == 1 {
        '.'
    } else if i == 2 {
        ':'
    } else if i == 3 {
        '-'
    } else if i == 4 {
        '='
    } else if i == 5 {
        '+'
    } else if i == 6 {
        '*'
    } else if i == 7 {
        '#'
    } else if i == 8 {
        '%'
    } else {
        '@'
    }
}

/// The character of palette entry `i` (0 to 9).
fn palette_at(i: usize) -> (c: char)
    ensures
        c == palette(i as nat),
{
    if i == 0 {
        ' '
    } else if i == 1 {
        '.'
    } else if i == 2 {
        ':'
    } else if i == 3 {
        '-'
    } else if i == 4 {
        '='
    } else if i == 5 {
        '+'
    } else if i == 6 {
        '*'
    } else if i == 7 {
        '#'
    } else if i == 8 {
        '%'
    } else {
        '@'
    }
}

/// The character of gray level `g` in the terminal view: the palette entry
/// nearest to `9 * g / 255` (never a tie, as `18 * g` is even and `255` odd).
pub open spec fn nearest_char(g: u8) -> char {
    palette(((18 * g + 255) / 510) as nat)
}

/// The character of gray level `g` in the console view: the palette entry
/// `9 * g / 255` rounded down.
pub open spec fn floor_char(g: u8) -> char {
    palette(((9 * g) / 255) as nat)
}

/// `a * b`, saturating at the largest `u32`.
pub open spec fn sat_mul32(a: u32, b: int) -> u32 {
    if a * b > u32::MAX { u32::MAX } else { (a * b) as u32 }
}

/// The size the terminal view scales a `w` by `h` image to (both nonzero):
/// at most the terminal width less six (at least 16) and the image width;
/// the height keeps the aspect with characters twice as tall as wide, at
/// most the terminal height less four (at least 8), and at least one row.
pub open spec fn tui_target(term_w: u16, term_h: u16, w: u32, h: u32) -> (u32, u32) {
    let max_width: u32 = if term_w >= 22 { (term_w - 6) as u32 } else { 16 };
    let tw: u32 = if max_width <= w { max_width } else { w };
    let th0: u32 = (sat_mul32(sat_mul32(h, tw as int), 2) / w) as u32;
    let max_height: u32 = if term_h >= 12 { (term_h - 4) as u32 } else { 8 };
    let th: u32 = if th0 > max_height { max_height } else { th0 };
    (tw, if th >= 1 { th } else { 1 })
}

/// What the `image` crate makes of an RGB image (`rgb`, three bytes a pixel,
/// `width` by `height`) scaled by `DynamicImage::resize` with the triangle
/// filter to fit `nwidth` by `nheight` keeping its aspect, then turned to
/// 8-bit gray by `to_luma8`: the gray bytes, the width and the height.
pub uninterp spec fn resized_gray(rgb: Seq<u8>, width: u32, height: u32, nwidth: u32, nheight: u32) -> (Seq<u8>, u32, u32);

/// Scales an RGB image with `image::DynamicImage::resize` (triangle
/// filter) and turns it to gray with `to_luma8`. The result is named by
/// `resized_gray`; its bytes are one per pixel, row after row.
#[verifier::external_body]
fn resize_to_gray(rgb: Vec<u8>, width: u32, height: u32, nwidth: u32, nheight: u32) -> (r: (Vec<u8>, u32, u32))
    requires
        rgb@.len() == width * height * 3,
        width > 0,
        height > 0,
        nwidth > 0,
        nheight > 0,
    ensures
        (r.0@, r.1, r.2) == resized_gray(rgb@, width, height, nwidth, nheight),
        r.0@.len() == r.1 * r.2,
{
    let img = image::RgbImage::from_raw(width, height, rgb).unwrap();
    let gray = image::DynamicImage::ImageRgb8(img).resize(nwidth, nheight, image::imageops::FilterType::Triangle).to_luma8();
    let (w, h) = gray.dimensions();
    (gray.into_raw(), w, h)
}

/// What `image::imageops::resize` with the triangle filter makes of a gray
/// image (`gray`, one byte a pixel, `width` by `height`) scaled to exactly
/// `nwidth` by `nheight`: its bytes.
pub uninterp spec fn resized_gray_exact(gray: Seq<u8>, width: u32, height: u32, nwidth: u32, nheight: u32) -> Seq<u8>;

/// Scales a gray image to exactly `nwidth` by `nheight` with
/// `image::imageops::resize` (triangle filter). The result is named by
/// `resized_gray_exact`; it holds one byte per pixel of the new size.
#[verifier::external_body]
fn resize_gray_exact(gray: Vec<u8>, width: u32, height: u32, nwidth: u32, nheight: u32) -> (r: Vec<u8>)
    requires
        gray@.len() == width * height,
        width > 0,
        height > 0,
    ensures
        r@ == resized_gray_exact(gray@, width, height, nwidth, nheight),
        r@.len() == nwidth * nheight,
{
    let img = image::GrayImage::from_raw(width, height, gray).unwrap();
    image::imageops::resize(&img, nwidth, nheight, image::imageops::FilterType::Triangle).into_raw()
}

/// The text of a gray image (`pixels`, `width` per row, `height` rows), each
/// pixel drawn by `pick`.
pub open spec fn gray_text(pixels: Seq<u8>, width: nat, height: nat, nearest: bool) -> Seq<Seq<char>> {
    Seq::new(height, |y: int| Seq::new(width, |x: int| if nearest { nearest_char(pixels[y * width + x]) } else { floor_char(pixels[y * width + x]) }))
}

/// One row of the text of a gray image.
fn gray_row(pixels: &Vec<u8>, start: usize, width: usize, nearest: bool) -> (s: String)
    requires
        start + width <= pixels@.len(),
    ensures
        s@ == Seq::new(width as nat, |x: int| if nearest { nearest_char(pixels@[start + x]) } else { floor_char(pixels@[start + x]) }),
{
    let mut v: Vec<char> = Vec::new();
    for x in 0..width
        invariant
            start + width <= pixels.len(),
            v@ == Seq::new(x as nat, |i: int| if nearest { nearest_char(pixels@[start + i]) } else { floor_char(pixels@[start + i]) }),
    {
        let g = pixels[start + x];
        let idx: usize = if nearest { (18 * (g as usize) + 255) / 510 } else { (9 * (g as usize)) / 255 };
        v.push(palette_at(idx));
        proof {
            assert(v@ =~= Seq::new((x + 1) as nat, |i: int| if nearest { nearest_char(pixels@[start + i]) } else { floor_char(pixels@[start + i]) }));
        }
    }
    crate::text::string_of(v.as_slice())
}

/// The text of a gray image, each pixel drawn with the nearest palette
/// entry (`nearest`) or the one below.
pub fn gray_ascii_lines(pixels: &Vec<u8>, width: u32, height: u32, nearest: bool) -> (lines: Vec<String>)
    requires
        pixels@.len() == width * height,
    ensures
        strings_view(lines@) == gray_text(pixels@, width as nat, height as nat, nearest),
{
    let w = width as usize;
    let h = height as usize;
    let mut lines: Vec<String> = Vec::new();
    let mut base: usize = 0;
    let mut y: usize = 0;
    while y < h
        invariant
            y <= h,
            w == width as usize,
            h == height as usize,
            pixels@.len() == width * height,
            base as int == y as int * w as int,
            strings_view(lines@) == gray_text(pixels@, w as nat, height as nat, nearest).take(y as int),
        decreases h - y,
    {
        assert(base + w <= pixels.len()) by (nonlinear_arith)
            requires
                base as int == y as int * w as int,
                y < h,
                pixels.len() == w as int * h as int,
        ;
        let row = gray_row(pixels, base, w, nearest);
        let ghost before = strings_view(lines@);
        lines.push(row);
        proof {
            let t = gray_text(pixels@, w as nat, height as nat, nearest);
            assert(strings_view(lines@) =~= before.push(row@));
            assert(t.take(y + 1) =~= t.take(y as int).push(t[y as int]));
            assert(row@ =~= t[y as int]) by {
                assert forall|x: int| 0 <= x < w implies #[trigger] row@[x] == t[y as int][x] by {
                    assert(base + x == y * w + x);
                }
            }
            assert(strings_view(lines@) =~= t.take(y + 1));
        }
        assert(base + w == (y + 1) * w) by (nonlinear_arith)
            requires
                base as int == y as int * w as int,
        ;
        base = base + w;
        y = y + 1;
    }
    proof {
        assert(gray_text(pixels@, w as nat, height as nat, nearest).take(h as int) =~= gray_text(pixels@, w as nat, height as nat, nearest));
    }
    lines
}

/// The terminal view's text of an RGB cover image (`rgb`, `w` by `h`) for
/// a `term_w` by `term_h` terminal: nothing for an empty image, else the
/// image scaled to `tui_target` and drawn with the nearest palette entries.
pub fn image_to_ascii(rgb: Vec<u8>, w: u32, h: u32, term_w: u16, term_h: u16) -> (lines: Vec<String>)
    requires
        rgb@.len() == w * h * 3,
    ensures
        (w == 0 || h == 0) ==> lines@.len() == 0,
        (w > 0 && h > 0) ==> ({
            let (tw, th) = tui_target(term_w, term_h, w, h);
            let g = resized_gray(rgb@, w, h, tw, th);
            strings_view(lines@) == gray_text(g.0, g.1 as nat, g.2 as nat, true)
        }),
{
    if w == 0 || h == 0 {
        return Vec::new();
    }
    let max_width: u32 = if term_w >= 22 { (term_w - 6) as u32 } else { 16 };
    let tw: u32 = if max_width <= w { max_width } else { w };
    let hw: u32 = match h.checked_mul(tw) {
        Some(x) => x,
        None => u32::MAX,
    };
    let hw2: u32 = match hw.checked_mul(2) {
        Some(x) => x,
        None => u32::MAX,
    };
    let th0: u32 = hw2 / w;
    let max_height: u32 = if term_h >= 12 { (term_h - 4) as u32 } else { 8 };
    let th: u32 = if th0 > max_height { max_height } else { th0 };
    let th1: u32 = if th >= 1 { th } else { 1 };
    assert((tw, th1) == tui_target(term_w, term_h, w, h));
    let (gray, gw, gh) = resize_to_gray(rgb, w, h, tw, th1);
    gray_ascii_lines(&gray, gw, gh, true)
}

/// The size the console view scales a cover to for a `cols` by `rows`
/// terminal: at least 40 columns wide, and the rows less six, at least 8.
pub open spec fn console_target(cols: u16, rows: u16) -> (u32, u32) {
    let c: u32 = if cols >= 40 { cols as u32 } else { 40 };
    let r: u32 = if rows >= 10 { rows as u32 } else { 10 };
    (c, if r >= 14 { (r - 6) as u32 } else { 8 })
}

/// The console view's text of a gray cover image (`gray`, `w` by `h`) for
/// a `cols` by `rows` terminal: the image scaled to exactly
/// `console_target` and drawn with the palette entries rounded down.
pub fn console_cover_ascii(gray: Vec<u8>, w: u32, h: u32, cols: u16, rows: u16) -> (lines: Vec<String>)
    requires
        gray@.len() == w * h,
        w > 0,
        h > 0,
    ensures
        ({
            let (tw, th) = console_target(cols, rows);
            strings_view(lines@) == gray_text(resized_gray_exact(gray@, w, h, tw, th), tw as nat, th as nat, false)
        }),
{
    let c: u32 = if cols >= 40 { cols as u32 } else { 40 };
    let r: u32 = if rows >= 10 { rows as u32 } else { 10 };
    let th: u32 = if r >= 14 { r - 6 } else { 8 };
    let small = resize_gray_exact(gray, w, h, c, th);
    gray_ascii_lines(&small, c, th, false)
}

/// The line above the console view's cover: "封面预览" between two runs of
/// "=" as long as half the width less sixteen (at least 40 columns wide).
pub open spec fn console_cover_banner(cols: u16) -> Seq<char> {
    let c: int = if cols >= 40 { cols as int } else { 40 };
    let n: nat = ((c - 16) / 2) as nat;
    Seq::new(n, |i: int| '=') + "封面预览"@ + Seq::new(n, |i: int| '=')
}

/// The line above the console view's cover.
pub fn cover_banner(cols: u16) -> (s: String)
    ensures
        s@ == console_cover_banner(cols),
{
    let c: usize = if cols >= 40 { cols as usize } else { 40 };
    let n: usize = (c - 16) / 2;
    let mut v: Vec<char> = Vec::new();
    for i in 0..n
        invariant
            v@ == Seq::new(i as nat, |k: int| '='),
    {
        v.push('=');
        assert(v@ =~= Seq::new((i + 1) as nat, |k: int| '='));
    }
    let ghost run = v@;
    v.extend_from_slice(crate::text::chars_of("封面预览").as_slice());
    for i in 0..n
        invariant
            v@ == run + "封面预览"@ + Seq::new(i as nat, |k: int| '='),
    {
        v.push('=');
        assert(v@ =~= run + "封面预览"@ + Seq::new((i + 1) as nat, |k: int| '='));
    }
    crate::text::string_of(v.as_slice())
}

/// Every gray level is drawn with a palette entry within half a step of
/// its exact position `9 * g / 255`, and the console view's entry is never
/// lighter than the terminal view's.
pub proof fn lemma_nearest_palette_entry(g: u8)
    ensures
        ({
            let i = (18 * g + 255) / 510;
            &&& 0 <= i <= 9
            &&& 2 * (510 * i - 255) <= 36 * g <= 2 * (510 * i + 255)
            &&& (9 * g) / 255 <= i
        }),
{
    assert(0 <= (18 * g + 255) / 510 <= 9) by (nonlinear_arith)
        requires
            0 <= g <= 255,
    ;
    assert(2 * (510 * ((18 * g + 255) / 510) - 255) <= 36 * g <= 2 * (510 * ((18 * g + 255) / 510) + 255)) by (nonlinear_arith)
        requires
            0 <= g <= 255,
    ;
    assert((9 * g) / 255 <= (18 * g + 255) / 510) by (nonlinear_arith)
        requires
            0 <= g <= 255,
    ;
}

} // verus!
