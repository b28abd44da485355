use aaag::image_data::Img;
use aaag::image_data::Rgba;
use aaag::img_to_ascii_art;
use aaag::parse_config;
use aaag::render::generate_ascii_art;
use aaag::Config;
use aaag::dimensions::DimensionError;

const RAMP: &str = ".'`^\",:;Il!i><~+_-?][}{1)(|\\/tfjrxuvczUJCLQOZmwqpdbkho*#MW&8%B@$";

fn px(r: u8, g: u8, b: u8) -> Rgba {
    Rgba { r, g, b, a: 255 }
}

fn one_pixel_img(r: u8, g: u8, b: u8) -> Img {
    Img::new(1, 1, vec![px(r, g, b)]).unwrap()
}

fn config(width: Option<u32>, height: Option<u32>, color: bool) -> Config {
    parse_config(String::from("in.png"), String::from("out.txt"), width, height, color)
}

#[test]
fn black_pixel_renders_first_ramp_glyph() {
    let out = img_to_ascii_art(one_pixel_img(0, 0, 0), &config(Some(1), Some(1), false));
    assert_eq!(out.unwrap(), vec![String::from(".")]);
}

#[test]
fn white_pixel_renders_last_ramp_glyph() {
    let out = img_to_ascii_art(one_pixel_img(255, 255, 255), &config(Some(1), Some(1), false));
    assert_eq!(out.unwrap(), vec![String::from("$")]);
}

#[test]
fn white_pixel_in_color_mode_gets_escape_and_reset() {
    let out = img_to_ascii_art(one_pixel_img(255, 255, 255), &config(Some(1), Some(1), true));
    assert_eq!(out.unwrap(), vec![String::from("\u{1b}[38;2;255;255;255m$\u{1b}[39m")]);
}

#[test]
fn running_twice_is_byte_identical() {
    let cfg = config(Some(2), Some(2), true);
    let pixels = vec![px(10, 20, 30), px(200, 100, 0), px(0, 0, 0), px(255, 255, 255)];
    let img1 = Img::new(2, 2, pixels.clone()).unwrap();
    let img2 = Img::new(2, 2, pixels).unwrap();
    assert_eq!(img_to_ascii_art(img1, &cfg).unwrap(), img_to_ascii_art(img2, &cfg).unwrap());
}

#[test]
fn primary_colors_hit_their_luma_buckets() {
    // luma(255,0,0) = 76245/1000 = 76, bucket 19
    // luma(0,255,0) = 149685/1000 = 149, bucket 37
    // luma(0,0,255) = 29070/1000 = 29, bucket 7
    let pixels = vec![px(255, 0, 0), px(0, 255, 0), px(0, 0, 255)];
    let img = Img::new(3, 1, pixels).unwrap();
    let lines = generate_ascii_art(&img, false);
    let expected: String = [19usize, 37, 7].iter().map(|&i| RAMP.as_bytes()[i] as char).collect();
    assert_eq!(lines, vec![expected]);
}

#[test]
fn darker_shade_never_selects_later_glyph() {
    let shades = vec![px(10, 40, 70), px(60, 90, 120), px(110, 140, 170), px(210, 240, 250)];
    let img = Img::new(4, 1, shades).unwrap();
    let lines = generate_ascii_art(&img, false);
    let positions: Vec<usize> =
        lines[0].chars().map(|c| RAMP.find(c).expect("glyph from the ramp")).collect();
    for pair in positions.windows(2) {
        assert!(pair[0] <= pair[1]);
    }
}

#[test]
fn one_line_per_row_one_glyph_per_column() {
    let pixels = vec![px(0, 0, 0); 6];
    let img = Img::new(3, 2, pixels).unwrap();
    let lines = generate_ascii_art(&img, false);
    assert_eq!(lines.len(), 2);
    assert!(lines.iter().all(|l| l.chars().count() == 3));
}

#[test]
fn reset_escape_only_on_last_line() {
    let pixels = vec![px(255, 0, 0), px(0, 255, 0)];
    let img = Img::new(1, 2, pixels).unwrap();
    let lines = generate_ascii_art(&img, true);
    assert_eq!(lines.len(), 2);
    assert_eq!(lines[0], "\u{1b}[38;2;255;0;0m]");
    assert_eq!(lines[1], "\u{1b}[38;2;0;255;0mz\u{1b}[39m");
}

#[test]
fn upscaling_goes_through_the_resampler() {
    // a 1x1 image blown up to 2x2 must come back as four pixels
    let out = img_to_ascii_art(one_pixel_img(255, 255, 255), &config(Some(2), Some(2), false));
    assert_eq!(out.unwrap(), vec![String::from("$$"), String::from("$$")]);
}

#[test]
fn downscaling_a_uniform_image_keeps_its_glyph() {
    let pixels = vec![px(128, 128, 128); 16];
    let img = Img::new(4, 4, pixels).unwrap();
    let out = img_to_ascii_art(img, &config(Some(2), Some(1), false));
    // luma(128,128,128) = 128, bucket 32
    let glyph = RAMP.as_bytes()[32] as char;
    assert_eq!(out.unwrap(), vec![[glyph, glyph].iter().collect::<String>()]);
}

#[test]
fn pipeline_propagates_dimension_errors() {
    let img = one_pixel_img(0, 0, 0);
    let out = img_to_ascii_art(img, &config(Some(0), Some(3), false));
    assert_eq!(out.unwrap_err(), DimensionError::WidthTooSmall);
    let img = one_pixel_img(0, 0, 0);
    let out = img_to_ascii_art(img, &config(Some(3), Some(0), false));
    assert_eq!(out.unwrap_err(), DimensionError::HeightTooSmall);
}

#[test]
fn unaddressable_grid_is_refused() {
    let img = one_pixel_img(0, 0, 0);
    let out = img_to_ascii_art(img, &config(Some(u32::MAX), Some(u32::MAX), false));
    assert_eq!(out.unwrap_err(), DimensionError::TooLarge);
}

#[test]
fn img_new_checks_the_buffer_shape() {
    assert!(Img::new(2, 2, vec![px(0, 0, 0); 4]).is_some());
    assert!(Img::new(2, 2, vec![px(0, 0, 0); 3]).is_none());
    let img = Img::new(2, 1, vec![px(1, 2, 3), px(4, 5, 6)]).unwrap();
    assert_eq!(img.width(), 2);
    assert_eq!(img.height(), 1);
    assert_eq!(img.pixel(1, 0), px(4, 5, 6));
}
