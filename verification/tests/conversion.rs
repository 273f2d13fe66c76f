use ascii_art::image_to_ascci;
use ascii_art::is_resizable;
use ascii_art::luma_grid;
use ascii_art::render;
use ascii_art::resize_image;
use ascii_art::try_resize_image;
use image::DynamicImage;
use image::GenericImageView;
use image::GrayImage;
use image::Luma;
use image::Rgb;
use image::RgbImage;

fn gray(width: u32, height: u32, pixels: Vec<u8>) -> DynamicImage {
    DynamicImage::ImageLuma8(GrayImage::from_raw(width, height, pixels).unwrap())
}

fn solid(width: u32, height: u32, value: u8) -> DynamicImage {
    DynamicImage::ImageRgb8(RgbImage::from_pixel(width, height, Rgb([value, value, value])))
}

#[test]
fn resized_image_has_the_target_dimensions() {
    let img = solid(1000, 500, 40);
    let resized = resize_image(&img, 170);
    assert_eq!(resized.dimensions(), (170, 34));
}

#[test]
fn wide_image_at_width_170_gives_34_lines_of_170_glyphs() {
    let img = solid(1000, 500, 90);
    let resized = resize_image(&img, 170);
    let art = image_to_ascci(&resized);
    assert_eq!(art.len(), 34);
    for line in &art {
        assert_eq!(line.chars().count(), 170);
    }
}

#[test]
fn resizing_can_enlarge() {
    let img = solid(10, 10, 0);
    let resized = resize_image(&img, 50);
    assert_eq!(resized.dimensions(), (50, 20));
}

#[test]
fn resizing_to_the_same_dimensions_keeps_them() {
    let img = solid(100, 250, 7);
    let resized = resize_image(&img, 100);
    assert_eq!(resized.dimensions(), (100, 100));
    let flat = solid(100, 100, 7);
    // 40 rows for 100 columns; then 40 * 40 / 100 / 2.5 = 6.4
    let once = resize_image(&flat, 100);
    assert_eq!(once.dimensions(), (100, 40));
}

#[test]
fn resizing_to_no_columns_gives_an_empty_image() {
    let img = solid(20, 20, 9);
    let resized = resize_image(&img, 0);
    assert_eq!(resized.dimensions(), (0, 0));
    assert_eq!(image_to_ascci(&resized), Vec::<String>::new());
}

#[test]
fn flat_image_resizes_to_no_rows() {
    let img = solid(1000, 1, 9);
    let resized = resize_image(&img, 170);
    assert_eq!(resized.dimensions(), (170, 0));
    assert_eq!(image_to_ascci(&resized), Vec::<String>::new());
}

#[test]
fn try_resize_gives_what_resize_gives() {
    let img = solid(1000, 500, 40);
    let resized = try_resize_image(&img, 170).unwrap();
    assert_eq!(resized.dimensions(), (170, 34));
    assert_eq!(resized, resize_image(&img, 170));
}

#[test]
fn image_without_width_cannot_be_resized() {
    let img = DynamicImage::new_rgb8(0, 0);
    assert!(!is_resizable(&img, 170));
    assert!(try_resize_image(&img, 170).is_none());
    let img = DynamicImage::new_luma8(0, 12);
    assert!(!is_resizable(&img, 170));
    assert!(try_resize_image(&img, 170).is_none());
}

#[test]
fn sides_beyond_the_limit_cannot_be_resized() {
    let img = solid(4, 4, 0);
    assert!(is_resizable(&img, 8_388_608));
    assert!(!is_resizable(&img, 8_388_609));
    assert!(try_resize_image(&img, 8_388_609).is_none());
    assert!(try_resize_image(&img, u32::MAX).is_none());
    let tall = DynamicImage::new_luma8(1, 8_388_609);
    assert!(!is_resizable(&tall, 1));
    assert!(try_resize_image(&tall, 1).is_none());
    // 2 * 8000000 / 2.5 = 6400000 rows, 3 * 8000000 / 2.5 = 9600000 rows
    let tall = DynamicImage::new_luma8(1, 8_000_000);
    assert!(is_resizable(&tall, 2));
    assert!(!is_resizable(&tall, 3));
    assert!(try_resize_image(&tall, 3).is_none());
}

#[test]
fn ordinary_images_can_be_resized() {
    assert!(is_resizable(&solid(1000, 500, 0), 170));
    assert!(is_resizable(&solid(1, 1, 0), 1));
    assert!(is_resizable(&solid(20, 20, 0), 0));
    assert!(is_resizable(&DynamicImage::new_rgba8(3, 0), 170));
}

#[test]
fn luma_grid_of_a_gray_image_holds_its_bytes() {
    let img = gray(3, 2, vec![0, 10, 20, 30, 40, 250]);
    let grid = luma_grid(&img);
    assert_eq!(grid.width(), 3);
    assert_eq!(grid.height(), 2);
    assert_eq!(grid.pixels(), &vec![0, 10, 20, 30, 40, 250]);
}

#[test]
fn luma_grid_of_a_colour_image_weighs_the_channels() {
    let mut rgb = RgbImage::new(3, 1);
    rgb.put_pixel(0, 0, Rgb([255, 0, 0]));
    rgb.put_pixel(1, 0, Rgb([0, 255, 0]));
    rgb.put_pixel(2, 0, Rgb([0, 0, 255]));
    let grid = luma_grid(&DynamicImage::ImageRgb8(rgb));
    assert_eq!(grid.width(), 3);
    assert_eq!(grid.height(), 1);
    let luma = grid.pixels();
    // Green is the brightest primary and blue the darkest in every
    // standard weighting.
    assert!(luma[1] > luma[0]);
    assert!(luma[0] > luma[2]);
    assert!(luma[2] > 0);
}

#[test]
fn gray_image_renders_row_by_row() {
    let img = gray(4, 2, vec![0, 100, 200, 255, 255, 200, 100, 0]);
    assert_eq!(image_to_ascci(&img), vec![" !O@".to_string(), "@O! ".to_string()]);
}

#[test]
fn sixteen_bit_image_renders_by_its_luminance() {
    let buffer = image::ImageBuffer::<Luma<u16>, Vec<u16>>::from_raw(2, 1, vec![0, 65535]).unwrap();
    let img = DynamicImage::ImageLuma16(buffer);
    assert_eq!(image_to_ascci(&img), vec![" @".to_string()]);
}

#[test]
fn solid_black_image_renders_as_spaces() {
    let img = solid(200, 100, 0);
    let art = image_to_ascci(&resize_image(&img, 40));
    assert_eq!(art.len(), 8);
    for line in &art {
        assert_eq!(line, &" ".repeat(40));
    }
}

#[test]
fn solid_white_image_renders_as_at_signs() {
    let img = solid(200, 100, 255);
    let art = image_to_ascci(&resize_image(&img, 40));
    assert_eq!(art.len(), 8);
    for line in &art {
        assert_eq!(line, &"@".repeat(40));
    }
}

#[test]
fn render_resizes_and_quantizes() {
    let img = solid(1000, 500, 255);
    let art = render(&img, 170).unwrap();
    assert_eq!(art.len(), 34);
    for line in &art {
        assert_eq!(line, &"@".repeat(170));
    }
}

#[test]
fn render_keeps_dark_above_bright() {
    // Upper half black, lower half white.
    let mut pixels = vec![0u8; 100 * 50];
    pixels.extend(vec![255u8; 100 * 50]);
    let art = render(&gray(100, 100, pixels), 50).unwrap();
    assert_eq!(art.len(), 20);
    assert_eq!(art[0], " ".repeat(50));
    assert_eq!(art[19], "@".repeat(50));
    for line in &art {
        assert_eq!(line.chars().count(), 50);
        assert!(line.chars().all(|c| ascii_art::RAMP.contains(c)));
    }
}

#[test]
fn render_refuses_what_cannot_be_resized() {
    assert!(render(&DynamicImage::new_rgb8(0, 5), 170).is_none());
    assert!(render(&solid(4, 4, 0), u32::MAX).is_none());
}
