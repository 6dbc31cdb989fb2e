use td_printer_converter::crop::{crop_to_print, first_dark_row, is_dark, window_of_print};
use td_printer_converter::cz8pc4::Cz8pc4;
use td_printer_converter::printer::Printer;
use td_printer_converter::raster::{Color, RasterImage};

const WHITE: Color = Color { r: 255, g: 255, b: 255 };
const GREY: Color = Color { r: 100, g: 100, b: 100 };

#[test]
fn pixel_is_dark_where_no_channel_is_full() {
    assert!(is_dark(Color { r: 0, g: 0, b: 0 }));
    assert!(is_dark(Color { r: 254, g: 254, b: 254 }));
    assert!(!is_dark(WHITE));
    assert!(!is_dark(Color { r: 255, g: 0, b: 0 }));
    assert!(!is_dark(Color { r: 0, g: 255, b: 0 }));
    assert!(!is_dark(Color { r: 0, g: 0, b: 255 }));
    assert!(!is_dark(Color { r: 255, g: 255, b: 0 }));
}

#[test]
fn white_page_has_no_dark_row() {
    let img = RasterImage::filled(6, 5, WHITE).unwrap();
    assert_eq!(first_dark_row(&img), None);
    assert_eq!(window_of_print(&img, (6, 4)), None);
    assert!(crop_to_print(&img, (6, 4)).is_none());
    let empty = RasterImage::filled(0, 0, WHITE).unwrap();
    assert_eq!(first_dark_row(&empty), None);
}

#[test]
fn first_dark_row_is_the_topmost() {
    let mut img = RasterImage::filled(6, 5, WHITE).unwrap();
    img.set_pixel(5, 3, GREY);
    assert_eq!(first_dark_row(&img), Some(3));
    img.set_pixel(0, 4, GREY);
    assert_eq!(first_dark_row(&img), Some(3));
    img.set_pixel(2, 1, Color { r: 255, g: 255, b: 0 });
    assert_eq!(first_dark_row(&img), Some(3));
    img.set_pixel(3, 1, GREY);
    assert_eq!(first_dark_row(&img), Some(1));
    img.set_pixel(0, 0, GREY);
    assert_eq!(first_dark_row(&img), Some(0));
}

#[test]
fn window_runs_from_the_first_dark_row_to_what_is_covered() {
    let mut img = RasterImage::filled(6, 5, WHITE).unwrap();
    img.set_pixel(1, 2, GREY);
    assert_eq!(window_of_print(&img, (4, 3)), Some((0, 2, 4, 1)));
    assert_eq!(window_of_print(&img, (4, 2)), Some((0, 2, 4, 0)));
    assert_eq!(window_of_print(&img, (4, 1)), None);
    assert_eq!(window_of_print(&img, (0, 4)), Some((0, 2, 0, 2)));
    assert_eq!(window_of_print(&img, (100, 100)), Some((0, 2, 100, 98)));
}

#[test]
fn crop_copies_the_window() {
    let mut img = RasterImage::filled(6, 5, WHITE).unwrap();
    for y in 0..5u32 {
        for x in 0..6u32 {
            if y >= 2 {
                let n = (10 * y + x) as u8;
                img.set_pixel(x, y, Color { r: n, g: n, b: n });
            }
        }
    }
    let out = crop_to_print(&img, (4, 4)).unwrap();
    assert_eq!((out.width(), out.height()), (4, 2));
    for y in 0..2u32 {
        for x in 0..4u32 {
            assert_eq!(out.pixel(x, y), img.pixel(x, y + 2));
        }
    }
    assert!(crop_to_print(&img, (4, 1)).is_none());
}

#[test]
fn crop_is_cut_at_the_edges_of_the_page() {
    let mut img = RasterImage::filled(6, 5, WHITE).unwrap();
    img.set_pixel(5, 1, GREY);
    let out = crop_to_print(&img, (100, 100)).unwrap();
    assert_eq!((out.width(), out.height()), (6, 4));
    assert_eq!(out.pixel(5, 0), Some(GREY));
    assert_eq!(out.pixel(0, 0), Some(WHITE));
    assert_eq!(out.pixel(5, 3), Some(WHITE));
    let thin = crop_to_print(&img, (0, 3)).unwrap();
    assert_eq!((thin.width(), thin.height()), (0, 2));
}

#[test]
fn crop_of_a_printed_page() {
    let mut printer = Cz8pc4::default();
    let mut img = printer.create_image();
    let mut input = vec![0x0A, 0x0A, 0x1B, 0x4D, 0x00, 0x03];
    input.extend([0x00, 0x0F, 0xFF, 0xFF, 0xFF, 0xFF]);
    input.extend([0x00, 0x00, 0xFF, 0xFF, 0xFF, 0xFF]);
    input.extend([0x00, 0x00, 0x00, 0xFF, 0xFF, 0xFF]);
    let covered = printer.decode(&input, &mut img);
    assert_eq!(covered, (3, 96 + 47));
    assert_eq!(window_of_print(&img, covered), Some((0, 96 + 12, 3, 35)));
    let out = crop_to_print(&img, covered).unwrap();
    assert_eq!((out.width(), out.height()), (3, 35));
    assert_eq!(out.pixel(0, 0), Some(Color::black()));
    assert_eq!(out.pixel(1, 0), Some(WHITE));
    assert_eq!(out.pixel(1, 4), Some(Color::black()));
    assert_eq!(out.pixel(2, 11), Some(WHITE));
    assert_eq!(out.pixel(2, 12), Some(Color::black()));
}
