use td_printer_converter::cz6pv1::{scale, Channel, Cz6pv1, Stage, PAGE_COMMAND};
use td_printer_converter::printer::{Notice, Printer};
use td_printer_converter::raster::{Color, RasterImage};

const WHITE: Color = Color { r: 255, g: 255, b: 255 };
const ROW: usize = 512;
const PLANE: usize = 992 * ROW;

/// The byte that the test page holds for the pixel `(x, y)` in the plane
/// `plane`.
fn sample(plane: usize, x: usize, y: usize) -> u8 {
    (x * 7 + y * 13 + plane * 101) as u8
}

/// A page: the command and three planes.
fn page() -> Vec<u8> {
    let mut input = vec![0xC0];
    for plane in 0..3 {
        for y in 0..992 {
            for x in 0..ROW {
                input.push(sample(plane, x, y));
            }
        }
    }
    input
}

/// The intensity of a byte, with the second rule as a product in floating
/// point.
fn expected_intensity(row: u32, byte: u8) -> u8 {
    let v = byte & 0x3F;
    if row < 512 {
        v * 4
    } else if v >= 7 {
        (((v - 7) as f32) * 4.5) as u8
    } else {
        0
    }
}

fn is_white(img: &RasterImage) -> bool {
    img.as_bytes().iter().all(|&b| b == 255)
}

fn feed_all(printer: &mut Cz6pv1, input: &[u8], img: &mut RasterImage) {
    let mut pos = 0;
    printer.begin();
    loop {
        let n = printer.wanted();
        if n == 0 {
            break;
        }
        if pos + n <= input.len() {
            printer.feed(Some(&input[pos..pos + n]), img);
            pos += n;
        } else {
            printer.feed(None, img);
            pos = input.len();
        }
    }
}

#[test]
fn new_decoder_has_decoded_nothing() {
    let printer = Cz6pv1::default();
    assert_eq!(printer.stage(), Stage::Nothing);
    assert_eq!(printer.covered(), (0, 0));
    assert_eq!(printer.wanted(), 0);
}

#[test]
fn planar_page_is_white_and_of_the_size_of_the_printer() {
    let printer = Cz6pv1::default();
    let img = printer.create_image();
    assert_eq!(Cz6pv1::PAGE_WIDTH, 512);
    assert_eq!(Cz6pv1::PAGE_HEIGHT, 992);
    assert_eq!(PAGE_COMMAND, 0xC0);
    assert_eq!((img.width(), img.height()), (512, 992));
    assert!(is_white(&img));
}

#[test]
fn other_command_decodes_nothing() {
    for first in [0x00, 0x1B, 0xC1, 0x40, 0xFF] {
        let mut printer = Cz6pv1::default();
        let mut img = printer.create_image();
        let mut input = page();
        input[0] = first;
        assert_eq!(printer.decode(&input, &mut img), (0, 0));
        assert!(is_white(&img));
        assert_eq!(printer.stage(), Stage::Nothing);
    }
}

#[test]
fn empty_job_decodes_nothing() {
    let mut printer = Cz6pv1::default();
    let mut img = printer.create_image();
    assert_eq!(printer.decode(&[], &mut img), (0, 0));
    assert!(is_white(&img));
}

#[test]
fn command_alone_decodes_nothing() {
    let mut printer = Cz6pv1::default();
    let mut img = printer.create_image();
    assert_eq!(printer.decode(&[0xC0], &mut img), (0, 0));
    assert!(is_white(&img));
    assert_eq!(printer.stage(), Stage::Nothing);
}

#[test]
fn page_short_of_one_byte_reports_nothing() {
    let mut printer = Cz6pv1::default();
    let mut img = printer.create_image();
    let mut input = page();
    input.pop();
    assert_eq!(input.len(), 3 * 992 * 512);
    assert_eq!(printer.decode(&input, &mut img), (0, 0));
    assert_eq!(printer.stage(), Stage::Nothing);
    // The rows that came whole were written: all but the last of the red
    // plane.
    let done = img.pixel(5, 990).unwrap();
    assert_eq!(done.r, expected_intensity(990, sample(2, 5, 990)));
    let not_done = img.pixel(5, 991).unwrap();
    assert_eq!(not_done.r, 255);
    assert_eq!(not_done.g, expected_intensity(991, sample(1, 5, 991)));
    assert_eq!(not_done.b, expected_intensity(991, sample(0, 5, 991)));
}

#[test]
fn page_cut_in_the_first_plane_writes_the_rows_that_came() {
    let mut printer = Cz6pv1::default();
    let mut img = printer.create_image();
    let input = &page()[..1 + 2 * ROW + 100];
    assert_eq!(printer.decode(input, &mut img), (0, 0));
    for y in 0..4 {
        for x in 0..512 {
            let expected = if y < 2 {
                Color { r: 255, g: 255, b: expected_intensity(y, sample(0, x as usize, y as usize)) }
            } else {
                WHITE
            };
            assert_eq!(img.pixel(x, y), Some(expected));
        }
    }
}

#[test]
fn whole_page_is_decoded() {
    let mut printer = Cz6pv1::default();
    let mut img = printer.create_image();
    let input = page();
    assert_eq!(input.len(), 1 + 3 * PLANE);
    assert_eq!(printer.decode(&input, &mut img), (512, 992));
    assert_eq!(printer.stage(), Stage::Page);
    for y in 0..992u32 {
        for x in 0..512u32 {
            let (xs, ys) = (x as usize, y as usize);
            let expected = Color {
                r: expected_intensity(y, sample(2, xs, ys)),
                g: expected_intensity(y, sample(1, xs, ys)),
                b: expected_intensity(y, sample(0, xs, ys)),
            };
            assert_eq!(img.pixel(x, y), Some(expected));
        }
    }
}

#[test]
fn bytes_behind_the_page_are_not_read() {
    let mut printer = Cz6pv1::default();
    let mut img = printer.create_image();
    let mut input = page();
    let mut alone = printer.create_image();
    Cz6pv1::default().decode(&input, &mut alone);
    input.extend([0x00; 2000]);
    assert_eq!(printer.decode(&input, &mut img), (512, 992));
    assert!(img.as_bytes() == alone.as_bytes());
}

#[test]
fn planes_fill_blue_then_green_then_red() {
    let mut printer = Cz6pv1::default();
    let mut img = printer.create_image();
    let mut input = vec![0xC0];
    input.extend(vec![1u8; PLANE]);
    input.extend(vec![2u8; PLANE]);
    input.extend(vec![3u8; PLANE]);
    assert_eq!(printer.decode(&input, &mut img), (512, 992));
    assert_eq!(img.pixel(0, 0), Some(Color { r: 12, g: 8, b: 4 }));
    assert_eq!(img.pixel(511, 511), Some(Color { r: 12, g: 8, b: 4 }));
    assert_eq!(img.pixel(0, 512), Some(Color { r: 0, g: 0, b: 0 }));
    assert_eq!(Channel::Blue.index(), 0);
    assert_eq!(Channel::Green.index(), 1);
    assert_eq!(Channel::Red.index(), 2);
    let under = Color { r: 1, g: 2, b: 3 };
    assert_eq!(Channel::Blue.set(under, 9), Color { r: 1, g: 2, b: 9 });
    assert_eq!(Channel::Green.set(under, 9), Color { r: 1, g: 9, b: 3 });
    assert_eq!(Channel::Red.set(under, 9), Color { r: 9, g: 2, b: 3 });
}

#[test]
fn intensities_of_the_first_half() {
    assert_eq!(scale(0, 0), 0);
    assert_eq!(scale(0, 1), 4);
    assert_eq!(scale(0, 63), 252);
    assert_eq!(scale(511, 63), 252);
    // The two high bits are no part of the sample.
    assert_eq!(scale(0, 0x40), 0);
    assert_eq!(scale(0, 0x80 | 5), 20);
    assert_eq!(scale(0, 0xFF), 252);
    for byte in 0..=255u8 {
        assert_eq!(scale(17, byte), expected_intensity(17, byte));
        assert_eq!(scale(511, byte), (byte & 0x3F) * 4);
    }
}

#[test]
fn intensities_of_the_second_half() {
    assert_eq!(scale(512, 7), 0);
    assert_eq!(scale(512, 8), 4);
    assert_eq!(scale(512, 9), 9);
    assert_eq!(scale(512, 10), 13);
    assert_eq!(scale(512, 63), 252);
    assert_eq!(scale(991, 63), 252);
    assert_eq!(scale(991, 0xC0 | 9), 9);
    // Below the offset of the second half there is no intensity.
    for v in 0..7 {
        assert_eq!(scale(512, v), 0);
    }
    for byte in 0..=255u8 {
        assert_eq!(scale(512, byte), expected_intensity(512, byte));
        assert_eq!(scale(u32::MAX, byte), expected_intensity(991, byte));
    }
}

#[test]
fn rows_off_a_small_page_are_dropped() {
    let mut printer = Cz6pv1::default();
    let mut img = RasterImage::filled(3, 2, WHITE).unwrap();
    let input = page();
    assert_eq!(printer.decode(&input, &mut img), (512, 992));
    for y in 0..2u32 {
        for x in 0..3u32 {
            let (xs, ys) = (x as usize, y as usize);
            let expected = Color {
                r: expected_intensity(y, sample(2, xs, ys)),
                g: expected_intensity(y, sample(1, xs, ys)),
                b: expected_intensity(y, sample(0, xs, ys)),
            };
            assert_eq!(img.pixel(x, y), Some(expected));
        }
    }
    assert_eq!(img.as_bytes().len(), 18);
}

#[test]
fn reads_ask_for_the_command_and_then_for_rows() {
    let mut printer = Cz6pv1::default();
    let mut img = printer.create_image();
    printer.begin();
    assert_eq!((printer.stage(), printer.wanted()), (Stage::Command, 1));
    printer.feed(Some(&[0xC0]), &mut img);
    assert_eq!(printer.stage(), Stage::Line { channel: Channel::Blue, row: 0 });
    assert_eq!(printer.wanted(), 512);
    let row = [0x3F; 512];
    for _ in 0..992 {
        printer.feed(Some(&row), &mut img);
    }
    assert_eq!(printer.stage(), Stage::Line { channel: Channel::Green, row: 0 });
    for _ in 0..991 {
        printer.feed(Some(&row), &mut img);
    }
    assert_eq!(printer.stage(), Stage::Line { channel: Channel::Green, row: 991 });
    printer.feed(Some(&row), &mut img);
    assert_eq!(printer.stage(), Stage::Line { channel: Channel::Red, row: 0 });
    assert_eq!(printer.covered(), (0, 0));
    printer.feed(None, &mut img);
    assert_eq!((printer.stage(), printer.wanted()), (Stage::Nothing, 0));
    assert_eq!(printer.covered(), (0, 0));
    assert_eq!(img.pixel(0, 0), Some(Color { r: 255, g: 252, b: 252 }));
}

#[test]
fn rows_one_by_one_do_what_decode_does() {
    let input = page();
    let mut whole = Cz6pv1::default();
    let mut whole_img = whole.create_image();
    let covered = whole.decode(&input, &mut whole_img);

    let mut stepped = Cz6pv1::default();
    let mut stepped_img = stepped.create_image();
    feed_all(&mut stepped, &input, &mut stepped_img);

    assert_eq!(stepped.covered(), covered);
    assert_eq!(stepped.stage(), whole.stage());
    assert!(stepped_img.as_bytes() == whole_img.as_bytes());
}

#[test]
fn nothing_of_a_job_stays_for_the_next() {
    let mut printer = Cz6pv1::default();
    let mut img = printer.create_image();
    assert_eq!(printer.decode(&page(), &mut img), (512, 992));
    assert_eq!(printer.decode(&[0x00], &mut img), (0, 0));
    assert_eq!(printer.decode(&page(), &mut img), (512, 992));
}

#[test]
fn same_page_twice_gives_the_same_picture() {
    let input = page();
    let mut first_img = Cz6pv1::default().create_image();
    let mut second_img = Cz6pv1::default().create_image();
    let first = Cz6pv1::default().decode(&input, &mut first_img);
    let second = Cz6pv1::default().decode(&input, &mut second_img);
    assert_eq!(first, second);
    assert!(first_img.as_bytes() == second_img.as_bytes());
    assert!(!is_white(&first_img));
}

#[test]
fn other_command_and_short_page_are_told() {
    let mut img = Cz6pv1::default().create_image();

    let mut printer = Cz6pv1::default();
    printer.begin();
    assert_eq!(printer.feed(Some(&[0x1B]), &mut img), Some(Notice::UnknownCommand));
    assert_eq!(printer.stage(), Stage::Nothing);

    let mut printer = Cz6pv1::default();
    printer.begin();
    assert_eq!(printer.feed(Some(&[0xC0]), &mut img), None);
    assert_eq!(printer.feed(Some(&[0x00; 512]), &mut img), None);
    assert_eq!(printer.feed(None, &mut img), Some(Notice::NotEnoughData));
    assert_eq!(printer.stage(), Stage::Nothing);
    assert_eq!(printer.feed(None, &mut img), None);

    // An input that ends before the command is no trouble to tell of.
    let mut printer = Cz6pv1::default();
    printer.begin();
    assert_eq!(printer.feed(None, &mut img), None);
    assert_eq!(printer.stage(), Stage::Nothing);
}
