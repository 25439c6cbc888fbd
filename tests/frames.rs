use rxscreen::{Bgr8, CaptureReply, Display, Image, Region, RootGeometry, SaveError};

fn display(width: u32, height: u32) -> Display {
    Display::from_root(Some(RootGeometry { window: 1, width, height })).unwrap()
}

fn reply(width: i32, height: i32, depth: i32) -> CaptureReply {
    let n = (width * height * 4) as usize;
    let data: Vec<u8> = (0..n).map(|i| (i % 251) as u8).collect();
    CaptureReply { width, height, depth, bytes_per_line: width * 4, data }
}

#[test]
fn empty_frame_is_zeroed_at_depth_24() {
    let d = display(640, 480);
    let img = Image::empty(&d, 3, 2);
    assert_eq!(img.width(), 3);
    assert_eq!(img.height(), 2);
    assert_eq!(img.depth(), 24);
    assert_eq!(img.bytes_per_line(), 12);
    assert_eq!(img.as_bytes(), &[0u8; 18][..]);
    assert_eq!(img.as_raw_slice(), vec![Bgr8 { b: 0, g: 0, r: 0, pad: 0 }; 6]);
}

#[test]
fn bytes_written_are_read_back() {
    let d = display(640, 480);
    let mut img = Image::empty(&d, 4, 3);
    let pattern: Vec<u8> = (0..36u8).map(|i| i.wrapping_mul(37)).collect();
    img.as_bytes_mut().copy_from_slice(&pattern);
    assert_eq!(img.as_bytes(), &pattern[..]);
    assert_eq!(img.width(), 4);
    assert_eq!(img.height(), 3);
}

#[test]
fn full_screen_capture_has_one_pixel_per_screen_pixel() {
    let d = display(8, 5);
    let region = d.screen_region();
    let img = Image::from_capture(region, Some(reply(8, 5, 24))).unwrap();
    assert_eq!(img.width(), 8);
    assert_eq!(img.height(), 5);
    assert_eq!(img.as_raw_slice().len(), 40);
    assert_eq!(img.as_bytes().len(), 8 * 5 * 3);
}

#[test]
fn depth_32_capture_gives_four_bytes_per_pixel() {
    let region = Region { x: 3, y: 4, width: 6, height: 2 };
    let img = Image::from_capture(region, Some(reply(6, 2, 32))).unwrap();
    assert_eq!(img.as_raw_slice().len(), 12);
    assert_eq!(img.as_bytes().len(), 48);
}

#[test]
fn failed_or_mismatched_capture_is_an_error() {
    let region = Region { x: 0, y: 0, width: 6, height: 2 };
    assert!(Image::from_capture(region, None).is_err());
    assert!(Image::from_capture(region, Some(reply(5, 2, 24))).is_err());
    let mut short = reply(6, 2, 24);
    short.data.pop();
    assert!(Image::from_capture(region, Some(short)).is_err());
    let mut padded = reply(6, 2, 24);
    padded.bytes_per_line = 28;
    assert!(Image::from_capture(region, Some(padded)).is_err());
}

#[test]
fn sixteen_bit_capture_keeps_its_rows() {
    let region = Region { x: 0, y: 0, width: 5, height: 3 };
    let data: Vec<u8> = (0..30u8).collect();
    let rep = CaptureReply { width: 5, height: 3, depth: 16, bytes_per_line: 10, data: data.clone() };
    let img = Image::from_capture(region, Some(rep)).unwrap();
    assert_eq!(img.depth(), 16);
    assert_eq!(img.bytes_per_line(), 10);
    assert_eq!(img.as_bytes(), &data[..]);
}

#[test]
fn raw_parts_frame_converts_to_rgb() {
    let d = display(640, 480);
    let data = vec![10, 20, 30, 0, 1, 2, 3, 255];
    let img = Image::from_raw_parts(&d, data, 2, 1);
    assert_eq!(img.to_rgb8(), vec![30, 20, 10, 3, 2, 1]);
    assert_eq!(img.as_raw_slice()[1], Bgr8 { b: 1, g: 2, r: 3, pad: 255 });
}

#[test]
fn frame_encodes_as_png() {
    let d = display(640, 480);
    let img = Image::from_raw_parts(&d, vec![10, 20, 30, 0, 1, 2, 3, 255], 2, 1);
    let png = img.save_to_memory().unwrap();
    assert_eq!(&png[..8], &[137, 80, 78, 71, 13, 10, 26, 10]);
    assert!(png.len() > 8);
}

#[test]
fn empty_frame_cannot_be_encoded() {
    let d = display(640, 480);
    let img = Image::empty(&d, 0, 3);
    assert_eq!(img.save_to_memory(), Err(SaveError::EncodingFailed));
}
