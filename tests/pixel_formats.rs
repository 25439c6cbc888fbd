use rxscreen::{bgrx_to_rgb, decode_bgrx, Bgr8, Rgb8};

#[test]
fn bgr_pixel_converts_to_rgb_whatever_the_padding() {
    for pad in [0u8, 1, 127, 255] {
        let p = Bgr8 { b: 10, g: 20, r: 30, pad };
        assert_eq!(Rgb8::from(p), Rgb8 { r: 30, g: 20, b: 10 });
        assert_eq!(Rgb8::from(&p), Rgb8 { r: 30, g: 20, b: 10 });
        assert_eq!(bgrx_to_rgb(&[p]), vec![30, 20, 10]);
    }
}

#[test]
fn bgrx_buffer_to_interleaved_rgb() {
    let pixels = [
        Bgr8 { b: 1, g: 2, r: 3, pad: 4 },
        Bgr8 { b: 5, g: 6, r: 7, pad: 8 },
    ];
    assert_eq!(bgrx_to_rgb(&pixels), vec![3, 2, 1, 7, 6, 5]);
    assert_eq!(bgrx_to_rgb(&[]), Vec::<u8>::new());
}

#[test]
fn decode_reads_four_bytes_per_pixel() {
    let bytes = [10u8, 20, 30, 99, 1, 2, 3, 4, 7];
    let pixels = decode_bgrx(&bytes, 2);
    assert_eq!(
        pixels,
        vec![Bgr8 { b: 10, g: 20, r: 30, pad: 99 }, Bgr8 { b: 1, g: 2, r: 3, pad: 4 }]
    );
    assert_eq!(decode_bgrx(&bytes, 0), Vec::<Bgr8>::new());
}
