use image::{Rgba, RgbaImage};
use rizonet_core::iconify::{
    decode_icon, encode_ico_from_bytes, encode_ico_from_rgba, finish_decode, icon_source_error, is_workable, letterbox_square,
    pack_icons, Bitmap, DecodeOutcome, IconSourceFailure, ICON_SIZES,
};

fn filled(width: u32, height: u32, pixel: [u8; 4]) -> Bitmap {
    let mut img = RgbaImage::new(width, height);
    for p in img.pixels_mut() {
        *p = Rgba(pixel);
    }
    Bitmap::new(width, height, img.into_raw()).unwrap()
}

fn pixel(b: &Bitmap, x: u32, y: u32) -> [u8; 4] {
    let at = 4 * (y * b.width() + x) as usize;
    let p = b.pixels();
    [p[at], p[at + 1], p[at + 2], p[at + 3]]
}

#[test]
fn non_square_input_is_letterboxed() {
    // A 4:1 blue strip — exercises the padding path.
    let mut img = RgbaImage::new(40, 10);
    for p in img.pixels_mut() {
        *p = Rgba([10, 20, 200, 255]);
    }
    let img = Bitmap::new(40, 10, img.into_raw()).unwrap();
    let bytes = encode_ico_from_rgba(&img, (40, 10)).expect("encode ok");
    assert!(bytes.len() > 64, "ico must contain data, got {}", bytes.len());
    // The header reports the number of embedded images.
    let count = u16::from_le_bytes([bytes[4], bytes[5]]);
    assert_eq!(count as usize, ICON_SIZES.len());
}

#[test]
fn directory_lists_every_size() {
    let bytes = encode_ico_from_rgba(&filled(5, 9, [1, 2, 3, 255]), (5, 9)).unwrap();
    assert_eq!(&bytes[0..6], &[0, 0, 1, 0, 7, 0]);
    for (i, size) in [16u8, 24, 32, 48, 64, 128, 0].iter().enumerate() {
        assert_eq!(bytes[6 + 16 * i], *size);
        assert_eq!(bytes[7 + 16 * i], *size);
    }
}

#[test]
fn packed_icons_can_be_read_back() {
    let bytes = encode_ico_from_rgba(&filled(32, 32, [9, 8, 7, 255]), (32, 32)).unwrap();
    let dir = ico::IconDir::read(std::io::Cursor::new(bytes)).unwrap();
    assert_eq!(dir.entries().len(), 7);
    let icon = dir.entries()[2].decode().unwrap();
    assert_eq!((icon.width(), icon.height()), (32, 32));
    assert!(icon.rgba_data().chunks(4).all(|p| p == [9, 8, 7, 255]));
}

#[test]
fn icons_are_embedded_as_png() {
    for pixel in [[9, 8, 7, 255], [9, 8, 7, 100], [0, 0, 0, 0]] {
        let bytes = encode_ico_from_rgba(&filled(40, 10, pixel), (40, 10)).unwrap();
        for i in 0..7 {
            let at = 18 + 16 * i;
            let place = u32::from_le_bytes([bytes[at], bytes[at + 1], bytes[at + 2], bytes[at + 3]]);
            let data = &bytes[place as usize..];
            assert_eq!(&data[..8], &[0x89, 0x50, 0x4e, 0x47, 0x0d, 0x0a, 0x1a, 0x0a]);
        }
        let dir = ico::IconDir::read(std::io::Cursor::new(bytes)).unwrap();
        assert!(dir.entries().iter().all(|e| e.is_png()));
    }
}

#[test]
fn resampled_icons_are_padded_and_not_stretched() {
    let bytes = encode_ico_from_rgba(&filled(64, 16, [200, 0, 0, 255]), (64, 16)).unwrap();
    let dir = ico::IconDir::read(std::io::Cursor::new(bytes)).unwrap();
    let icon = dir.entries()[2].decode().unwrap();
    let alpha = |x: usize, y: usize| icon.rgba_data()[4 * (y * 32 + x) + 3];
    assert_eq!(alpha(16, 0), 0);
    assert_eq!(alpha(16, 31), 0);
    assert_eq!(alpha(16, 16), 255);
}

#[test]
fn letterboxing_centres_and_pads() {
    let src = filled(4, 1, [10, 20, 30, 255]);
    let square = letterbox_square(&src, (4, 1));
    assert_eq!((square.width(), square.height()), (4, 4));
    for x in 0..4 {
        assert_eq!(pixel(&square, x, 0), [0, 0, 0, 0]);
        assert_eq!(pixel(&square, x, 1), [10, 20, 30, 255]);
        assert_eq!(pixel(&square, x, 2), [0, 0, 0, 0]);
        assert_eq!(pixel(&square, x, 3), [0, 0, 0, 0]);
    }
    let tall = letterbox_square(&filled(1, 3, [1, 1, 1, 255]), (1, 3));
    assert_eq!((tall.width(), tall.height()), (3, 3));
    for y in 0..3 {
        assert_eq!(pixel(&tall, 0, y), [0, 0, 0, 0]);
        assert_eq!(pixel(&tall, 1, y), [1, 1, 1, 255]);
        assert_eq!(pixel(&tall, 2, y), [0, 0, 0, 0]);
    }
}

#[test]
fn transparent_pixels_lose_their_colour() {
    let square = letterbox_square(&filled(2, 1, [7, 7, 7, 0]), (2, 1));
    assert!(square.pixels().iter().all(|b| *b == 0));
}

#[test]
fn square_images_stay_as_they_are() {
    let src = filled(3, 3, [1, 2, 3, 4]);
    let square = letterbox_square(&src, (3, 3));
    assert_eq!((square.width(), square.height()), (3, 3));
    assert_eq!(square.pixels(), src.pixels());
}

#[test]
fn empty_images_are_converted() {
    let none = Bitmap::new(0, 0, vec![]).unwrap();
    assert!(is_workable(&none, (0, 0)));
    assert_eq!(encode_ico_from_rgba(&none, (0, 0)).unwrap()[4], 7);
    let thin = Bitmap::new(0, 5, vec![]).unwrap();
    let square = letterbox_square(&thin, (0, 5));
    assert_eq!((square.width(), square.height()), (5, 5));
    assert!(square.pixels().iter().all(|b| *b == 0));
}

#[test]
fn bitmaps_need_four_bytes_for_each_pixel() {
    assert!(Bitmap::new(2, 2, vec![0; 16]).is_some());
    assert!(Bitmap::new(2, 2, vec![0; 15]).is_none());
    assert!(Bitmap::new(u32::MAX, u32::MAX, vec![]).is_none());
}

#[test]
fn frames_of_standard_sizes_are_packed() {
    let frames: Vec<Bitmap> = ICON_SIZES.iter().map(|s| filled(*s, *s, [5, 6, 7, 255])).collect();
    let bytes = pack_icons(frames).unwrap();
    let dir = ico::IconDir::read(std::io::Cursor::new(bytes)).unwrap();
    for (entry, size) in dir.entries().iter().zip(ICON_SIZES) {
        let icon = entry.decode().unwrap();
        assert_eq!((icon.width(), icon.height()), (size, size));
        assert!(icon.rgba_data().chunks(4).all(|p| p == [5, 6, 7, 255]));
    }
}

#[test]
fn huge_canvases_do_not_fit() {
    let tiny = filled(1, 1, [0, 0, 0, 0]);
    assert!(is_workable(&tiny, (1, 1)));
    assert!(is_workable(&tiny, (4096, 1)));
    assert!(!is_workable(&tiny, (u32::MAX, 1)));
}

#[test]
fn images_are_decoded() {
    let mut img = RgbaImage::new(2, 1);
    img.put_pixel(0, 0, Rgba([1, 2, 3, 255]));
    img.put_pixel(1, 0, Rgba([4, 5, 6, 128]));
    let mut file = std::io::Cursor::new(Vec::new());
    img.write_to(&mut file, image::ImageFormat::Png).unwrap();
    let decoded = decode_icon(&file.into_inner(), "icon.jpg").unwrap();
    assert_eq!((decoded.width(), decoded.height()), (2, 1));
    assert_eq!(pixel(&decoded, 0, 0), [1, 2, 3, 255]);
    assert_eq!(pixel(&decoded, 1, 0), [4, 5, 6, 128]);
}

#[test]
fn bytes_that_are_no_image_are_reported() {
    let wording = |name: &str| decode_icon(b"nothing", name).unwrap_err().message();
    let unknown = "failed to decode icon: The image format could not be determined";
    assert_eq!(wording("icon"), unknown);
    assert_eq!(wording("icon."), unknown);
    assert_eq!(
        wording("dir/icon.xyz"),
        "failed to decode icon: The file extension `.\"xyz\"` was not recognized as an image format"
    );
    assert!(wording("icon.png").starts_with("failed to decode icon: "));
    assert!(wording("icon.png") != unknown);
}

#[test]
fn outcomes_of_the_decoder_are_reported() {
    let text = |s: &str| s.to_string();
    let decoded = DecodeOutcome::Decoded(filled(2, 1, [1, 2, 3, 4]));
    let image = finish_decode(decoded, Some(text("p"))).unwrap();
    assert_eq!((image.width(), image.height()), (2, 1));
    let wording = |outcome, problem| finish_decode(outcome, problem).unwrap_err().message();
    assert_eq!(
        wording(DecodeOutcome::Failed(text("x")), Some(text("p"))),
        "failed to decode icon: x"
    );
    assert_eq!(
        wording(DecodeOutcome::Undetermined(text("u")), Some(text("p"))),
        "failed to decode icon: p"
    );
    assert_eq!(
        wording(DecodeOutcome::Undetermined(text("u")), None),
        "failed to decode icon: u"
    );
}

#[test]
fn image_files_become_icons() {
    let mut img = RgbaImage::new(40, 10);
    for p in img.pixels_mut() {
        *p = Rgba([10, 20, 200, 255]);
    }
    let mut file = std::io::Cursor::new(Vec::new());
    img.write_to(&mut file, image::ImageFormat::Bmp).unwrap();
    let icon = encode_ico_from_bytes(&file.into_inner(), "strip").unwrap().unwrap();
    let direct = Bitmap::new(40, 10, img.into_raw()).unwrap();
    assert_eq!(icon, encode_ico_from_rgba(&direct, (40, 10)).unwrap());
    let failed = encode_ico_from_bytes(b"nothing", "strip").unwrap();
    assert!(failed.unwrap_err().message().starts_with("failed to decode icon: "));
}

#[test]
fn icon_source_failures_are_worded() {
    let text = |s: &str| s.to_string();
    let open = IconSourceFailure::Open { path: text("\"a.png\""), cause: text("gone") };
    assert_eq!(icon_source_error(open).message(), "failed to open icon source \"a.png\": gone");
    let sniff = IconSourceFailure::Sniff(text("x"));
    assert_eq!(icon_source_error(sniff).message(), "failed to sniff icon format: x");
    let decode = IconSourceFailure::Decode(text("x"));
    assert_eq!(icon_source_error(decode).message(), "failed to decode icon: x");
}
