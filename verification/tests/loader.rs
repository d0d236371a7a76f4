use terrain_editor::heightmap::heightmap_from_png_data;
use terrain_editor::loader::{check_decoded_png, check_png_data, LoaderPlugin, PngBitDepth, PngColorType, PngInfo};

fn encode_png(size: u32, color: png::ColorType, depth: png::BitDepth, data: &[u8]) -> Vec<u8> {
    let mut bytes = Vec::new();
    {
        let mut encoder = png::Encoder::new(&mut bytes, size, size);
        encoder.set_color(color);
        encoder.set_depth(depth);
        let mut writer = encoder.write_header().expect("header");
        writer.write_image_data(data).expect("image data");
    }
    bytes
}

#[test]
fn png_format_and_size_checks() {
    let info = PngInfo { color_type: PngColorType::Rgb, bit_depth: PngBitDepth::Eight, width: 4, height: 4 };
    assert_eq!(
        check_png_data(PngColorType::Grayscale, PngBitDepth::Sixteen, 4, "a.png", info, vec![1]).err(),
        Some(String::from("file a.png: format must be Sixteen-Bit Grayscale. found Eight-Bit Rgb"))
    );
    let info = PngInfo { color_type: PngColorType::Grayscale, bit_depth: PngBitDepth::Sixteen, width: 2, height: 4 };
    assert_eq!(
        check_png_data(PngColorType::Grayscale, PngBitDepth::Sixteen, 4, "b.png", info, vec![1]).err(),
        Some(String::from("file b.png: expected width x height to be 4 x 4. found: 2 x 4"))
    );
    let info = PngInfo { color_type: PngColorType::Grayscale, bit_depth: PngBitDepth::Sixteen, width: 4, height: 4 };
    assert_eq!(
        check_png_data(PngColorType::Grayscale, PngBitDepth::Sixteen, 4, "c.png", info, vec![1, 2]),
        Ok(vec![1, 2])
    );
}

#[test]
fn png_load_rgba_map() {
    let data: Vec<u8> = (0..16u8).collect();
    let bytes = encode_png(2, png::ColorType::Rgba, png::BitDepth::Eight, &data);
    assert_eq!(LoaderPlugin::load_png_data(PngColorType::Rgba, PngBitDepth::Eight, 2, "tint.png", &bytes), Ok(data));
}

#[test]
fn png_load_heightmap_big_endian() {
    let data: Vec<u8> = vec![0, 1, 1, 0, 0xff, 0xff, 0x12, 0x34];
    let bytes = encode_png(2, png::ColorType::Grayscale, png::BitDepth::Sixteen, &data);
    let img = LoaderPlugin::load_png_data(PngColorType::Grayscale, PngBitDepth::Sixteen, 2, "h.png", &bytes).expect("valid");
    let h = heightmap_from_png_data(2, &img).expect("enough data");
    assert_eq!(h.data(), &vec![1, 256, 65535, 0x1234]);
}

#[test]
fn png_load_wrong_format_or_size() {
    let data: Vec<u8> = vec![7; 12];
    let bytes = encode_png(2, png::ColorType::Rgb, png::BitDepth::Eight, &data);
    assert_eq!(
        LoaderPlugin::load_png_data(PngColorType::Rgba, PngBitDepth::Eight, 2, "a.png", &bytes),
        Err(String::from("file a.png: format must be Eight-Bit Rgba. found Eight-Bit Rgb"))
    );
    assert_eq!(
        LoaderPlugin::load_png_data(PngColorType::Rgb, PngBitDepth::Eight, 4, "a.png", &bytes),
        Err(String::from("file a.png: expected width x height to be 4 x 4. found: 2 x 2"))
    );
}

#[test]
fn png_load_undecodable_file() {
    let e = LoaderPlugin::load_png_data(PngColorType::Rgba, PngBitDepth::Eight, 2, "x.png", b"not a png").unwrap_err();
    assert!(e.starts_with("failed to decode png file x.png: "), "{}", e);
    assert!(e.len() > "failed to decode png file x.png: ".len(), "{}", e);
}

#[test]
fn png_load_truncated_image_data() {
    let data: Vec<u8> = (0..64u8).collect();
    let bytes = encode_png(4, png::ColorType::Rgba, png::BitDepth::Eight, &data);
    // header and the start of the image data only
    let idat = bytes.windows(4).position(|w| w == b"IDAT").expect("image data chunk");
    let truncated = &bytes[..idat + 8];
    let e = LoaderPlugin::load_png_data(PngColorType::Rgba, PngBitDepth::Eight, 4, "t.png", truncated).unwrap_err();
    assert!(e.starts_with("failed to read image format info for: t.png: "), "{}", e);
}

#[test]
fn png_decoding_outcome_checks() {
    let info = PngInfo { color_type: PngColorType::Rgba, bit_depth: PngBitDepth::Eight, width: 2, height: 2 };
    assert_eq!(
        check_decoded_png(PngColorType::Rgba, PngBitDepth::Eight, 2, "a.png", Ok((info, vec![1, 2]))),
        Ok(vec![1, 2])
    );
    assert_eq!(
        check_decoded_png(PngColorType::Rgba, PngBitDepth::Eight, 2, "a.png", Err((true, String::from("bad")))),
        Err(String::from("failed to decode png file a.png: bad"))
    );
    assert_eq!(
        check_decoded_png(PngColorType::Rgba, PngBitDepth::Eight, 2, "a.png", Err((false, String::from("eof")))),
        Err(String::from("failed to read image format info for: a.png: eof"))
    );
    assert_eq!(PngColorType::from_code(4), PngColorType::GrayscaleAlpha);
    assert_eq!(PngBitDepth::from_code(16), PngBitDepth::Sixteen);
}
