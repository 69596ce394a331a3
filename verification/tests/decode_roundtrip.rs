use jpeg_encoder::ColorType;
use jpeg_encoder::Encoder;
use motion_extract::decode::decode_frame;
use motion_extract::decode::pack_samples;
use motion_extract::decode::DecodeError;

/// A compressed frame encoding a solid mid-gray image. Mid-gray maps to
/// all-zero DCT coefficients, so it survives the lossy round trip exactly.
fn solid_gray_jpeg(width: u16, height: u16) -> Vec<u8> {
    let mut bytes: Vec<u8> = Vec::new();
    let encoder = Encoder::new(&mut bytes, 100);
    let rgb = vec![128u8; width as usize * height as usize * 3];
    encoder.encode(&rgb, width, height, ColorType::Rgb).expect("encoding a solid image");
    bytes
}

#[test]
fn decode_round_trip_solid_color() {
    let width = 16usize;
    let height = 16usize;
    let bytes = solid_gray_jpeg(width as u16, height as u16);
    let pixels = decode_frame(&bytes, width, height).expect("a well-formed frame decodes");
    assert_eq!(pixels.len(), width * height);
    for p in pixels {
        assert_eq!(p, 0x808080);
    }
}

#[test]
fn decode_rejects_a_malformed_stream() {
    let garbage = vec![0u8, 1, 2, 3, 4, 5, 6, 7];
    assert_eq!(decode_frame(&garbage, 16, 16), Err(DecodeError::Malformed));
    let empty: Vec<u8> = Vec::new();
    assert_eq!(decode_frame(&empty, 16, 16), Err(DecodeError::Malformed));
}

#[test]
fn decode_rejects_a_size_mismatch() {
    // A well-formed frame of the wrong dimensions is a fatal decode error
    // for that frame.
    let bytes = solid_gray_jpeg(16, 16);
    assert_eq!(decode_frame(&bytes, 8, 8), Err(DecodeError::SizeMismatch));
    assert_eq!(decode_frame(&bytes, 16, 8), Err(DecodeError::SizeMismatch));
}

#[test]
fn pack_samples_keeps_raster_order() {
    let samples = vec![1u8, 2, 3, 4, 5, 6, 255, 0, 128];
    let pixels = pack_samples(&samples);
    assert_eq!(pixels, vec![0x010203, 0x040506, 0xff0080]);
}

#[test]
fn pack_samples_of_nothing_is_nothing() {
    let samples: Vec<u8> = Vec::new();
    assert_eq!(pack_samples(&samples), Vec::<u32>::new());
}
