use base64::Engine;
use nota::process_icons::{encode_png_data_url, normalize_cache_key, unpremultiply_icon, IconError, ICON_SIZE};

#[test]
fn normalizes_windows_icon_cache_keys() {
    assert_eq!(
        normalize_cache_key("C:/Program Files/Meeting/App.EXE"),
        "c:\\program files\\meeting\\app.exe"
    );
}

#[test]
fn encodes_rgba_as_png_data_url() {
    let rgba = vec![255u8; (ICON_SIZE * ICON_SIZE * 4) as usize];
    let data_url = encode_png_data_url(ICON_SIZE, ICON_SIZE, &rgba).unwrap();
    let encoded = data_url.strip_prefix("data:image/png;base64,").unwrap();
    let decoded = base64::engine::general_purpose::STANDARD.decode(encoded).unwrap();
    assert_eq!(&decoded[..8], b"\x89PNG\r\n\x1a\n");
}

#[test]
fn icon_buffers_of_the_wrong_size_are_refused() {
    assert_eq!(
        encode_png_data_url(2, 2, &[0u8; 15]).unwrap_err(),
        IconError::InvalidBufferLength
    );
    let refused = encode_png_data_url(0, 0, &[]).unwrap_err();
    assert_eq!(refused, IconError::Encoding("Zero width not allowed".into()));
    assert_eq!(refused.message(), "Zero width not allowed");
    assert_eq!(IconError::InvalidBufferLength.message(), "invalid RGBA icon buffer length");
}

#[test]
fn icon_pixels_are_recovered_from_two_renderings() {
    let black = [10u8, 20, 30, 255, 0, 0, 0, 255, 64, 64, 64, 255];
    let white = [10u8, 20, 30, 255, 255, 255, 255, 255, 191, 191, 191, 255];
    let rgba = unpremultiply_icon(&black, &white);
    assert_eq!(rgba, vec![30, 20, 10, 255, 0, 0, 0, 0, 128, 128, 128, 128]);
    assert_eq!(unpremultiply_icon(&black[..7], &white), vec![30, 20, 10, 255]);
}

#[test]
fn cache_keys_lower_case_beyond_ascii() {
    assert_eq!(normalize_cache_key("D:/ÄPP.exe"), "d:\\äpp.exe");
}
