use senddisimages::request::{
    parse_channel_id, SendImagesRequest, ELEVATED_BUDGET, STANDARD_BUDGET,
};

fn request(channel_id: &str, nitro_mode: bool) -> SendImagesRequest {
    SendImagesRequest {
        token: "token".to_string(),
        channel_id: channel_id.to_string(),
        image_paths: vec!["a.jpg".to_string()],
        nitro_mode,
        send_separately: false,
    }
}

#[test]
fn budget_presets() {
    assert_eq!(STANDARD_BUDGET, 10 * 1024 * 1024);
    assert_eq!(STANDARD_BUDGET, 10_485_760);
    assert_eq!(ELEVATED_BUDGET, 500 * 1024 * 1024);
    assert_eq!(ELEVATED_BUDGET, 524_288_000);
    assert_eq!(request("1", false).max_size(), 10_485_760);
    assert_eq!(request("1", true).max_size(), 524_288_000);
}

#[test]
fn channel_identifiers() {
    assert_eq!(parse_channel_id("0"), Some(0));
    assert_eq!(parse_channel_id("7"), Some(7));
    assert_eq!(parse_channel_id("1234567890123456789"), Some(1_234_567_890_123_456_789));
    assert_eq!(parse_channel_id("18446744073709551615"), Some(u64::MAX));
    assert_eq!(parse_channel_id("+42"), Some(42));
    assert_eq!(parse_channel_id("0042"), Some(42));
    assert_eq!(request("998877", false).channel(), Some(998_877));
}

#[test]
fn texts_that_name_no_channel() {
    for text in [
        "", "+", "-", "-1", "++1", "+-1", "1+", " 1", "1 ", "12a", "a12", "1_000", "1.0", "0x10",
        "18446744073709551616", "99999999999999999999", "184467440737095516150", "\u{661}\u{662}",
        "1\u{e9}", "\u{ff11}",
    ] {
        assert_eq!(parse_channel_id(text), None, "{:?}", text);
    }
    assert_eq!(request("general", false).channel(), None);
}

#[test]
fn channel_identifiers_are_read_as_the_standard_library_reads_them() {
    for text in [
        "", "+", "-", "0", "+0", "-0", "00", "5", "+5", "-5", "18446744073709551615",
        "18446744073709551616", "+18446744073709551615", "000000000000000000000000000001", " 5",
        "5 ", "5\n", "٥", "1e3", "١٢٣",
    ] {
        assert_eq!(parse_channel_id(text), text.parse::<u64>().ok(), "{:?}", text);
    }
}
