use senddisimages::compression::{process_image, CompressionOutcome, Reason};
use senddisimages::report::{decimal, describe, failure_text, Intake};
use senddisimages::request::{ELEVATED_BUDGET, STANDARD_BUDGET};

#[test]
fn numbers_in_decimal() {
    assert_eq!(decimal(0), "0");
    assert_eq!(decimal(7), "7");
    assert_eq!(decimal(10), "10");
    assert_eq!(decimal(500), "500");
    assert_eq!(decimal(1234567890), "1234567890");
    assert_eq!(decimal(usize::MAX), usize::MAX.to_string());
}

#[test]
fn reasons_in_words() {
    assert_eq!(
        describe(Reason::ExceedsAfterCompression, "jpg", STANDARD_BUDGET),
        "Image exceeds size limit even after compression (10 MB limit)"
    );
    assert_eq!(
        describe(Reason::ExceedsAfterCompression, "png", ELEVATED_BUDGET),
        "Image exceeds size limit even after compression (500 MB limit)"
    );
    assert_eq!(
        describe(Reason::ExceedsAfterCompression, "png", 1024 * 1024 - 1),
        "Image exceeds size limit even after compression (0 MB limit)"
    );
    assert_eq!(describe(Reason::UnsupportedFormat, "gif", 5), "Unsupported image format: gif");
    assert_eq!(describe(Reason::UnsupportedFormat, "", 5), "Unsupported image format: ");
    assert_eq!(describe(Reason::IoOrDecodeError, "jpg", 5), "Image could not be read or decoded");
}

#[test]
fn failed_sends_in_words() {
    assert_eq!(failure_text(true, 3, "rate limited"), "Failed to send message: rate limited");
    assert_eq!(
        failure_text(false, 3, "rate limited"),
        "Failed to send message batch 3: rate limited"
    );
    assert_eq!(failure_text(false, 12, ""), "Failed to send message batch 12: ");
    assert_eq!(failure_text(true, 0, ""), "Failed to send message: ");
}

#[test]
fn intake_starts_empty() {
    let intake = Intake::new();
    assert!(intake.ready.is_empty());
    assert!(intake.skipped.is_empty());
    assert!(intake.errors.is_empty());
}

#[test]
fn accepted_files_keep_their_order() {
    let mut intake = Intake::new();
    intake.accept("b.jpg".to_string());
    intake.accept("a.jpg".to_string());
    intake.accept("c.png".to_string());
    assert_eq!(intake.ready, vec!["b.jpg".to_string(), "a.jpg".to_string(), "c.png".to_string()]);
    assert!(intake.skipped.is_empty());
    assert!(intake.errors.is_empty());
}

#[test]
fn over_budget_is_a_skip_and_everything_else_an_error() {
    let mut intake = Intake::new();
    intake.reject("big.png", Reason::ExceedsAfterCompression, "too big");
    intake.reject("notes.txt", Reason::UnsupportedFormat, "what is this");
    intake.reject("gone.jpg", Reason::IoOrDecodeError, "File does not exist");
    intake.reject("huge.jpg", Reason::ExceedsAfterCompression, "still too big");
    assert!(intake.ready.is_empty());
    assert_eq!(
        intake.skipped,
        vec!["big.png: too big".to_string(), "huge.jpg: still too big".to_string()]
    );
    assert_eq!(
        intake.errors,
        vec!["notes.txt: what is this".to_string(), "gone.jpg: File does not exist".to_string()]
    );
}

#[test]
fn scenario_asset_given_up_is_listed_as_skipped() {
    let noisy = image::RgbImage::from_fn(48, 48, |x, y| {
        let v = (x.wrapping_mul(2_654_435_761) ^ y.wrapping_mul(40_503)).wrapping_mul(2_246_822_519);
        image::Rgb([(v >> 24) as u8, (v >> 16) as u8, (v >> 8) as u8])
    });
    let mut data = Vec::new();
    image::DynamicImage::ImageRgb8(noisy)
        .write_to(&mut std::io::Cursor::new(&mut data), image::ImageFormat::Png)
        .unwrap();
    let budget = 60;
    let mut intake = Intake::new();
    match process_image("png", &data, budget) {
        CompressionOutcome::Unreachable(reason) => {
            assert_eq!(reason, Reason::ExceedsAfterCompression);
            intake.reject("/pictures/noise.png", reason, &describe(reason, "png", budget));
        }
        other => panic!("expected the asset to be given up, got {:?}", other),
    }
    assert!(intake.ready.is_empty());
    assert!(intake.errors.is_empty());
    assert_eq!(
        intake.skipped,
        vec![
            "/pictures/noise.png: Image exceeds size limit even after compression (0 MB limit)"
                .to_string()
        ]
    );
}
