use image::DynamicImage;
use image_host::encoding::{to_webp, WEBP_MAX_WIDTH, WEBP_WIDTH_ERROR};
use image_host::error::{PipelineError, INELIGIBLE_ERROR, RESIZE_ERROR};

#[test]
fn message_of_an_error_that_carries_one() {
    assert_eq!(PipelineError::Decode("bad header".to_string()).message(), "bad header");
    assert_eq!(
        PipelineError::AllCandidatesFailed("Error writing png: full".to_string()).message(),
        "Error writing png: full"
    );
    assert_eq!(PipelineError::StoreUnavailable("timed out".to_string()).message(), "timed out");
    assert_eq!(PipelineError::Decode(String::new()).message(), "");
}

#[test]
fn message_of_an_error_of_a_fixed_kind() {
    assert_eq!(
        PipelineError::IneligibleForOptimization.message(),
        "This image is already too compressed!"
    );
    assert_eq!(PipelineError::Resize.message(), "The image is too large to be resized");
    assert_eq!(INELIGIBLE_ERROR, "This image is already too compressed!");
    assert_eq!(RESIZE_ERROR, "The image is too large to be resized");
}

#[test]
fn lossy_candidate_refuses_a_raster_that_is_too_wide() {
    assert_eq!(WEBP_MAX_WIDTH, (i32::MAX / 4) as u32);
    // a raster without rows takes no memory, however wide it is
    let too_wide = DynamicImage::new_rgb8(WEBP_MAX_WIDTH + 1, 0);
    assert_eq!(to_webp(&too_wide), Err(WEBP_WIDTH_ERROR.to_string()));
    assert_eq!(to_webp(&too_wide), Err("Error sizing webp: the image is too wide".to_string()));
    let widest = DynamicImage::new_rgb8(WEBP_MAX_WIDTH, 0);
    assert!(to_webp(&widest).is_err());
    assert!(to_webp(&widest) != Err(WEBP_WIDTH_ERROR.to_string()));
}
