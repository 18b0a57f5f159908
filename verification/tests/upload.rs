use image::DynamicImage;
use image_host::background_optimization::optimize_image_and_update;
use image_host::db::{insert_image, StoredImage};
use image_host::encoding::{image_path_to_encoded, EncodeResult};
use image_host::error::PipelineError;
use image_host::upload::{
    primary_upload_options, thumbnail_upload_options, upload_image, upload_stored, UploadedImage,
};
use image_host::util::{mimetype_to_format, ImageId};
use std::io::Cursor;

fn decode(bytes: &[u8], content_type: &str) -> Result<DynamicImage, String> {
    let mut reader = image::io::Reader::new(Cursor::new(bytes));
    reader.set_format(mimetype_to_format(content_type));
    reader.decode().map_err(|e| e.to_string())
}

fn encoded(len: usize, size: (u32, u32)) -> EncodeResult {
    EncodeResult { data: vec![1u8; len], size, content_type: "image/webp".to_string() }
}

fn id() -> ImageId {
    ImageId("Bcd-9".to_string())
}

#[test]
fn upload_options_are_the_fast_ones() {
    let primary = primary_upload_options();
    assert_eq!(primary.max_size, Some(1024));
    assert!(!primary.optimize_png);
    let thumbnail = thumbnail_upload_options();
    assert_eq!(thumbnail.max_size, Some(128));
    assert!(!thumbnail.optimize_png);
}

#[test]
fn upload_image_needs_all_three() {
    let uploaded =
        upload_image(Ok(encoded(10, (1024, 512))), Ok(encoded(3, (128, 64))), Ok(id())).unwrap();
    assert_eq!(
        uploaded,
        UploadedImage {
            id: id(),
            primary: encoded(10, (1024, 512)),
            thumbnail: encoded(3, (128, 64)),
        }
    );
}

#[test]
fn upload_image_fails_with_the_error_of_the_image_first() {
    let decode = PipelineError::Decode("Error decoding image".to_string());
    let failed = PipelineError::AllCandidatesFailed("webp".to_string());
    let store = PipelineError::StoreUnavailable("down".to_string());
    assert_eq!(
        upload_image(Err(decode.clone()), Err(failed.clone()), Err(store.clone())),
        Err(decode.clone())
    );
    assert_eq!(upload_image(Err(decode.clone()), Ok(encoded(1, (1, 1))), Ok(id())), Err(decode));
    assert_eq!(
        upload_image(Ok(encoded(1, (1, 1))), Err(failed.clone()), Err(store.clone())),
        Err(failed.clone())
    );
    assert_eq!(upload_image(Ok(encoded(1, (1, 1))), Err(failed.clone()), Ok(id())), Err(failed));
    assert_eq!(
        upload_image(Ok(encoded(1, (1, 1))), Ok(encoded(1, (1, 1))), Err(store.clone())),
        Err(store)
    );
}

#[test]
fn uploaded_image_is_stored_fresh() {
    let uploaded = UploadedImage {
        id: id(),
        primary: encoded(10, (1024, 512)),
        thumbnail: EncodeResult {
            data: vec![5u8; 3],
            size: (128, 64),
            content_type: "image/png".to_string(),
        },
    };
    let image = uploaded.new_image();
    assert_eq!(image.id, &id());
    assert_eq!(image.optim_level, 0);
    assert_eq!(image.size, (1024, 512));
    assert_eq!(image.data, &vec![1u8; 10]);
    assert_eq!(image.content_type, "image/webp");
    assert_eq!(image.thumbnail_data, &vec![5u8; 3]);
    assert_eq!(image.thumbnail_content_type, "image/png");
}

#[test]
fn upload_stored_answers_with_the_id() {
    assert_eq!(upload_stored(id(), Ok(())), Ok(id()));
    assert_eq!(
        upload_stored(id(), Err("down".to_string())),
        Err(PipelineError::StoreUnavailable("down".to_string()))
    );
}

#[test]
fn upload_of_a_large_image_end_to_end() {
    let mut bytes = Cursor::new(Vec::new());
    DynamicImage::new_rgb8(2000, 1000)
        .write_to(&mut bytes, image::ImageOutputFormat::Png)
        .unwrap();
    let bytes = bytes.into_inner();

    let primary = image_path_to_encoded(decode(&bytes, "image/png"), primary_upload_options());
    let thumbnail =
        image_path_to_encoded(decode(&bytes, "image/png"), thumbnail_upload_options());
    let uploaded = upload_image(primary, thumbnail, Ok(id())).unwrap();
    assert_eq!(uploaded.primary.size, (1024, 512));
    assert_eq!(uploaded.thumbnail.size, (128, 64));
    assert!(uploaded.primary.size.0.max(uploaded.primary.size.1) <= 1024);
    assert!(uploaded.thumbnail.size.0.max(uploaded.thumbnail.size.1) <= 128);

    let update = insert_image(&uploaded.new_image(), 42);
    assert_eq!(update.id, "Bcd-9");
    assert_eq!(update.optim_level, 0);
    assert_eq!((update.width, update.height), (1024, 512));
    assert_eq!((update.date_on_insert, update.last_seen_on_insert), (42, 42));
    let primary = image::load_from_memory_with_format(&update.data, image::ImageFormat::WebP)
        .unwrap();
    assert_eq!((primary.width(), primary.height()), (1024, 512));
    let thumbnail =
        image::load_from_memory_with_format(&update.thumbnail_data, image::ImageFormat::WebP)
            .unwrap();
    assert_eq!((thumbnail.width(), thumbnail.height()), (128, 64));
    assert_eq!(upload_stored(uploaded.id.clone(), Ok(())), Ok(id()));

    // the row as the store holds it after the insert is due for its one pass
    let row = StoredImage {
        id: ImageId(update.id),
        data: update.data,
        content_type: update.content_type,
        thumbnail_data: update.thumbnail_data,
        thumbnail_content_type: update.thumbnail_content_type,
        width: update.width,
        height: update.height,
        optim_level: update.optim_level,
        date: update.date_on_insert,
        last_seen: update.last_seen_on_insert,
    };
    assert_eq!(row.optim_level, 0);
    let stored_bytes = decode(&row.data, &row.content_type);
    assert!(optimize_image_and_update(&row, stored_bytes).is_ok());
}
