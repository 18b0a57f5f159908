use image_host::api::{ApiUploadResult, DocumentJson};
use image_host::db::StoredImage;
use image_host::util::ImageId;

fn stored(thumbnail_data: &[u8]) -> StoredImage {
    StoredImage {
        id: ImageId("Bcd-9".to_string()),
        data: vec![1, 2, 3],
        content_type: "image/webp".to_string(),
        thumbnail_data: thumbnail_data.to_vec(),
        thumbnail_content_type: "image/png".to_string(),
        width: 1024,
        height: 512,
        optim_level: 1,
        date: 1_000,
        last_seen: 2_000,
    }
}

#[test]
fn api_upload_result_names_the_image() {
    let id = ImageId("Bcd-9".to_string());
    assert_eq!(
        ApiUploadResult::new("i.matdoes.dev", &id),
        ApiUploadResult {
            hash: "Bcd-9".to_string(),
            url: "https://i.matdoes.dev/Bcd-9".to_string(),
            view: "https://i.matdoes.dev/Bcd-9".to_string(),
        }
    );
    let bare = ApiUploadResult::new("", &ImageId(String::new()));
    assert_eq!(bare.url, "https:///");
}

#[test]
fn document_json_tells_about_the_image() {
    assert_eq!(
        DocumentJson::new(&stored(b"hello")),
        DocumentJson {
            _id: "Bcd-9".to_string(),
            id: "Bcd-9".to_string(),
            thumbnail_b64: "aGVsbG8=".to_string(),
            content_type: "image/webp".to_string(),
            width: 1024,
            height: 512,
            thumbnail_content_type: "image/png".to_string(),
        }
    );
}

#[test]
fn document_json_encodes_the_thumbnail_in_base64() {
    assert_eq!(DocumentJson::new(&stored(b"")).thumbnail_b64, "");
    assert_eq!(DocumentJson::new(&stored(&[0xff, 0xfe, 0xfd])).thumbnail_b64, "//79");
    assert_eq!(DocumentJson::new(&stored(b"ab")).thumbnail_b64, "YWI=");
}
