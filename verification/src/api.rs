//! What the site answers about an image, as plain values.

use crate::db::StoredImage;
use crate::util::ImageId;
use vstd::prelude::*;
use vstd::string::*;

verus! {

/// The text that `base64::encode` makes of the bytes: their base64 form in the
/// standard alphabet, padded.
pub uninterp spec fn base64_standard(bytes: Seq<u8>) -> Seq<char>;

/// Calls `base64::encode` on the bytes.
#[verifier::external_body]
fn base64_encode(bytes: &[u8]) -> (text: String)
    ensures
        text@ == base64_standard(bytes@),
{
    base64::encode(bytes)
}

/// What an upload through the API is answered with.
#[derive(Clone, Debug, PartialEq, Eq)]
pub struct ApiUploadResult {
    pub hash: String,
    pub url: String,
    pub view: String,
}

/// The address of an image on a host: `https://`, the host, `/`, the id.
pub open spec fn image_url(host: Seq<char>, id: Seq<char>) -> Seq<char> {
    "https://"@ + host + "/"@ + id
}

impl ApiUploadResult {
    /// The answer for the image of the given id, served from `host`.
    pub fn new(host: &str, image_id: &ImageId) -> (result: ApiUploadResult)
        ensures
            result.hash@ == image_id@,
            result.url@ == image_url(host@, image_id@),
            result.view@ == image_url(host@, image_id@),
    {
        let url = "https://".to_owned().concat(host).concat("/").concat(image_id.0.as_str());
        let view = url.clone();
        ApiUploadResult { hash: image_id.to_string(), url, view }
    }
}

/// The data returned about an image that is asked for as JSON.
#[derive(Clone, Debug, PartialEq, Eq)]
pub struct DocumentJson {
    // these are identical, for compatibility
    pub _id: String,
    pub id: String,
    pub thumbnail_b64: String,
    pub content_type: String,
    pub width: u32,
    pub height: u32,
    pub thumbnail_content_type: String,
}

impl DocumentJson {
    /// What is told about a stored image: its id, twice, the size and content
    /// type of the image itself, and its thumbnail in base64 with its content type.
    pub fn new(image: &StoredImage) -> (json: DocumentJson)
        ensures
            json._id@ == image.id@,
            json.id@ == image.id@,
            json.thumbnail_b64@ == base64_standard(image.thumbnail_data@),
            json.content_type@ == image.content_type@,
            json.width == image.width,
            json.height == image.height,
            json.thumbnail_content_type@ == image.thumbnail_content_type@,
    {
        DocumentJson {
            _id: image.id.to_string(),
            id: image.id.to_string(),
            width: image.width,
            height: image.height,
            content_type: image.content_type.clone(),
            thumbnail_b64: base64_encode(image.thumbnail_data.as_slice()),
            thumbnail_content_type: image.thumbnail_content_type.clone(),
        }
    }
}

} // verus!
