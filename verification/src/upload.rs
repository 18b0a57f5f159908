//! Taking in a newly uploaded image.
//!
//! An upload is encoded twice, as the image itself and as a thumbnail, while the
//! store is asked for an id that it does not hold yet. Once all three are there the
//! image is stored as fresh, and a first optimization pass is asked for, whose
//! outcome the upload does not wait for.

use crate::background_optimization::{PRIMARY_MAX_SIZE, THUMBNAIL_MAX_SIZE};
use crate::db::{writes_image, ImageUpdate, NewImage, FRESH_LEVEL};
use crate::encoding::{EncodeResult, FromImageOptions};
use crate::error::PipelineError;
use crate::util::ImageId;
use vstd::prelude::*;

verus! {

/// How the image itself is encoded on upload: scaled to `PRIMARY_MAX_SIZE`, by the
/// lossy candidate alone, which is the fast one.
pub fn primary_upload_options() -> (opts: FromImageOptions)
    ensures
        opts.max_size == Some(PRIMARY_MAX_SIZE),
        !opts.optimize_png,
{
    FromImageOptions { max_size: Some(PRIMARY_MAX_SIZE), optimize_png: false }
}

/// How the thumbnail is encoded on upload: scaled to `THUMBNAIL_MAX_SIZE`, by the
/// lossy candidate alone.
pub fn thumbnail_upload_options() -> (opts: FromImageOptions)
    ensures
        opts.max_size == Some(THUMBNAIL_MAX_SIZE),
        !opts.optimize_png,
{
    FromImageOptions { max_size: Some(THUMBNAIL_MAX_SIZE), optimize_png: false }
}

/// An upload that is ready to be stored.
#[derive(Debug, PartialEq, Eq)]
pub struct UploadedImage {
    pub id: ImageId,
    pub primary: EncodeResult,
    pub thumbnail: EncodeResult,
}

impl UploadedImage {
    /// `image` is the content to store for the upload: both variants under the
    /// id, with the size of the image itself, as a fresh image.
    pub open spec fn is_stored_as(self, image: NewImage<'_>) -> bool {
        &&& image.id@ == self.id@
        &&& image.size == self.primary.size
        &&& image.optim_level == FRESH_LEVEL
        &&& image.data@ == self.primary.data@
        &&& image.content_type@ == self.primary.content_type@
        &&& image.thumbnail_data@ == self.thumbnail.data@
        &&& image.thumbnail_content_type@ == self.thumbnail.content_type@
    }

    /// The row to insert for the upload: both variants under the id, as a fresh
    /// image.
    pub fn new_image(&self) -> (image: NewImage<'_>)
        ensures
            self.is_stored_as(image),
    {
        NewImage {
            id: &self.id,
            data: &self.primary.data,
            content_type: self.primary.content_type.as_str(),
            thumbnail_data: &self.thumbnail.data,
            thumbnail_content_type: self.thumbnail.content_type.as_str(),
            size: self.primary.size,
            optim_level: FRESH_LEVEL,
        }
    }
}

/// What an upload comes to once its two encodings and the search for its id are
/// over, in whatever order they ended.
///
/// A failed encoding fails the upload with its error, that of the image itself
/// before that of the thumbnail, and the id is dropped. With both encoded, a failed
/// search fails the upload. Otherwise the upload is ready to be stored.
pub fn upload_image(
    encoded_image: Result<EncodeResult, PipelineError>,
    encoded_thumbnail: Result<EncodeResult, PipelineError>,
    image_id: Result<ImageId, PipelineError>,
) -> (r: Result<UploadedImage, PipelineError>)
    ensures
        r == match (encoded_image, encoded_thumbnail, image_id) {
            (Err(e), _, _) => Err::<UploadedImage, PipelineError>(e),
            (Ok(_), Err(e), _) => Err(e),
            (Ok(_), Ok(_), Err(e)) => Err(e),
            (Ok(primary), Ok(thumbnail), Ok(id)) => Ok(UploadedImage { id, primary, thumbnail }),
        },
{
    let primary = match encoded_image {
        Ok(primary) => primary,
        Err(e) => return Err(e),
    };
    let thumbnail = match encoded_thumbnail {
        Ok(thumbnail) => thumbnail,
        Err(e) => return Err(e),
    };
    let id = match image_id {
        Ok(id) => id,
        Err(e) => return Err(e),
    };
    Ok(UploadedImage { id, primary, thumbnail })
}

/// The write of an upload under an id that the store does not hold leaves a row
/// that is fresh, holds both variants as they were encoded, and is dated at the
/// time of the write, before any pass has run.
pub proof fn lemma_upload_is_stored_fresh(
    uploaded: UploadedImage,
    image: NewImage<'_>,
    update: ImageUpdate,
    now: i64,
)
    requires
        uploaded.is_stored_as(image),
        writes_image(update, image, now),
    ensures
        update.row_after(None).optim_level == FRESH_LEVEL,
        update.row_after(None).id@ == uploaded.id@,
        update.row_after(None).data@ == uploaded.primary.data@,
        update.row_after(None).thumbnail_data@ == uploaded.thumbnail.data@,
        update.row_after(None).width == uploaded.primary.size.0,
        update.row_after(None).height == uploaded.primary.size.1,
        update.row_after(None).date == now,
        update.row_after(None).last_seen == now,
{
}

/// What the uploader is answered once the store has answered the insert: the id
/// of the image, or `StoreUnavailable` with the store's account. Whether the pass
/// that follows succeeds has no part in it.
pub fn upload_stored(id: ImageId, inserted: Result<(), String>) -> (r: Result<
    ImageId,
    PipelineError,
>)
    ensures
        r == match inserted {
            Ok(_) => Ok::<ImageId, PipelineError>(id),
            Err(e) => Err(PipelineError::StoreUnavailable(e)),
        },
{
    match inserted {
        Ok(_) => Ok(id),
        Err(e) => Err(PipelineError::StoreUnavailable(e)),
    }
}

} // verus!
