//! This is responsible for optimizing images in the background, like how right
//! after we upload an image we do some heavier work to compress the image.

use crate::db::{
    expiry_cutoff, writes_image, ImageUpdate, NewImage, StoredImage, FRESH_LEVEL,
};
use crate::encoding::{from_image, is_encoding_of_raster, EncodeResult, FromImageOptions};
use crate::error::PipelineError;
use crate::util::ImageId;
use image::DynamicImage;
use vstd::prelude::*;

verus! {

/// The longer side of an optimized image, at most.
pub const PRIMARY_MAX_SIZE: u32 = 1024;

/// The longer side of a thumbnail, at most.
pub const THUMBNAIL_MAX_SIZE: u32 = 128;

/// What a pass fails with when the store could not write its result.
pub const INSERT_ERROR: &'static str = "Inserting into database failed";

/// How the two variants of an image are encoded in a pass.
#[derive(Debug)]
pub struct PassConfig {
    pub primary: FromImageOptions,
    pub thumbnail: FromImageOptions,
}

/// The level that a pass takes an image of the given level to, if the image is
/// due for one. Only a fresh image is: there is one step, from fresh to optimized.
pub open spec fn next_level(current_level: u8) -> Option<u8> {
    if current_level == FRESH_LEVEL {
        Some(1u8)
    } else {
        None
    }
}

/// The options of a pass for the primary variant: scaled to `PRIMARY_MAX_SIZE`,
/// both candidates enabled.
pub open spec fn primary_pass_options() -> FromImageOptions {
    FromImageOptions { max_size: Some(PRIMARY_MAX_SIZE), optimize_png: true }
}

/// The options of a pass for the thumbnail: scaled to `THUMBNAIL_MAX_SIZE`, both
/// candidates enabled.
pub open spec fn thumbnail_pass_options() -> FromImageOptions {
    FromImageOptions { max_size: Some(THUMBNAIL_MAX_SIZE), optimize_png: true }
}

/// How an image of the given level is to be encoded next.
///
/// A fresh image gets the one configuration there is. Any other image has had
/// its pass and is refused with `IneligibleForOptimization`.
pub fn next_pass_config(current_level: u8) -> (r: Result<PassConfig, PipelineError>)
    ensures
        match next_level(current_level) {
            Some(_) => r matches Ok(config) && config.primary == primary_pass_options()
                && config.thumbnail == thumbnail_pass_options(),
            None => r == Err::<PassConfig, PipelineError>(PipelineError::IneligibleForOptimization),
        },
{
    if current_level == FRESH_LEVEL {
        Ok(
            PassConfig {
                primary: FromImageOptions { max_size: Some(PRIMARY_MAX_SIZE), optimize_png: true },
                thumbnail: FromImageOptions {
                    max_size: Some(THUMBNAIL_MAX_SIZE),
                    optimize_png: true,
                },
            },
        )
    } else {
        Err(PipelineError::IneligibleForOptimization)
    }
}

/// What a pass made of an image: both variants, and the level they are stored at.
#[derive(Debug, PartialEq, Eq)]
pub struct OptimizedImage {
    pub primary: EncodeResult,
    pub thumbnail: EncodeResult,
    pub optim_level: u8,
}

impl OptimizedImage {
    /// `image` is the content to store under `id` after the pass: both variants as
    /// the pass encoded them, the size of the primary one, and the new level.
    pub open spec fn is_stored_as(self, image: NewImage<'_>, id: ImageId) -> bool {
        &&& image.id@ == id@
        &&& image.size == self.primary.size
        &&& image.optim_level == self.optim_level
        &&& image.data@ == self.primary.data@
        &&& image.content_type@ == self.primary.content_type@
        &&& image.thumbnail_data@ == self.thumbnail.data@
        &&& image.thumbnail_content_type@ == self.thumbnail.content_type@
    }

    /// The content to store under `id`: both variants and the level, together.
    pub fn new_image<'a>(&'a self, id: &'a ImageId) -> (image: NewImage<'a>)
        ensures
            self.is_stored_as(image, *id),
    {
        NewImage {
            id,
            data: &self.primary.data,
            content_type: self.primary.content_type.as_str(),
            thumbnail_data: &self.thumbnail.data,
            thumbnail_content_type: self.thumbnail.content_type.as_str(),
            size: self.primary.size,
            optim_level: self.optim_level,
        }
    }
}

/// What a pass on `image` comes to, from what decoding its stored bytes came to
/// and whatever the encoders answer.
///
/// An image that is not fresh is refused, whatever its bytes hold. A fresh image
/// whose bytes did not decode fails with `Decode` and the decoder's account. Any
/// other image comes out one level up, both variants encoded from the one decoded
/// raster, or fails as the encoding of the primary variant or of the thumbnail
/// fails.
pub open spec fn is_pass_on(
    image: StoredImage,
    decoded: Result<DynamicImage, String>,
    r: Result<OptimizedImage, PipelineError>,
) -> bool {
    match next_level(image.optim_level) {
        None => r == Err::<OptimizedImage, PipelineError>(PipelineError::IneligibleForOptimization),
        Some(level) => match decoded {
            Err(account) => r == Err::<OptimizedImage, PipelineError>(
                PipelineError::Decode(account),
            ),
            Ok(raster) => match r {
                Ok(optimized) => {
                    &&& optimized.optim_level == level
                    &&& is_encoding_of_raster(
                        Ok::<EncodeResult, PipelineError>(optimized.primary),
                        raster,
                        primary_pass_options(),
                    )
                    &&& is_encoding_of_raster(
                        Ok::<EncodeResult, PipelineError>(optimized.thumbnail),
                        raster,
                        thumbnail_pass_options(),
                    )
                },
                Err(e) => is_encoding_of_raster(
                    Err::<EncodeResult, PipelineError>(e),
                    raster,
                    primary_pass_options(),
                ) || is_encoding_of_raster(
                    Err::<EncodeResult, PipelineError>(e),
                    raster,
                    thumbnail_pass_options(),
                ),
            },
        },
    }
}

/// A pass that is under way: the decoded raster, and how to encode its variants.
pub struct PassPlan {
    pub image: DynamicImage,
    pub config: PassConfig,
}

/// Begin a pass on `image`, from what decoding its stored bytes as their content
/// type came to.
///
/// The policy is asked first: an image that is not fresh is refused, whatever the
/// decoder answered, and a caller that asks `next_pass_config` before it decodes
/// spares the decoding. A fresh image whose bytes did not decode fails with
/// `Decode` and the decoder's account.
pub fn begin_pass(image: &StoredImage, decoded: Result<DynamicImage, String>) -> (r: Result<
    PassPlan,
    PipelineError,
>)
    ensures
        r == match next_level(image.optim_level) {
            None => Err::<PassPlan, PipelineError>(PipelineError::IneligibleForOptimization),
            Some(_) => match decoded {
                Err(account) => Err(PipelineError::Decode(account)),
                Ok(raster) => Ok(
                    PassPlan {
                        image: raster,
                        config: PassConfig {
                            primary: primary_pass_options(),
                            thumbnail: thumbnail_pass_options(),
                        },
                    },
                ),
            },
        },
{
    let config = match next_pass_config(image.optim_level) {
        Ok(config) => config,
        Err(e) => return Err(e),
    };
    match decoded {
        Ok(raster) => Ok(PassPlan { image: raster, config }),
        Err(account) => Err(PipelineError::Decode(account)),
    }
}

/// End a pass on an image of the level `current_level`, which is due for one, from
/// what the encoding of its two variants came to.
///
/// A failed encoding fails the pass with its error, that of the primary variant
/// before that of the thumbnail. With both encoded, the image comes out one level
/// up.
pub fn finish_pass(
    current_level: u8,
    encoded_image: Result<EncodeResult, PipelineError>,
    encoded_thumbnail: Result<EncodeResult, PipelineError>,
) -> (r: Result<OptimizedImage, PipelineError>)
    requires
        next_level(current_level) is Some,
    ensures
        r == match (encoded_image, encoded_thumbnail) {
            (Err(e), _) => Err::<OptimizedImage, PipelineError>(e),
            (Ok(_), Err(e)) => Err(e),
            (Ok(primary), Ok(thumbnail)) => Ok(
                OptimizedImage { primary, thumbnail, optim_level: next_level(current_level)->0 },
            ),
        },
{
    let primary = match encoded_image {
        Ok(primary) => primary,
        Err(e) => return Err(e),
    };
    let thumbnail = match encoded_thumbnail {
        Ok(thumbnail) => thumbnail,
        Err(e) => return Err(e),
    };
    Ok(OptimizedImage { primary, thumbnail, optim_level: current_level + 1 })
}

/// Optimize an image from the database and bump its compression level, from what
/// decoding its stored bytes came to.
///
/// The result is what is to be written to the store. Nothing is to be written
/// where the pass fails or is refused: the row stays as it is.
pub fn optimize_image_and_update(image: &StoredImage, decoded: Result<DynamicImage, String>) -> (r:
    Result<OptimizedImage, PipelineError>)
    ensures
        is_pass_on(*image, decoded, r),
{
    let plan = match begin_pass(image, decoded) {
        Ok(plan) => plan,
        Err(e) => return Err(e),
    };
    let encoded_image = from_image(plan.image.clone(), plan.config.primary);
    let encoded_thumbnail = from_image(plan.image, plan.config.thumbnail);
    finish_pass(image.optim_level, encoded_image, encoded_thumbnail)
}

/// What a pass comes to once the store has answered the write of its result: the
/// store's failure fails the pass with `StoreUnavailable` and `INSERT_ERROR`.
pub fn pass_written(written: Result<(), String>) -> (r: Result<(), PipelineError>)
    ensures
        match written {
            Ok(_) => r is Ok,
            Err(_) => r matches Err(PipelineError::StoreUnavailable(m)) && m@ == INSERT_ERROR@,
        },
{
    match written {
        Ok(_) => Ok(()),
        Err(_) => Err(PipelineError::StoreUnavailable(INSERT_ERROR.to_owned())),
    }
}

/// A pass on an image that is not fresh is refused, whatever the image holds, and
/// leaves nothing to write.
pub proof fn lemma_pass_on_optimized_image_is_refused(
    image: StoredImage,
    decoded: Result<DynamicImage, String>,
    r: Result<OptimizedImage, PipelineError>,
)
    requires
        image.optim_level != FRESH_LEVEL,
        is_pass_on(image, decoded, r),
    ensures
        r == Err::<OptimizedImage, PipelineError>(PipelineError::IneligibleForOptimization),
{
}

/// A pass that succeeds was run on a fresh image, and the write of its result
/// leaves a row one level up that holds both variants as the pass encoded them,
/// under the same id and with the dates it had. A second pass on that row is
/// refused.
pub proof fn lemma_pass_advances_level_with_content(
    row: StoredImage,
    optimized: OptimizedImage,
    image: NewImage<'_>,
    update: ImageUpdate,
    now: i64,
    decoded: Result<DynamicImage, String>,
    decoded_again: Result<DynamicImage, String>,
    second: Result<OptimizedImage, PipelineError>,
)
    requires
        is_pass_on(row, decoded, Ok(optimized)),
        optimized.is_stored_as(image, row.id),
        writes_image(update, image, now),
        is_pass_on(update.row_after(Some(row)), decoded_again, second),
    ensures
        row.optim_level == FRESH_LEVEL,
        update.row_after(Some(row)).optim_level == row.optim_level + 1,
        update.row_after(Some(row)).data@ == optimized.primary.data@,
        update.row_after(Some(row)).thumbnail_data@ == optimized.thumbnail.data@,
        update.row_after(Some(row)).id@ == row.id@,
        update.row_after(Some(row)).date == row.date,
        update.row_after(Some(row)).last_seen == row.last_seen,
        second == Err::<OptimizedImage, PipelineError>(PipelineError::IneligibleForOptimization),
{
}

/// The level of an image after one more pass, from its level before and from
/// whether the pass succeeded and was written.
pub open spec fn level_after(level: u8, pass_succeeded: bool) -> u8 {
    match next_level(level) {
        Some(next) if pass_succeeded => next,
        _ => level,
    }
}

/// The levels that an image is seen at over time: the level it is uploaded at, and
/// the level after each of the passes that are run on it, in turn.
pub open spec fn level_history(passes: Seq<bool>) -> Seq<u8>
    decreases passes.len(),
{
    if passes.len() == 0 {
        seq![FRESH_LEVEL]
    } else {
        let before = level_history(passes.drop_last());
        before.push(level_after(before.last(), passes.last()))
    }
}

/// The levels that an image is seen at start at the fresh level and never go
/// down, whatever passes are run on it and however they end. The level changes
/// only over a pass that succeeded, and then by one.
pub proof fn lemma_level_history_never_decreases(passes: Seq<bool>)
    ensures
        level_history(passes).len() == passes.len() + 1,
        level_history(passes)[0] == FRESH_LEVEL,
        forall|i: int, j: int|
            0 <= i <= j <= passes.len() ==> level_history(passes)[i] <= level_history(passes)[j],
        forall|i: int|
            0 <= i < passes.len() && level_history(passes)[i + 1] != level_history(passes)[i]
                ==> passes[i] && level_history(passes)[i + 1] == level_history(passes)[i] + 1,
    decreases passes.len(),
{
    if passes.len() > 0 {
        let earlier = passes.drop_last();
        lemma_level_history_never_decreases(earlier);
        let before = level_history(earlier);
        let all = level_history(passes);
        assert(all == before.push(level_after(before.last(), passes.last())));
        assert(forall|i: int| 0 <= i < before.len() ==> all[i] == before[i]);
        assert(forall|i: int| 0 <= i < earlier.len() ==> earlier[i] == passes[i]);
        assert(all[passes.len() as int] >= before.last());
    }
}

/// What the store, or the pass, reported to the sweep.
#[derive(Debug, PartialEq, Eq)]
pub enum SweepEvent {
    /// A cycle begins, at this time in milliseconds since the epoch. Images are
    /// kept for `retention_millis` after they were last seen.
    Started { now: i64, retention_millis: i64 },
    /// The store has deleted the images that were not seen for too long, this many
    /// of them, or it failed.
    Expired(Result<u64, String>),
    /// The store has opened the scan of the fresh images, or it failed.
    ScanOpened(Result<(), String>),
    /// The scan handed out its next image, or none because it is through, or it
    /// failed.
    Row(Result<Option<StoredImage>, String>),
    /// The pass on the image that was handed out last is over.
    Optimized(Result<(), PipelineError>),
}

/// What the sweep does next.
#[derive(Debug, PartialEq, Eq)]
pub enum SweepAction {
    /// Delete the images that were last seen before `cutoff`.
    Expire { cutoff: i64 },
    /// Open a scan of the images of the given level.
    Scan { optim_level: u8 },
    /// Take the next image from the scan.
    NextRow,
    /// Run a pass on this image and write its result.
    Optimize(StoredImage),
    /// The cycle is over.
    Finish(Result<(), PipelineError>),
}

/// The step of a cycle that follows on `event`.
///
/// A cycle deletes what has expired, then scans the fresh images and runs a pass
/// on each in turn. A failure of the store ends the cycle with `StoreUnavailable`.
/// A pass that fails does not: the sweep goes on to the next image.
pub open spec fn sweep_step(event: SweepEvent) -> SweepAction {
    match event {
        SweepEvent::Started { now, retention_millis } => SweepAction::Expire {
            cutoff: (now - retention_millis) as i64,
        },
        SweepEvent::Expired(Ok(_)) => SweepAction::Scan { optim_level: FRESH_LEVEL },
        SweepEvent::Expired(Err(e)) => SweepAction::Finish(
            Err(PipelineError::StoreUnavailable(e)),
        ),
        SweepEvent::ScanOpened(Ok(_)) => SweepAction::NextRow,
        SweepEvent::ScanOpened(Err(e)) => SweepAction::Finish(
            Err(PipelineError::StoreUnavailable(e)),
        ),
        SweepEvent::Row(Ok(Some(image))) => SweepAction::Optimize(image),
        SweepEvent::Row(Ok(None)) => SweepAction::Finish(Ok(())),
        SweepEvent::Row(Err(e)) => SweepAction::Finish(Err(PipelineError::StoreUnavailable(e))),
        SweepEvent::Optimized(_) => SweepAction::NextRow,
    }
}

/// Find images that should be optimized or deleted from the database: the next
/// step of the sweep, from what the last one came to.
///
/// Where a cycle starts, the retention time taken off the time of the start is a
/// date that the clock can tell.
pub fn optimize_images_from_database(event: SweepEvent) -> (action: SweepAction)
    requires
        event matches SweepEvent::Started { now, retention_millis } ==> i64::MIN <= now
            - retention_millis <= i64::MAX,
    ensures
        action == sweep_step(event),
{
    match event {
        // delete images that haven't been viewed for too long
        SweepEvent::Started { now, retention_millis } => SweepAction::Expire {
            cutoff: expiry_cutoff(now, retention_millis),
        },
        // images with an optimization level of 0
        SweepEvent::Expired(Ok(_)) => SweepAction::Scan { optim_level: FRESH_LEVEL },
        SweepEvent::Expired(Err(e)) => SweepAction::Finish(
            Err(PipelineError::StoreUnavailable(e)),
        ),
        SweepEvent::ScanOpened(Ok(_)) => SweepAction::NextRow,
        SweepEvent::ScanOpened(Err(e)) => SweepAction::Finish(
            Err(PipelineError::StoreUnavailable(e)),
        ),
        SweepEvent::Row(Ok(Some(image))) => SweepAction::Optimize(image),
        SweepEvent::Row(Ok(None)) => SweepAction::Finish(Ok(())),
        SweepEvent::Row(Err(e)) => SweepAction::Finish(Err(PipelineError::StoreUnavailable(e))),
        // if there's an error, just ignore it
        SweepEvent::Optimized(_) => SweepAction::NextRow,
    }
}

} // verus!
