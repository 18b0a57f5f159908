//! Encode images into the formats that we use.

use crate::error::PipelineError;
use crate::raster::{
    dimensions, encode_png, encode_webp, image_dimensions, optimize_png, png_encoded,
    resize_exact, WebpFailure,
};
use image::DynamicImage;
use vstd::prelude::*;
use vstd::string::*;

verus! {

/// An image in its stored form: the encoded bytes, the size of the raster they
/// hold, and the content type to serve them under.
#[derive(Debug, PartialEq, Eq)]
pub struct EncodeResult {
    pub data: Vec<u8>,
    pub size: (u32, u32),
    pub content_type: String,
}

/// What one candidate encoder made of the raster.
#[derive(Clone, Debug, PartialEq, Eq)]
pub struct CompressedImageResult {
    pub data: Vec<u8>,
    pub content_type: String,
}

/// How an image is to be encoded.
#[non_exhaustive]
#[derive(Debug)]
pub struct FromImageOptions {
    /// The max width and height of the image
    pub max_size: Option<u32>,
    /// Whether it should also try compressing the image with PNG, this will be slower and often unnecessary
    pub optimize_png: bool,
}

impl Default for FromImageOptions {
    fn default() -> (opts: FromImageOptions)
        ensures
            opts.max_size is None,
            !opts.optimize_png,
    {
        FromImageOptions { max_size: None, optimize_png: false }
    }
}

/// The content type of the lossy candidate, which always runs.
pub const WEBP_CONTENT_TYPE: &'static str = "image/webp";

/// The content type of the lossless candidate.
pub const PNG_CONTENT_TYPE: &'static str = "image/png";

/// What an upload is answered with when its bytes do not decode.
pub const DECODE_ERROR: &'static str = "Error decoding image";

/// The quality that the lossy candidate encodes at, out of 100.
pub const WEBP_QUALITY: u8 = 90;

/// The widest raster that the lossy encoder can be handed: a row of it, four bytes
/// to the pixel, still has a length that a signed 32-bit number holds.
pub const WEBP_MAX_WIDTH: u32 = 0x1fff_ffff;

/// What the lossy candidate fails with on a raster that is wider.
pub const WEBP_WIDTH_ERROR: &'static str = "Error sizing webp: the image is too wide";

/// What goes before the encoder's account where no lossy encoder could be made.
pub const WEBP_ENCODER_ERROR: &'static str = "Error making encoder for webp: ";

/// What goes before the encoder's account where the lossy encoder failed.
pub const WEBP_ENCODE_ERROR: &'static str = "Error encoding webp: ";

/// What goes before the encoder's account where no PNG file could be written.
pub const PNG_WRITE_ERROR: &'static str = "Error writing png: ";

/// What goes before the account of a recompression that failed.
pub const PNG_OPTIMIZE_ERROR: &'static str = "Error optimizing png: ";

/// `shorter * max_size / longer` rounded to the nearest integer, halves upwards.
/// With no longer side to divide by, the scaled side is 0.
pub open spec fn scaled_side(shorter: int, longer: int, max_size: int) -> int {
    if longer == 0 {
        0
    } else {
        (2 * shorter * max_size + longer) / (2 * longer)
    }
}

/// The size an image of `width` by `height` is given under the limit `max_size`.
///
/// Below the limit on both sides the size stays. Otherwise the longer side becomes
/// `max_size` and the shorter side follows in proportion.
pub open spec fn clamped_size(width: int, height: int, max_size: int) -> (int, int) {
    if width < max_size && height < max_size {
        (width, height)
    } else if width > height {
        (max_size, scaled_side(height, width, max_size))
    } else {
        (scaled_side(width, height, max_size), max_size)
    }
}

/// The scaled side is at most half a unit of the longer side away from the exact
/// quotient, and never exceeds the limit.
pub proof fn lemma_scaled_side_is_nearest(shorter: int, longer: int, max_size: int)
    requires
        0 <= shorter <= longer,
        0 < longer,
        0 <= max_size,
    ensures
        0 <= scaled_side(shorter, longer, max_size) <= max_size,
        -longer <= 2 * (shorter * max_size) - 2 * (scaled_side(shorter, longer, max_size) * longer)
            < longer,
        max_size <= longer ==> scaled_side(shorter, longer, max_size) <= shorter,
{
    let n = 2 * shorter * max_size + longer;
    let d = 2 * longer;
    let r = n / d;
    assert(0 <= shorter * max_size <= longer * max_size) by (nonlinear_arith)
        requires
            0 <= shorter <= longer,
            0 <= max_size,
    ;
    assert(2 * shorter * max_size == 2 * (shorter * max_size)) by (nonlinear_arith);
    assert(n == r * d + n % d && 0 <= n % d < d) by (nonlinear_arith)
        requires
            r == n / d,
            d > 0,
    ;
    assert(r * d == 2 * (r * longer)) by (nonlinear_arith)
        requires
            d == 2 * longer,
    ;
    assert(r <= max_size) by (nonlinear_arith)
        requires
            2 * (r * longer) <= 2 * (longer * max_size) + longer,
            longer > 0,
    ;
    assert(r >= 0) by (nonlinear_arith)
        requires
            2 * (r * longer) + 2 * longer > 0,
            longer > 0,
    ;
    if max_size <= longer {
        assert(shorter * max_size <= shorter * longer) by (nonlinear_arith)
            requires
                0 <= shorter,
                0 <= max_size <= longer,
        ;
        assert(r <= shorter) by (nonlinear_arith)
            requires
                2 * (r * longer) <= 2 * (shorter * longer) + longer,
                longer > 0,
        ;
    }
}

/// Take in the current size of the image along with a new desired max size
/// and return the new size. If both the width and height are smaller than
/// the max size, their old values are returned.
pub fn clamp_im_size(width: u32, height: u32, max_size: u32) -> (size: (u32, u32))
    ensures
        (size.0 as int, size.1 as int) == clamped_size(width as int, height as int, max_size as int),
        width < max_size && height < max_size ==> size == (width, height),
        !(width < max_size && height < max_size) ==> size.0 <= max_size && size.1 <= max_size && (
            size.0 == max_size || size.1 == max_size),
{
    // they're both within the size, we don't need to do anything
    if width < max_size && height < max_size {
        return (width, height);
    }
    if width > height {
        (max_size, scale_side(height, width, max_size))
    } else {
        (scale_side(width, height, max_size), max_size)
    }
}

/// Scales the shorter side by `max_size / longer`, to the nearest pixel.
fn scale_side(shorter: u32, longer: u32, max_size: u32) -> (scaled: u32)
    requires
        shorter <= longer,
    ensures
        scaled as int == scaled_side(shorter as int, longer as int, max_size as int),
        scaled <= max_size,
{
    if longer == 0 {
        return 0;
    }
    proof {
        lemma_scaled_side_is_nearest(shorter as int, longer as int, max_size as int);
        assert(0 <= shorter * max_size <= 0xffff_ffff * 0xffff_ffff) by (nonlinear_arith)
            requires
                0 <= shorter <= 0xffff_ffff,
                0 <= max_size <= 0xffff_ffff,
        ;
    }
    let product: u64 = shorter as u64 * max_size as u64;
    let numerator: u128 = 2 * (product as u128) + longer as u128;
    let denominator: u128 = 2 * (longer as u128);
    assert(numerator as int == 2 * shorter * max_size + longer) by (nonlinear_arith)
        requires
            numerator as int == 2 * (shorter * max_size) + longer,
    ;
    (numerator / denominator) as u32
}

/// Whether an image of this size is scaled down under the limit: there is a limit,
/// and one side exceeds it.
pub open spec fn needs_resize(size: (u32, u32), max_size: Option<u32>) -> bool {
    max_size matches Some(m) && (size.0 > m || size.1 > m)
}

/// The size an image of this size is stored in under the limit.
pub open spec fn target_size(size: (u32, u32), max_size: Option<u32>) -> (int, int) {
    if needs_resize(size, max_size) {
        clamped_size(size.0 as int, size.1 as int, max_size->0 as int)
    } else {
        (size.0 as int, size.1 as int)
    }
}

/// Whether the image can be scaled down on this machine. Resampling goes through a
/// raster of sixteen bytes for each column of the source and each row of the
/// result, which has to fit in memory that can be addressed.
pub open spec fn resize_fits(size: (u32, u32), max_size: Option<u32>) -> bool {
    needs_resize(size, max_size) ==> 16 * size.0 * target_size(size, max_size).1 <= isize::MAX
}

/// The size to scale an image of `width` by `height` to, if it has to be scaled:
/// the clamped size where a limit is set and one side exceeds it, and nothing
/// otherwise. A size to scale to is never larger than the image on either side.
pub fn resize_target(width: u32, height: u32, max_size: Option<u32>) -> (target: Option<(u32, u32)>)
    ensures
        target is Some <==> needs_resize((width, height), max_size),
        target matches Some(size) ==> (size.0 as int, size.1 as int) == target_size(
            (width, height),
            max_size,
        ) && size.0 <= width && size.1 <= height,
{
    match max_size {
        Some(max_size) => {
            if width > max_size || height > max_size {
                proof {
                    if width > height {
                        lemma_scaled_side_is_nearest(height as int, width as int, max_size as int);
                    } else {
                        lemma_scaled_side_is_nearest(width as int, height as int, max_size as int);
                    }
                }
                Some(clamp_im_size(width, height, max_size))
            } else {
                None
            }
        },
        None => None,
    }
}

/// Scale the image down if the options ask for it, with a high-quality filter.
/// The result is the image to encode, with its size.
///
/// Fails with `Resize` exactly when the image has to be scaled and cannot be on
/// this machine.
pub fn resize_image(original_im: DynamicImage, opts: &FromImageOptions) -> (r: Result<
    ((u32, u32), DynamicImage),
    PipelineError,
>)
    ensures
        r is Ok <==> resize_fits(image_dimensions(original_im), opts.max_size),
        r matches Ok((size, im)) ==> {
            &&& (size.0 as int, size.1 as int) == target_size(
                image_dimensions(original_im),
                opts.max_size,
            )
            &&& image_dimensions(im) == size
            &&& !needs_resize(image_dimensions(original_im), opts.max_size) ==> im == original_im
        },
        r matches Err(e) ==> e == PipelineError::Resize,
{
    let (original_width, original_height) = dimensions(&original_im);
    match resize_target(original_width, original_height, opts.max_size) {
        Some(new_size) => {
            let columns: u64 = original_width as u64;
            let rows: u64 = new_size.1 as u64;
            assert(columns * rows <= 0xffff_ffff * 0xffff_ffff) by (nonlinear_arith)
                requires
                    0 <= columns <= 0xffff_ffff,
                    0 <= rows <= 0xffff_ffff,
            ;
            assert(16 * original_width * new_size.1 == 16 * (columns * rows)) by (nonlinear_arith)
                requires
                    columns == original_width,
                    rows == new_size.1,
            ;
            if columns * rows > (isize::MAX as u64) / 16 {
                return Err(PipelineError::Resize);
            }
            let new_im = resize_exact(&original_im, new_size.0, new_size.1);
            Ok((new_size, new_im))
        },
        None => Ok(((original_width, original_height), original_im)),
    }
}

/// What a candidate hands in, from what its encoder answered: the bytes under
/// the content type of the candidate, or the encoder's error as it is.
pub fn compressed_result(encoded: Result<Vec<u8>, String>, content_type: &str) -> (r: Result<
    CompressedImageResult,
    String,
>)
    ensures
        match encoded {
            Ok(image_bytes) => r matches Ok(candidate) && candidate.data == image_bytes
                && candidate.content_type@ == content_type@,
            Err(e) => r == Err::<CompressedImageResult, String>(e),
        },
{
    match encoded {
        Ok(image_bytes) => Ok(
            CompressedImageResult { data: image_bytes, content_type: content_type.to_owned() },
        ),
        Err(e) => Err(e),
    }
}

/// The text of an error: what the library says of it, then the account that
/// came with it.
fn prefixed(prefix: &str, account: &str) -> (text: String)
    ensures
        text@ == prefix@ + account@,
        prefix@.is_prefix_of(text@),
{
    let text = prefix.to_owned().concat(account);
    assert(text@.subrange(0, prefix@.len() as int) =~= prefix@);
    text
}

/// The text is one that the lossy candidate fails with when its encoder fails:
/// it begins with `WEBP_ENCODER_ERROR` or with `WEBP_ENCODE_ERROR`.
pub open spec fn is_webp_encoder_error(text: Seq<char>) -> bool {
    WEBP_ENCODER_ERROR@.is_prefix_of(text) || WEBP_ENCODE_ERROR@.is_prefix_of(text)
}

/// No error of the encoder reads like the error of a raster that is too wide.
pub proof fn lemma_webp_width_error_stands_apart(text: Seq<char>)
    requires
        is_webp_encoder_error(text),
    ensures
        text != WEBP_WIDTH_ERROR@,
{
    reveal_strlit("Error sizing webp: the image is too wide");
    reveal_strlit("Error making encoder for webp: ");
    reveal_strlit("Error encoding webp: ");
    if WEBP_ENCODER_ERROR@.is_prefix_of(text) {
        assert(text.subrange(0, WEBP_ENCODER_ERROR@.len() as int)[6] == text[6]);
        assert(WEBP_ENCODER_ERROR@[6] == 'm');
    } else {
        assert(text.subrange(0, WEBP_ENCODE_ERROR@.len() as int)[6] == text[6]);
        assert(WEBP_ENCODE_ERROR@[6] == 'e');
    }
    assert(WEBP_WIDTH_ERROR@[6] == 's');
}

/// What the lossy candidate makes of a raster, whatever its encoder answers.
///
/// A raster wider than `WEBP_MAX_WIDTH` cannot be handed to the encoder and fails
/// the candidate with `WEBP_WIDTH_ERROR`, and no other raster fails with it. On any
/// other raster the encoder decides: a success carries a file that is not empty,
/// under the WebP content type, and a failure carries the encoder's account behind
/// `WEBP_ENCODER_ERROR` or `WEBP_ENCODE_ERROR`.
pub open spec fn is_webp_of(im: DynamicImage, r: Result<CompressedImageResult, String>) -> bool {
    &&& image_dimensions(im).0 > WEBP_MAX_WIDTH ==> (r matches Err(e) && e@ == WEBP_WIDTH_ERROR@)
    &&& (r matches Err(e) && e@ == WEBP_WIDTH_ERROR@) ==> image_dimensions(im).0 > WEBP_MAX_WIDTH
    &&& image_dimensions(im).0 <= WEBP_MAX_WIDTH ==> match r {
        Ok(encoded) => encoded.content_type@ == WEBP_CONTENT_TYPE@ && encoded.data@.len() > 0,
        Err(e) => is_webp_encoder_error(e@),
    }
}

/// Convert a dynamic image into a Webp.
///
/// A raster wider than `WEBP_MAX_WIDTH` cannot be handed to the encoder and counts
/// as a failure of this candidate, with `WEBP_WIDTH_ERROR`. What the encoder
/// answers otherwise is its own affair: a success carries its file, which is not
/// empty, under the WebP content type, and a failure its account.
pub fn to_webp(im: &DynamicImage) -> (r: Result<CompressedImageResult, String>)
    ensures
        is_webp_of(*im, r),
{
    let (width, _) = dimensions(im);
    if width > WEBP_MAX_WIDTH {
        return Err(WEBP_WIDTH_ERROR.to_owned());
    }
    let encoded = match encode_webp(im, WEBP_QUALITY) {
        Ok(image_bytes) => Ok(image_bytes),
        Err(WebpFailure::Encoder(account)) => Err(prefixed(WEBP_ENCODER_ERROR, account.as_str())),
        Err(WebpFailure::Encode(account)) => Err(prefixed(WEBP_ENCODE_ERROR, account.as_str())),
    };
    proof {
        if encoded is Err {
            lemma_webp_width_error_stands_apart(encoded->Err_0@);
        }
    }
    compressed_result(encoded, WEBP_CONTENT_TYPE)
}

/// What the lossless candidate makes of a raster, whatever the recompression
/// answers.
///
/// A raster that cannot be written as a PNG file fails the candidate with
/// `PNG_WRITE_ERROR` and the account of that error, and nothing is recompressed.
/// Otherwise the file is recompressed. A success carries the PNG content type and
/// a file that is not empty and no longer than the one that was written first. A
/// failure carries the account of the recompression behind `PNG_OPTIMIZE_ERROR`.
pub open spec fn is_png_of(im: DynamicImage, r: Result<CompressedImageResult, String>) -> bool {
    match png_encoded(im) {
        Ok(png) => match r {
            Ok(encoded) => encoded.content_type@ == PNG_CONTENT_TYPE@ && 0 < encoded.data@.len()
                <= png.len(),
            Err(message) => PNG_OPTIMIZE_ERROR@.is_prefix_of(message@),
        },
        Err(account) => r matches Err(message) && message@ == PNG_WRITE_ERROR@ + account,
    }
}

/// Convert a dynamic image to png, and recompress the file to make it small.
///
/// Either step may fail, and the first failure is the result: where the raster
/// cannot be written as a PNG file, the account of that error, and else that of
/// the recompression if it fails. A success carries the PNG content type, and its
/// file is not empty and never longer than the one that was written before the
/// recompression.
pub fn to_png(im: &DynamicImage) -> (r: Result<CompressedImageResult, String>)
    ensures
        is_png_of(*im, r),
{
    let bytes = match encode_png(im) {
        Ok(bytes) => bytes,
        Err(account) => return Err(prefixed(PNG_WRITE_ERROR, account.as_str())),
    };
    let optimized = match optimize_png(bytes.as_slice()) {
        Ok(image_bytes) => Ok(image_bytes),
        Err(account) => Err(prefixed(PNG_OPTIMIZE_ERROR, account.as_str())),
    };
    compressed_result(optimized, PNG_CONTENT_TYPE)
}

/// An encoder that competes for the smallest encoding of a raster.
#[derive(Clone, Copy, Debug, PartialEq, Eq, Structural)]
pub enum Candidate {
    /// The lossy encoder. It is the primary candidate: it always runs, and wins a tie.
    WebP,
    /// The lossless encoder. It takes more time and seldom wins.
    Png,
}

impl Candidate {
    /// The content type of what the candidate encodes.
    pub open spec fn content_type(self) -> &'static str {
        match self {
            Candidate::WebP => WEBP_CONTENT_TYPE,
            Candidate::Png => PNG_CONTENT_TYPE,
        }
    }
}

/// The candidates that run under the options, in their order of priority: the
/// lossy one, and after it the lossless one where the options enable it.
pub open spec fn candidates_of(opts: FromImageOptions) -> Seq<Candidate> {
    if opts.optimize_png {
        seq![Candidate::WebP, Candidate::Png]
    } else {
        seq![Candidate::WebP]
    }
}

/// The candidates to run under the options, in their order of priority.
pub fn enabled_candidates(opts: &FromImageOptions) -> (candidates: Vec<Candidate>)
    ensures
        candidates@ == candidates_of(*opts),
{
    let mut candidates: Vec<Candidate> = Vec::new();
    candidates.push(Candidate::WebP);
    if opts.optimize_png {
        candidates.push(Candidate::Png);
    }
    candidates
}

/// What running a candidate on a raster comes to, whatever its encoder answers:
/// what the lossy candidate makes of the raster, or what the lossless one does.
pub open spec fn is_result_of(
    candidate: Candidate,
    im: DynamicImage,
    r: Result<CompressedImageResult, String>,
) -> bool {
    match candidate {
        Candidate::WebP => is_webp_of(im, r),
        Candidate::Png => is_png_of(im, r),
    }
}

/// Run one candidate on the raster: the lossy candidate as `to_webp` does it, the
/// lossless one as `to_png` does. Every candidate is given the same raster and
/// changes nothing: the runs are independent of each other, in any order and at the
/// same time. A success carries the content type of the candidate.
pub fn encode_candidate(candidate: Candidate, im: &DynamicImage) -> (r: Result<
    CompressedImageResult,
    String,
>)
    ensures
        is_result_of(candidate, *im, r),
        r matches Ok(encoded) ==> encoded.content_type@ == candidate.content_type()@
            && encoded.data@.len() > 0,
{
    match candidate {
        Candidate::WebP => to_webp(im),
        Candidate::Png => to_png(im),
    }
}

/// The number of bytes of a candidate that succeeded.
pub open spec fn encoded_len(result: Result<CompressedImageResult, String>) -> nat {
    result->Ok_0.data@.len()
}

/// Candidate `k` of `results` is the one to keep: it succeeded, no candidate that
/// succeeded is smaller, and every one before it that succeeded is larger. The
/// candidates stand in their order of priority, so of two equal ones the earlier
/// is kept.
pub open spec fn is_selected(results: Seq<Result<CompressedImageResult, String>>, k: int) -> bool {
    &&& 0 <= k < results.len()
    &&& results[k] is Ok
    &&& forall|j: int|
        0 <= j < results.len() && (#[trigger] results[j]) is Ok ==> encoded_len(results[k])
            <= encoded_len(results[j])
    &&& forall|j: int|
        0 <= j < k && (#[trigger] results[j]) is Ok ==> encoded_len(results[k]) < encoded_len(
            results[j],
        )
}

/// Every candidate of `results` failed.
pub open spec fn all_failed(results: Seq<Result<CompressedImageResult, String>>) -> bool {
    forall|j: int| 0 <= j < results.len() ==> (#[trigger] results[j]) is Err
}

/// At most one candidate is the one to keep.
pub proof fn lemma_selected_is_unique(
    results: Seq<Result<CompressedImageResult, String>>,
    k1: int,
    k2: int,
)
    requires
        is_selected(results, k1),
        is_selected(results, k2),
    ensures
        k1 == k2,
{
    if k1 < k2 {
        assert(encoded_len(results[k2]) < encoded_len(results[k1]));
    } else if k2 < k1 {
        assert(encoded_len(results[k1]) < encoded_len(results[k2]));
    }
}

/// Of two candidates, the secondary one is kept where it is the only one that
/// succeeded or is smaller than the primary one, and the primary one wherever else
/// it succeeded: a tie goes to the primary candidate, and the failure of one
/// candidate leaves the other. Where both failed, all failed.
pub proof fn lemma_selection_of_two(
    primary: Result<CompressedImageResult, String>,
    secondary: Result<CompressedImageResult, String>,
)
    ensures
        primary is Ok && secondary is Ok ==> is_selected(
            seq![primary, secondary],
            if encoded_len(secondary) < encoded_len(primary) {
                1
            } else {
                0
            },
        ),
        primary is Ok && secondary is Err ==> is_selected(seq![primary, secondary], 0),
        primary is Err && secondary is Ok ==> is_selected(seq![primary, secondary], 1),
        primary is Err && secondary is Err ==> all_failed(seq![primary, secondary]),
{
    let results = seq![primary, secondary];
    assert(results[0] == primary);
    assert(results[1] == secondary);
}

/// Pick the smallest of the candidates that succeeded, the earlier of two that are
/// equally small. If none succeeded, the error of the first candidate is the result.
///
/// The candidates are given in their order of priority, one result for each
/// candidate that ran, however their runs were scheduled. At least one ran.
pub fn select_smallest(results: Vec<Result<CompressedImageResult, String>>) -> (selected: Result<
    CompressedImageResult,
    String,
>)
    requires
        results@.len() > 0,
    ensures
        selected is Err <==> all_failed(results@),
        match selected {
            Ok(candidate) => exists|k: int|
                is_selected(results@, k) && results@[k] == Ok::<CompressedImageResult, String>(
                    candidate,
                ),
            Err(e) => all_failed(results@) && results@[0] == Err::<CompressedImageResult, String>(e),
        },
{
    let mut results = results;
    let ghost all = results@;
    let mut best: Option<usize> = None;
    let mut best_len: usize = 0;
    let mut i: usize = 0;
    while i < results.len()
        invariant
            results@ == all,
            i <= all.len(),
            match best {
                Some(k) => is_selected(all.take(i as int), k as int) && best_len == encoded_len(
                    all[k as int],
                ),
                None => all_failed(all.take(i as int)),
            },
        decreases all.len() - i,
    {
        let ghost seen = all.take(i as int);
        let ghost next = all.take(i + 1);
        assert(forall|j: int| 0 <= j < i ==> seen[j] == all[j] && next[j] == all[j]);
        assert(next[i as int] == all[i as int]);
        match &results[i] {
            Ok(candidate) => {
                let len: usize = candidate.data.len();
                match best {
                    Some(k) => {
                        if len < best_len {
                            best = Some(i);
                            best_len = len;
                            assert(is_selected(next, i as int));
                        } else {
                            assert(is_selected(next, k as int));
                        }
                    },
                    None => {
                        best = Some(i);
                        best_len = len;
                        assert(is_selected(next, i as int));
                    },
                }
            },
            Err(_) => {
                match best {
                    Some(k) => {
                        assert(is_selected(next, k as int));
                    },
                    None => {
                        assert(all_failed(next));
                    },
                }
            },
        }
        i = i + 1;
    }
    assert(all.take(all.len() as int) == all);
    match best {
        Some(k) => results.remove(k),
        None => results.remove(0),
    }
}

/// `r` is the stored form of an image of the given size, from what its candidates
/// made of it: the candidate that is selected among them, in that size, or
/// `AllCandidatesFailed` with the error of the first candidate where all failed.
pub open spec fn is_encode_result(
    size: (u32, u32),
    results: Seq<Result<CompressedImageResult, String>>,
    r: Result<EncodeResult, PipelineError>,
) -> bool {
    &&& r is Err <==> all_failed(results)
    &&& match r {
        Ok(encoded) => encoded.size == size && exists|k: int|
            is_selected(results, k) && results[k] == Ok::<CompressedImageResult, String>(
                CompressedImageResult { data: encoded.data, content_type: encoded.content_type },
            ),
        Err(e) => e matches PipelineError::AllCandidatesFailed(first) && results[0] == Err::<
            CompressedImageResult,
            String,
        >(first),
    }
}

/// The stored form of an image of the given size, from what its candidates made
/// of it: the smallest success, or `AllCandidatesFailed` with the error of the
/// first candidate where there is none.
pub fn encode_result(
    size: (u32, u32),
    results: Vec<Result<CompressedImageResult, String>>,
) -> (r: Result<EncodeResult, PipelineError>)
    requires
        results@.len() > 0,
    ensures
        is_encode_result(size, results@, r),
{
    match select_smallest(results) {
        Ok(selected) => Ok(
            EncodeResult { data: selected.data, size, content_type: selected.content_type },
        ),
        Err(e) => Err(PipelineError::AllCandidatesFailed(e)),
    }
}

/// What encoding an image of the given size under the given options comes to,
/// whatever the encoders answer.
///
/// An image that has to be scaled and cannot be on this machine fails with
/// `Resize`. Any other image is stored in its target size, as WebP or, where the
/// lossless candidate is enabled, as PNG, or fails with `AllCandidatesFailed`.
pub open spec fn is_encoding_of(
    r: Result<EncodeResult, PipelineError>,
    size: (u32, u32),
    opts: FromImageOptions,
) -> bool {
    if resize_fits(size, opts.max_size) {
        match r {
            Ok(encoded) => {
                &&& (encoded.size.0 as int, encoded.size.1 as int) == target_size(
                    size,
                    opts.max_size,
                )
                &&& encoded.content_type@ == WEBP_CONTENT_TYPE@ || (opts.optimize_png
                    && encoded.content_type@ == PNG_CONTENT_TYPE@)
                &&& encoded.data@.len() > 0
            },
            Err(e) => e is AllCandidatesFailed,
        }
    } else {
        r == Err::<EncodeResult, PipelineError>(PipelineError::Resize)
    }
}

/// `r` is what encoding the raster `original_im` under the options comes to by
/// way of the raster `im` and of the outcomes `results` of the candidates.
///
/// `im` is the raster in its target size, and the raster itself where it needs no
/// scaling. Every candidate that the options enable has run on `im`, and
/// `results` holds what each made of it, in their order of priority. `r` is the
/// stored form of their selection.
pub open spec fn is_encoding_run(
    r: Result<EncodeResult, PipelineError>,
    original_im: DynamicImage,
    opts: FromImageOptions,
    im: DynamicImage,
    results: Seq<Result<CompressedImageResult, String>>,
) -> bool {
    &&& (image_dimensions(im).0 as int, image_dimensions(im).1 as int) == target_size(
        image_dimensions(original_im),
        opts.max_size,
    )
    &&& !needs_resize(image_dimensions(original_im), opts.max_size) ==> im == original_im
    &&& results.len() == candidates_of(opts).len()
    &&& forall|j: int|
        0 <= j < results.len() ==> is_result_of(candidates_of(opts)[j], im, #[trigger] results[j])
    &&& is_encode_result(image_dimensions(im), results, r)
}

/// What encoding the raster `original_im` under the given options comes to,
/// whatever the encoders answer.
///
/// It is an encoding of an image of its size. Where the raster can be scaled, it
/// is chosen from what every enabled candidate made of the scaled raster: none of
/// them is left out.
pub open spec fn is_encoding_of_raster(
    r: Result<EncodeResult, PipelineError>,
    original_im: DynamicImage,
    opts: FromImageOptions,
) -> bool {
    &&& is_encoding_of(r, image_dimensions(original_im), opts)
    &&& resize_fits(image_dimensions(original_im), opts.max_size) ==> exists|
        im: DynamicImage,
        results: Seq<Result<CompressedImageResult, String>>,
    | is_encoding_run(r, original_im, opts, im, results)
}

/// Convert a dynamic image into an optimized image.
///
/// The image is scaled down to the limit of the options if it exceeds it. The
/// lossy candidate always runs on the result, the lossless one where the options
/// enable it, and the smallest output is kept, the lossy one if they are equal.
/// The size of the result is the size that was encoded.
///
/// The call fails with `Resize` exactly when the image has to be scaled and cannot
/// be on this machine, and otherwise only with `AllCandidatesFailed`, when no
/// candidate that ran succeeded. A failure of one candidate beside a success of
/// the other is no failure of the call.
pub fn from_image(original_im: DynamicImage, opts: FromImageOptions) -> (r: Result<
    EncodeResult,
    PipelineError,
>)
    ensures
        is_encoding_of_raster(r, original_im, opts),
{
    let (size, im) = match resize_image(original_im, &opts) {
        Ok(resized) => resized,
        Err(e) => return Err(e),
    };
    let candidates = enabled_candidates(&opts);
    let mut results: Vec<Result<CompressedImageResult, String>> = Vec::new();
    let mut n: usize = 0;
    while n < candidates.len()
        invariant
            n <= candidates@.len(),
            results@.len() == n,
            candidates@ == candidates_of(opts),
            forall|j: int|
                0 <= j < n ==> is_result_of(candidates@[j], im, #[trigger] results@[j]),
            forall|j: int|
                0 <= j < n ==> ((#[trigger] results@[j]) matches Ok(encoded)
                    ==> encoded.content_type@ == candidates@[j].content_type()@
                    && encoded.data@.len() > 0),
        decreases candidates@.len() - n,
    {
        results.push(encode_candidate(candidates[n], &im));
        n = n + 1;
    }
    let ghost outcomes = results@;
    let r = encode_result(size, results);
    proof {
        if r is Ok {
            let encoded = r->Ok_0;
            let k = choose|k: int|
                is_selected(outcomes, k) && outcomes[k] == Ok::<CompressedImageResult, String>(
                    CompressedImageResult {
                        data: encoded.data,
                        content_type: encoded.content_type,
                    },
                );
            assert(encoded.content_type@ == candidates@[k].content_type()@);
            assert(encoded.data@.len() > 0);
        }
        assert(is_encoding_run(r, original_im, opts, im, outcomes));
    }
    r
}

/// Encode an uploaded file, from what decoding its bytes came to.
///
/// The bytes are decoded once, as the format that the declared content type
/// resolves to, and no other format is tried. `decoded_image` is the decoder's
/// answer: the raster, or its account of why the bytes are no such image. Bytes
/// that did not decode fail the call with `Decode` and the text of `DECODE_ERROR`.
/// What decoded is encoded as `from_image` does it.
pub fn image_path_to_encoded(decoded_image: Result<DynamicImage, String>, opts: FromImageOptions) -> (r:
    Result<EncodeResult, PipelineError>)
    ensures
        match decoded_image {
            Ok(raster) => is_encoding_of_raster(r, raster, opts),
            Err(_) => r matches Err(PipelineError::Decode(message)) && message@ == DECODE_ERROR@,
        },
{
    match decoded_image {
        Ok(raster) => from_image(raster, opts),
        Err(_) => Err(PipelineError::Decode(DECODE_ERROR.to_owned())),
    }
}

} // verus!
