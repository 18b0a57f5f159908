//! What the image store is asked, and what it holds.
//!
//! The store itself is a service outside this library. Here are the rows as the
//! pipeline reads them, the writes as it states them, and the decisions that lie
//! between one answer of the store and the next request to it.

use crate::error::PipelineError;
use crate::util::{generate_random_id, is_id_text, ImageId};
use vstd::prelude::*;

verus! {

/// The length of the id of an image.
pub const ID_LENGTH: usize = 5;

/// The level of an image that was just uploaded. Only images of this level are
/// swept, and a successful pass moves them up by one.
pub const FRESH_LEVEL: u8 = 0;

/// How long an image is kept that nobody looks at, unless a deployment sets
/// another time, in milliseconds: one year.
pub const RETENTION_MILLIS: i64 = 31_536_000_000;

/// An image as the store holds it.
#[derive(Clone, Debug, PartialEq, Eq)]
pub struct StoredImage {
    pub id: ImageId,
    pub data: Vec<u8>,
    pub content_type: String,
    pub thumbnail_data: Vec<u8>,
    pub thumbnail_content_type: String,
    pub width: u32,
    pub height: u32,
    /// How optimized the image is.
    pub optim_level: u8,
    /// When the image was uploaded, in milliseconds since the epoch.
    pub date: i64,
    /// When the image was last served, in milliseconds since the epoch.
    pub last_seen: i64,
}

/// The content of an image that is to be written to the store.
#[derive(Debug)]
pub struct NewImage<'a> {
    pub id: &'a ImageId,
    pub size: (u32, u32),
    /// How optimized the image is.
    /// 0 means the image was *just* uploaded with minimal optimization.
    pub optim_level: u8,
    pub data: &'a Vec<u8>,
    pub content_type: &'a str,
    pub thumbnail_data: &'a Vec<u8>,
    pub thumbnail_content_type: &'a str,
}

/// One write to the store: insert the image if its id is new, replace its content
/// and level otherwise. Either happens at once, for both variants or for neither.
#[derive(Clone, Debug, PartialEq, Eq)]
pub struct ImageUpdate {
    /// The id of the row to write.
    pub id: String,
    /// The upload date of the row, if the write creates it.
    pub date_on_insert: i64,
    /// The date the image was last seen, if the write creates the row.
    pub last_seen_on_insert: i64,
    pub data: Vec<u8>,
    pub content_type: String,
    pub width: u32,
    pub height: u32,
    pub thumbnail_data: Vec<u8>,
    pub thumbnail_content_type: String,
    pub optim_level: u8,
}

impl ImageUpdate {
    /// The row that the store holds under the id once it has carried out the
    /// write, given the row it held before, if any. This is also the row that the
    /// store hands back.
    ///
    /// The content and the level are those of the write. The two dates are those of
    /// the write on a new row, and stay as they were on an old one.
    pub open spec fn row_after(self, existing: Option<StoredImage>) -> StoredImage {
        StoredImage {
            id: ImageId(self.id),
            data: self.data,
            content_type: self.content_type,
            thumbnail_data: self.thumbnail_data,
            thumbnail_content_type: self.thumbnail_content_type,
            width: self.width,
            height: self.height,
            optim_level: self.optim_level,
            date: match existing {
                Some(row) => row.date,
                None => self.date_on_insert,
            },
            last_seen: match existing {
                Some(row) => row.last_seen,
                None => self.last_seen_on_insert,
            },
        }
    }
}

/// `update` is the write that stores `image` at the time `now`: it names the row
/// by the id of the image, carries its content, its size and its level, and dates a
/// new row at `now`.
pub open spec fn writes_image(update: ImageUpdate, image: NewImage<'_>, now: i64) -> bool {
    &&& update.id@ == image.id@
    &&& update.date_on_insert == now
    &&& update.last_seen_on_insert == now
    &&& update.data@ == image.data@
    &&& update.content_type@ == image.content_type@
    &&& update.width == image.size.0
    &&& update.height == image.size.1
    &&& update.thumbnail_data@ == image.thumbnail_data@
    &&& update.thumbnail_content_type@ == image.thumbnail_content_type@
    &&& update.optim_level == image.optim_level
}

/// Whether the store holds an image, from the number of rows that it counted
/// under the id.
pub fn check_image_exists(counted_documents: u64) -> (exists: bool)
    ensures
        exists == (counted_documents > 0),
{
    counted_documents > 0
}

/// Insert or update the content of an image: the write that stores `image`, made
/// at the time `now`.
pub fn insert_image(image: &NewImage<'_>, now: i64) -> (update: ImageUpdate)
    ensures
        writes_image(update, *image, now),
{
    let data = image.data.clone();
    let thumbnail_data = image.thumbnail_data.clone();
    assert(data@ =~= image.data@);
    assert(thumbnail_data@ =~= image.thumbnail_data@);
    ImageUpdate {
        id: image.id.to_string(),
        date_on_insert: now,
        last_seen_on_insert: now,
        data,
        content_type: image.content_type.to_owned(),
        width: image.size.0,
        height: image.size.1,
        thumbnail_data,
        thumbnail_content_type: image.thumbnail_content_type.to_owned(),
        optim_level: image.optim_level,
    }
}

/// An id that the search for a new id came up with: `ID_LENGTH` characters of the
/// id charset. Only the search makes one.
#[derive(Debug, PartialEq, Eq)]
pub struct IdCandidate {
    id: ImageId,
}

impl View for IdCandidate {
    type V = Seq<char>;

    closed spec fn view(&self) -> Seq<char> {
        self.id@
    }
}

impl IdCandidate {
    #[verifier::type_invariant]
    closed spec fn well_formed(self) -> bool {
        self.id@.len() == ID_LENGTH && is_id_text(self.id@)
    }

    /// The id to ask the store about.
    pub fn id(&self) -> (id: &ImageId)
        ensures
            id@ == self@,
            id@.len() == ID_LENGTH,
            is_id_text(id@),
    {
        proof {
            use_type_invariant(self);
        }
        &self.id
    }
}

/// What the store is asked, or told, while an id is looked for.
#[derive(Debug, PartialEq, Eq)]
pub enum IdSearch {
    /// Ask the store whether it holds this id.
    Check(IdCandidate),
    /// The search is over, with the id or with the store's error.
    Done(Result<ImageId, PipelineError>),
}

/// What the store answered about a candidate id.
#[derive(Debug, PartialEq, Eq)]
pub struct IdAnswer {
    pub candidate: IdCandidate,
    /// Whether the store holds the candidate, or why it could not say.
    pub exists: Result<bool, String>,
}

/// `step` is the step of the search that follows on `answer`.
///
/// With nothing answered yet, the step is to ask about a first candidate. A
/// candidate that the store does not hold is the id that was looked for. One that
/// it holds is dropped, and the step is to ask about another. An error of the
/// store ends the search.
pub open spec fn is_id_step(answer: Option<IdAnswer>, step: IdSearch) -> bool {
    match answer {
        Some(IdAnswer { candidate, exists: Ok(false) }) => step matches IdSearch::Done(Ok(id))
            && id@ == candidate@ && id@.len() == ID_LENGTH && is_id_text(id@),
        Some(IdAnswer { candidate, exists: Err(e) }) => step == IdSearch::Done(
            Err(PipelineError::StoreUnavailable(e)),
        ),
        _ => step is Check,
    }
}

/// `steps` are the steps of one search, in turn, against a store that holds the
/// ids `held` and answers every question: the first step follows on nothing, and
/// every later one on what the store said of the candidate of the step before it.
pub open spec fn is_id_search(held: Set<Seq<char>>, steps: Seq<IdSearch>) -> bool {
    &&& steps.len() > 0
    &&& is_id_step(None, steps[0])
    &&& forall|i: int|
        0 <= i < steps.len() - 1 ==> ((#[trigger] steps[i]) matches IdSearch::Check(candidate)
            && is_id_step(
            Some(IdAnswer { candidate, exists: Ok(held.contains(candidate@)) }),
            steps[i + 1],
        ))
}

/// A search ends on the first candidate that the store does not hold, whatever
/// candidates are drawn: the step after it is the last one and hands that
/// candidate out as the id. The store was asked once about every candidate up to
/// that one, and about none after it.
pub proof fn lemma_id_search_ends_on_first_free(
    held: Set<Seq<char>>,
    steps: Seq<IdSearch>,
    first_free: int,
)
    requires
        is_id_search(held, steps),
        0 <= first_free < steps.len() - 1,
        forall|i: int|
            0 <= i < first_free ==> ((#[trigger] steps[i]) matches IdSearch::Check(candidate)
                ==> held.contains(candidate@)),
        steps[first_free] matches IdSearch::Check(candidate) ==> !held.contains(candidate@),
    ensures
        forall|i: int| 0 <= i <= first_free ==> (#[trigger] steps[i]) is Check,
        steps.len() == first_free + 2,
        steps[first_free + 1] matches IdSearch::Done(Ok(id)) && id@ == steps[first_free]->Check_0@
            && !held.contains(id@) && id@.len() == ID_LENGTH && is_id_text(id@),
{
    assert(steps[first_free] is Check);
    if first_free + 1 < steps.len() - 1 {
        assert(steps[first_free + 1] is Check);
    }
}

/// A search that ends with an id ends with one that the store does not hold: the
/// last candidate that it asked about.
pub proof fn lemma_id_search_result_is_free(held: Set<Seq<char>>, steps: Seq<IdSearch>)
    requires
        is_id_search(held, steps),
        steps.last() matches IdSearch::Done(Ok(_)),
    ensures
        steps.len() >= 2,
        steps.last() matches IdSearch::Done(Ok(id)) && !held.contains(id@) && id@
            == steps[steps.len() - 2]->Check_0@ && id@.len() == ID_LENGTH && is_id_text(id@),
{
    if steps.len() >= 2 {
        assert(steps[steps.len() - 2] is Check);
    }
}

/// Generate a random non-duplicate image id, one step of it.
///
/// With nothing answered yet, the step is to ask about a first candidate. A
/// candidate that the store does not hold is the id that was looked for. One that
/// it holds is dropped, and the step is to ask about another. An error of the
/// store ends the search. The id that a search ends with is one that the store was
/// asked about and did not hold, of `ID_LENGTH` characters of the id charset.
pub fn generate_image_id(answer: Option<IdAnswer>) -> (step: IdSearch)
    ensures
        is_id_step(answer, step),
{
    match answer {
        Some(IdAnswer { candidate, exists: Ok(false) }) => {
            proof {
                use_type_invariant(&candidate);
            }
            IdSearch::Done(Ok(candidate.id))
        },
        Some(IdAnswer { candidate: _, exists: Err(e) }) => IdSearch::Done(
            Err(PipelineError::StoreUnavailable(e)),
        ),
        _ => IdSearch::Check(IdCandidate { id: generate_random_id(ID_LENGTH) }),
    }
}

/// The date before which an image must have been seen last to be deleted at the
/// time `now`, where images are kept for `retention_millis` after they were seen:
/// that much earlier than `now`. The date has to be one that the clock can tell.
pub fn expiry_cutoff(now: i64, retention_millis: i64) -> (cutoff: i64)
    requires
        i64::MIN <= now - retention_millis <= i64::MAX,
    ensures
        cutoff == now - retention_millis,
{
    now - retention_millis
}

} // verus!
