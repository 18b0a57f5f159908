//! Useful things that aren't entirely specific to this project.

use crate::raster::{image_format_of, to_image_format};
use image::ImageFormat;
use rand::Rng;
use vstd::prelude::*;

verus! {

/// `String::push` appends the character to the end of the string.
pub assume_specification[ String::push ](s: &mut String, c: char)
    ensures
        final(s)@ == old(s)@.push(c),
;

/// Two string slices are equal when they hold the same characters.
pub assume_specification[ <str as PartialEq>::eq ](a: &str, b: &str) -> (r: bool)
    ensures
        r == (a@ == b@),
;

/// An index below `bound`, drawn by `rand::Rng::gen_range` from the generator that
/// `rand::thread_rng` hands out. `gen_range` panics on an empty range, so `bound`
/// must not be 0. Which index comes back is left open.
#[verifier::external_body]
fn random_index(bound: usize) -> (idx: usize)
    requires
        bound > 0,
    ensures
        idx < bound,
{
    rand::thread_rng().gen_range(0..bound)
}

/// Every character of `text` is one of the bytes of `charset`, read as a character.
pub open spec fn drawn_from(text: Seq<char>, charset: Seq<u8>) -> bool {
    forall|i: int|
        0 <= i < text.len() ==> exists|j: int|
            0 <= j < charset.len() && #[trigger] text[i] == #[trigger] charset[j] as char
}

/// Generate a random string of the given length using the given charset.
///
/// Nothing can be drawn from an empty charset, so a string of one character or more
/// needs a charset that is not empty.
pub fn generate_random_string(length: usize, charset: &[u8]) -> (random_string: String)
    requires
        length > 0 ==> charset@.len() > 0,
    ensures
        random_string@.len() == length,
        drawn_from(random_string@, charset@),
{
    let mut random_string = String::new();
    let mut n: usize = 0;
    while n < length
        invariant
            n <= length,
            length > 0 ==> charset@.len() > 0,
            random_string@.len() == n,
            drawn_from(random_string@, charset@),
        decreases length - n,
    {
        let idx: usize = random_index(charset.len());
        let ghost before = random_string@;
        random_string.push(charset[idx] as char);
        assert forall|i: int| 0 <= i < random_string@.len() implies exists|j: int|
            0 <= j < charset@.len() && #[trigger] random_string@[i] == #[trigger] charset@[j] as char by {
            if i < n {
                assert(random_string@[i] == before[i]);
            } else {
                assert(random_string@[i] == charset@[idx as int] as char);
            }
        }
        n = n + 1;
    }
    random_string
}

/// A randomly generated id of an image in the database
#[derive(Clone, Debug, PartialEq, Eq)]
pub struct ImageId(pub String);

impl View for ImageId {
    type V = Seq<char>;

    open spec fn view(&self) -> Seq<char> {
        self.0@
    }
}

impl ImageId {
    /// The id as text.
    pub fn to_string(&self) -> (text: String)
        ensures
            text@ == self@,
    {
        self.0.clone()
    }
}

/// The characters an id is made of: the consonants in both cases, the digits,
/// `-` and `_`.
pub const ID_CHARSET: &'static str = "bcdfghjklmnpqrstvwxyzBCDFGHJKLMNPQRSTVWXYZ0123456789-_";

/// Every character of `text` is one of `ID_CHARSET`.
pub open spec fn is_id_text(text: Seq<char>) -> bool {
    forall|i: int| 0 <= i < text.len() ==> ID_CHARSET@.contains(#[trigger] text[i])
}

/// Generate a random string meant to be used as an id.
pub fn generate_random_id(length: usize) -> (id: ImageId)
    ensures
        id@.len() == length,
        is_id_text(id@),
{
    proof {
        reveal_strlit("bcdfghjklmnpqrstvwxyzBCDFGHJKLMNPQRSTVWXYZ0123456789-_");
        assert(ID_CHARSET.is_ascii());
        vstd::string::is_ascii_spec_bytes(ID_CHARSET);
    }
    let charset = ID_CHARSET.as_bytes();
    let text = generate_random_string(length, charset);
    assert forall|i: int| 0 <= i < text@.len() implies ID_CHARSET@.contains(#[trigger] text@[i]) by {
        let j = choose|j: int| 0 <= j < charset@.len() && text@[i] == charset@[j] as char;
        assert(charset@[j] as char == ID_CHARSET@[j]);
    }
    ImageId(text)
}

/// The image formats a declared content type can stand for.
#[derive(Clone, Copy, Debug, PartialEq, Eq, Structural)]
pub enum DecoderFormat {
    Png,
    Jpeg,
    Gif,
    WebP,
    Pnm,
    Tiff,
    Tga,
    Dds,
    Bmp,
    Ico,
    Hdr,
    Farbfeld,
    Avif,
}

/// The format that a content type stands for. A content type that is not in the
/// table stands for JPEG.
pub open spec fn format_of(mimetype: Seq<char>) -> DecoderFormat {
    if mimetype == "image/png"@ {
        DecoderFormat::Png
    } else if mimetype == "image/jpeg"@ {
        DecoderFormat::Jpeg
    } else if mimetype == "image/gif"@ {
        DecoderFormat::Gif
    } else if mimetype == "image/webp"@ {
        DecoderFormat::WebP
    } else if mimetype == "image/pnm"@ {
        DecoderFormat::Pnm
    } else if mimetype == "image/tiff"@ {
        DecoderFormat::Tiff
    } else if mimetype == "image/tga"@ {
        DecoderFormat::Tga
    } else if mimetype == "image/dds"@ {
        DecoderFormat::Dds
    } else if mimetype == "image/bmp"@ {
        DecoderFormat::Bmp
    } else if mimetype == "image/ico"@ {
        DecoderFormat::Ico
    } else if mimetype == "image/hdr"@ {
        DecoderFormat::Hdr
    } else if mimetype == "image/farbfeld"@ {
        DecoderFormat::Farbfeld
    } else if mimetype == "image/avif"@ {
        DecoderFormat::Avif
    } else {
        DecoderFormat::Jpeg
    }
}

/// Resolve a string mime type to the format it declares, JPEG if it is not known.
///
/// An unknown content type is no error: some clients mislabel their uploads, and
/// it is the decoder that finds out.
pub fn resolve_format(mimetype: &str) -> (format: DecoderFormat)
    ensures
        format == format_of(mimetype@),
{
    if mimetype.eq("image/png") {
        DecoderFormat::Png
    } else if mimetype.eq("image/jpeg") {
        DecoderFormat::Jpeg
    } else if mimetype.eq("image/gif") {
        DecoderFormat::Gif
    } else if mimetype.eq("image/webp") {
        DecoderFormat::WebP
    } else if mimetype.eq("image/pnm") {
        DecoderFormat::Pnm
    } else if mimetype.eq("image/tiff") {
        DecoderFormat::Tiff
    } else if mimetype.eq("image/tga") {
        DecoderFormat::Tga
    } else if mimetype.eq("image/dds") {
        DecoderFormat::Dds
    } else if mimetype.eq("image/bmp") {
        DecoderFormat::Bmp
    } else if mimetype.eq("image/ico") {
        DecoderFormat::Ico
    } else if mimetype.eq("image/hdr") {
        DecoderFormat::Hdr
    } else if mimetype.eq("image/farbfeld") {
        DecoderFormat::Farbfeld
    } else if mimetype.eq("image/avif") {
        DecoderFormat::Avif
    } else {
        // anything else is taken for a JPEG; decoding shows whether it is one
        DecoderFormat::Jpeg
    }
}

/// Convert a string mime type to an `ImageFormat`, default to Jpeg if not found.
pub fn mimetype_to_format(mimetype: &str) -> (format: ImageFormat)
    ensures
        format == image_format_of(format_of(mimetype@)),
{
    to_image_format(resolve_format(mimetype))
}

} // verus!
