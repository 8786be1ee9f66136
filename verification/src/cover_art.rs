//! Embedding cover art into an MP3's tag container.
//!
//! The tag container is an `id3::Tag`. Reading it from disk and writing it
//! back are I/O and happen outside this crate; the edit in between — adding a
//! front-cover picture frame with a fixed MIME type and description — is done
//! here. The tag itself is opaque to the verifier; its picture frames are
//! modelled by `tag_cover_art` and the remaining frames by `tag_other_frames`.

use id3::TagLike;
use vstd::prelude::*;

verus! {

#[verifier::external_type_specification]
#[verifier::external_body]
pub struct ExTag(id3::Tag);

/// The front-cover picture frames of the tag, in the order of its frame list,
/// each as (MIME type, description, image data).
pub uninterp spec fn tag_cover_art(t: id3::Tag) -> Seq<(Seq<char>, Seq<char>, Seq<u8>)>;

/// The frames of the tag that are not front-cover pictures, in the order of
/// its frame list, each under a fixed injective encoding into bytes.
pub uninterp spec fn tag_other_frames(t: id3::Tag) -> Seq<Seq<u8>>;

/// The front-cover frames after a new front cover `pic` is added: the first
/// existing front cover, if any, is replaced, and the new picture comes last.
pub open spec fn cover_art_after_add(
    before: Seq<(Seq<char>, Seq<char>, Seq<u8>)>,
    pic: (Seq<char>, Seq<char>, Seq<u8>),
) -> Seq<(Seq<char>, Seq<char>, Seq<u8>)> {
    if before.len() == 0 {
        seq![pic]
    } else {
        before.skip(1).push(pic)
    }
}

/// Relies on id3::TagLike::add_frame, handed a frame built by
/// id3::frame::Frame::with_content from an APIC picture with type
/// PictureType::CoverFront: frames conflict exactly when they are APIC
/// front-cover pictures, so the call removes the first existing front cover
/// (if any), appends the new picture frame, and leaves every other frame
/// unchanged in order.
#[verifier::external_body]
fn add_front_cover_frame(tag: &mut id3::Tag, mime: &str, description: &str, data: Vec<u8>)
    ensures
        tag_cover_art(*final(tag)) == cover_art_after_add(
            tag_cover_art(*old(tag)),
            (mime@, description@, data@),
        ),
        tag_other_frames(*final(tag)) == tag_other_frames(*old(tag)),
{
    let picture = id3::frame::Picture {
        mime_type: mime.to_string(),
        picture_type: id3::frame::PictureType::CoverFront,
        description: description.to_string(),
        data,
    };
    tag.add_frame(id3::frame::Frame::with_content("APIC", id3::frame::Content::Picture(picture)));
}

/// Embeds the given image bytes as the tag's front cover: a JPEG picture
/// frame described as "Cover Art" replaces any existing front cover, and no
/// other frame of the tag is touched.
pub fn embed_front_cover(tag: &mut id3::Tag, image_data: Vec<u8>)
    ensures
        tag_cover_art(*final(tag)) == cover_art_after_add(
            tag_cover_art(*old(tag)),
            ("image/jpeg"@, "Cover Art"@, image_data@),
        ),
        tag_other_frames(*final(tag)) == tag_other_frames(*old(tag)),
{
    add_front_cover_frame(tag, "image/jpeg", "Cover Art", image_data);
}

/// Error response when the image file could not be read.
pub fn image_read_failure(err: &str) -> (r: String)
    ensures
        r@ == "Failed to read image file: "@ + err@,
{
    String::from_str("Failed to read image file: ").concat(err)
}

/// Response once the edited tag has been written back: reports the MP3 that
/// now carries the image, or why the tag could not be written.
pub fn tag_write_response(mp3_path: &str, outcome: Result<(), String>) -> (r: Result<
    String,
    String,
>)
    ensures
        outcome matches Ok(_) ==> (r matches Ok(m) && m@ == "Successfully added image to MP3 at "@
            + mp3_path@),
        outcome matches Err(e) ==> (r matches Err(m) && m@ == "Failed to write ID3 tag: "@ + e@),
{
    match outcome {
        Ok(_) => Ok(String::from_str("Successfully added image to MP3 at ").concat(mp3_path)),
        Err(e) => Err(String::from_str("Failed to write ID3 tag: ").concat(e.as_str())),
    }
}

} // verus!
