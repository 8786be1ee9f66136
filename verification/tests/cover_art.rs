use id3::TagLike;
use mp3_backend::cover_art::{embed_front_cover, image_read_failure, tag_write_response};

#[test]
fn embeds_front_cover_into_an_empty_tag() {
    let mut tag = id3::Tag::new();
    embed_front_cover(&mut tag, vec![0xFF, 0xD8, 0x12]);
    let pics: Vec<&id3::frame::Picture> = tag.pictures().collect();
    assert_eq!(pics.len(), 1);
    assert_eq!(pics[0].mime_type, "image/jpeg");
    assert_eq!(pics[0].picture_type, id3::frame::PictureType::CoverFront);
    assert_eq!(pics[0].description, "Cover Art");
    assert_eq!(pics[0].data, vec![0xFF, 0xD8, 0x12]);
}

#[test]
fn replaces_an_existing_front_cover() {
    let mut tag = id3::Tag::new();
    embed_front_cover(&mut tag, vec![1]);
    embed_front_cover(&mut tag, vec![2, 3]);
    let pics: Vec<&id3::frame::Picture> = tag.pictures().collect();
    assert_eq!(pics.len(), 1);
    assert_eq!(pics[0].data, vec![2, 3]);
}

#[test]
fn keeps_the_other_frames_of_the_tag() {
    let mut tag = id3::Tag::new();
    tag.set_title("Some Song");
    tag.set_artist("Some Artist");
    embed_front_cover(&mut tag, vec![9, 9]);
    assert_eq!(tag.title(), Some("Some Song"));
    assert_eq!(tag.artist(), Some("Some Artist"));
    assert_eq!(tag.pictures().count(), 1);
}

#[test]
fn keeps_a_back_cover_beside_the_new_front_cover() {
    let mut tag = id3::Tag::new();
    let back = id3::frame::Picture {
        mime_type: "image/png".to_string(),
        picture_type: id3::frame::PictureType::CoverBack,
        description: "Back".to_string(),
        data: vec![7],
    };
    tag.add_frame(id3::frame::Frame::with_content(
        "APIC",
        id3::frame::Content::Picture(back),
    ));
    embed_front_cover(&mut tag, vec![1, 2]);
    assert_eq!(tag.pictures().count(), 2);
    assert!(tag
        .pictures()
        .any(|p| p.picture_type == id3::frame::PictureType::CoverBack && p.data == vec![7]));
    assert!(tag
        .pictures()
        .any(|p| p.picture_type == id3::frame::PictureType::CoverFront && p.data == vec![1, 2]));
}

#[test]
fn image_read_failure_names_the_cause() {
    assert_eq!(
        image_read_failure("No such file or directory"),
        "Failed to read image file: No such file or directory".to_string()
    );
}

#[test]
fn tag_write_response_reports_the_mp3() {
    let r = tag_write_response("music/track.mp3", Ok(()));
    assert_eq!(
        r,
        Ok("Successfully added image to MP3 at music/track.mp3".to_string())
    );
}

#[test]
fn tag_write_response_reports_the_failure() {
    let r = tag_write_response("music/track.mp3", Err("no space left".to_string()));
    assert_eq!(r, Err("Failed to write ID3 tag: no space left".to_string()));
}
