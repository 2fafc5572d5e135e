use mpn::media::{FileTimes, Media};

#[test]
fn media_holds_what_it_was_made_with() {
    let times = FileTimes { created: Some(1), modified: Some(2), accessed: None };
    let m = Media::new(String::from("a.mp4"), 77, times);
    assert_eq!(m.filename, "a.mp4");
    assert_eq!(m.size, 77);
    assert_eq!(m.creation_time, Some(1));
    assert_eq!(m.last_modified_time, Some(2));
    assert_eq!(m.last_accessed_time, None);
}

#[test]
fn preview_starts_as_zero_bytes() {
    let times = FileTimes { created: None, modified: None, accessed: None };
    let m = Media::new(String::from("a.mp4"), 0, times);
    assert_eq!(m.preview.len(), 256);
    assert!(m.preview.iter().all(|b| *b == 0));
    assert_eq!(m.debug_string(), "0");
}

#[test]
fn debug_string_is_first_preview_byte() {
    let times = FileTimes { created: None, modified: None, accessed: None };
    let mut m = Media::new(String::from("a.mp4"), 0, times);
    m.preview[0] = 102;
    m.preview[1] = 7;
    assert_eq!(m.debug_string(), "102");
}
