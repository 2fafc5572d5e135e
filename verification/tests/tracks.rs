use mpn::codec::{AudioCodec, VideoCodec};
use mpn::track::{
    classify, classify_all, Category, RawTrack, SampleDescription, ClassifiedTrack, TrackError,
    TrackFailure, TrackHeader, TrackKind,
};

fn header() -> TrackHeader {
    TrackHeader { disabled: false, duration: 30000, width: 55967744, height: 31457280 }
}

fn video_entry() -> SampleDescription {
    SampleDescription::Video { width: 854, height: 480, codec: VideoCodec::AVC }
}

fn audio_entry() -> SampleDescription {
    SampleDescription::Audio {
        channel_count: 2,
        sample_size: 16,
        sample_rate: 48000,
        codec: AudioCodec::MP3,
    }
}

fn raw(kind: TrackKind, header: Option<TrackHeader>, entry: Option<SampleDescription>) -> RawTrack {
    RawTrack {
        kind,
        track_id: Some(1),
        duration: Some(900),
        empty_duration: Some(0),
        media_time: None,
        timescale: Some(30),
        header,
        sample_entry: entry,
    }
}

fn failure(kind: TrackKind, error: TrackError) -> Result<ClassifiedTrack, TrackFailure> {
    Err(TrackFailure { kind, error })
}

#[test]
fn video_record_classifies_as_video() {
    let r = classify(&raw(TrackKind::Video, Some(header()), Some(video_entry())));
    assert_eq!(
        r,
        Ok(ClassifiedTrack {
            track_id: Some(1),
            duration: Some(900),
            empty_duration: Some(0),
            media_time: None,
            timescale: Some(30),
            header: Some(header()),
            category: Category::Video { width: 854, height: 480, codec: VideoCodec::AVC },
        })
    );
}

#[test]
fn audio_record_classifies_as_audio() {
    let r = classify(&raw(TrackKind::Audio, Some(header()), Some(audio_entry()))).unwrap();
    assert_eq!(
        r.category,
        Category::Audio { channel_count: 2, sample_size: 16, sample_rate: 48000, codec: AudioCodec::MP3 }
    );
    assert_eq!(r.category.track_kind(), TrackKind::Audio);
}

#[test]
fn video_without_header_is_missing_track_header() {
    let r = classify(&raw(TrackKind::Video, None, Some(video_entry())));
    assert_eq!(r, failure(TrackKind::Video, TrackError::MissingTrackHeader));
}

#[test]
fn audio_without_header_is_missing_track_header() {
    let r = classify(&raw(TrackKind::Audio, None, Some(audio_entry())));
    assert_eq!(r, failure(TrackKind::Audio, TrackError::MissingTrackHeader));
}

#[test]
fn header_is_looked_for_before_the_sample_entry() {
    let r = classify(&raw(TrackKind::Video, None, None));
    assert_eq!(r, failure(TrackKind::Video, TrackError::MissingTrackHeader));
}

#[test]
fn video_without_sample_entry_is_missing_sample_entry() {
    let r = classify(&raw(TrackKind::Video, Some(header()), None));
    assert_eq!(r, failure(TrackKind::Video, TrackError::MissingSampleEntry));
}

#[test]
fn video_with_audio_entry_is_missing_sample_entry() {
    let r = classify(&raw(TrackKind::Video, Some(header()), Some(audio_entry())));
    assert_eq!(r, failure(TrackKind::Video, TrackError::MissingSampleEntry));
}

#[test]
fn audio_with_video_entry_is_missing_sample_entry() {
    let r = classify(&raw(TrackKind::Audio, Some(header()), Some(video_entry())));
    assert_eq!(r, failure(TrackKind::Audio, TrackError::MissingSampleEntry));
}

#[test]
fn audio_with_unknown_entry_is_missing_sample_entry() {
    let r = classify(&raw(TrackKind::Audio, Some(header()), Some(SampleDescription::Unknown)));
    assert_eq!(r, failure(TrackKind::Audio, TrackError::MissingSampleEntry));
}

#[test]
fn unsupported_kinds_classify_without_header_or_entry() {
    let kinds = vec![
        (TrackKind::Picture, Category::Picture),
        (TrackKind::AuxiliaryVideo, Category::AuxiliaryVideo),
        (TrackKind::Metadata, Category::Metadata),
        (TrackKind::Unknown, Category::Unknown),
    ];
    for (kind, category) in kinds {
        let r = classify(&raw(kind, None, None)).unwrap();
        assert_eq!(r.category, category);
        assert_eq!(r.header, None);
        assert_eq!(r.track_id, Some(1));
    }
}

#[test]
fn unsupported_kind_keeps_header_and_ignores_entry() {
    let r = classify(&raw(TrackKind::Picture, Some(header()), Some(video_entry()))).unwrap();
    assert_eq!(r.category, Category::Picture);
    assert_eq!(r.header, Some(header()));
}

#[test]
fn absent_track_id_stays_absent() {
    let mut record = raw(TrackKind::Video, Some(header()), Some(video_entry()));
    record.track_id = None;
    let r = classify(&record).unwrap();
    assert_eq!(r.track_id, None);
    record.track_id = Some(0);
    assert_eq!(classify(&record).unwrap().track_id, Some(0));
}

#[test]
fn classified_video_and_audio_tracks_have_their_header() {
    let records = vec![
        raw(TrackKind::Video, Some(header()), Some(video_entry())),
        raw(TrackKind::Audio, Some(header()), Some(audio_entry())),
        raw(TrackKind::Video, None, Some(video_entry())),
        raw(TrackKind::Audio, Some(header()), None),
    ];
    for record in records {
        if let Ok(track) = classify(&record) {
            assert!(track.header.is_some());
            assert_eq!(track.category.track_kind(), record.kind);
        }
    }
}

#[test]
fn a_failed_record_does_not_stop_the_ones_after_it() {
    let records = vec![
        raw(TrackKind::Video, None, None),
        raw(TrackKind::Audio, Some(header()), Some(audio_entry())),
        raw(TrackKind::Metadata, None, None),
    ];
    let r = classify_all(&records);
    assert_eq!(r.len(), 3);
    assert_eq!(r[0], failure(TrackKind::Video, TrackError::MissingTrackHeader));
    assert_eq!(r[1], classify(&records[1]));
    assert!(r[1].is_ok());
    assert_eq!(r[2].unwrap().category, Category::Metadata);
}

#[test]
fn no_records_give_no_tracks() {
    assert_eq!(classify_all(&Vec::new()), Vec::new());
}
