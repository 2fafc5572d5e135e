use mpn::codec::{AudioCodec, ExtensionField, VideoCodec};

fn field(name: &str, value: Option<u64>) -> ExtensionField {
    ExtensionField { name: String::from(name), value }
}

#[test]
fn video_codec_names() {
    assert_eq!(VideoCodec::AVC.name(), "AVC");
    assert_eq!(VideoCodec::AV1.name(), "AV1");
    assert_eq!(VideoCodec::H263.name(), "H263");
    assert_eq!(VideoCodec::MP4V.name(), "MP4V");
    let vpx = VideoCodec::VPx { bit_depth: 8, colour_primaries: 1, chroma_subsampling: 1 };
    assert_eq!(vpx.name(), "VPx");
}

#[test]
fn audio_codec_names() {
    assert_eq!(AudioCodec::ES { audio_sample_rate: None, audio_object_type: None }.name(), "ES");
    assert_eq!(AudioCodec::FLAC { block_type: None, block_data_length: None }.name(), "FLAC");
    assert_eq!(AudioCodec::Opus { version: 0 }.name(), "Opus");
    assert_eq!(AudioCodec::ALAC { data_length: 24 }.name(), "ALAC");
    assert_eq!(AudioCodec::MP3.name(), "MP3");
    assert_eq!(AudioCodec::LPCM.name(), "LPCM");
}

#[test]
fn vpx_has_exactly_three_extension_fields() {
    let vpx = VideoCodec::VPx { bit_depth: 10, colour_primaries: 9, chroma_subsampling: 2 };
    assert_eq!(
        vpx.extension_fields(),
        vec![
            field("vpx.bit_depth", Some(10)),
            field("vpx.colour_primaries", Some(9)),
            field("vpx.chroma_subsampling", Some(2)),
        ]
    );
}

#[test]
fn vpx_field_count_does_not_depend_on_values() {
    let low = VideoCodec::VPx { bit_depth: 0, colour_primaries: 0, chroma_subsampling: 0 };
    let high = VideoCodec::VPx { bit_depth: 255, colour_primaries: 255, chroma_subsampling: 255 };
    assert_eq!(low.extension_fields().len(), 3);
    assert_eq!(high.extension_fields().len(), 3);
    assert_eq!(high.extension_fields()[0].value, Some(255));
}

#[test]
fn avc_has_no_extension_fields() {
    assert_eq!(VideoCodec::AVC.extension_fields(), vec![]);
}

#[test]
fn other_video_codecs_have_no_extension_fields() {
    assert!(VideoCodec::AV1.extension_fields().is_empty());
    assert!(VideoCodec::H263.extension_fields().is_empty());
    assert!(VideoCodec::MP4V.extension_fields().is_empty());
}

#[test]
fn es_fields_in_order() {
    let es = AudioCodec::ES { audio_sample_rate: Some(48000), audio_object_type: Some(2) };
    assert_eq!(
        es.extension_fields(),
        vec![field("esds.audio_sample_rate", Some(48000)), field("esds.audio_object_type", Some(2))]
    );
}

#[test]
fn es_fields_that_are_missing_stay_absent() {
    let es = AudioCodec::ES { audio_sample_rate: None, audio_object_type: Some(2) };
    assert_eq!(
        es.extension_fields(),
        vec![field("esds.audio_sample_rate", None), field("esds.audio_object_type", Some(2))]
    );
}

#[test]
fn flac_fields_in_order() {
    let flac = AudioCodec::FLAC { block_type: Some(0), block_data_length: Some(34) };
    assert_eq!(
        flac.extension_fields(),
        vec![field("flac.blocks[0].block_type", Some(0)), field("flac.blocks[0].data.len()", Some(34))]
    );
}

#[test]
fn opus_and_alac_fields() {
    assert_eq!(AudioCodec::Opus { version: 1 }.extension_fields(), vec![field("opus.version", Some(1))]);
    assert_eq!(
        AudioCodec::ALAC { data_length: 48 }.extension_fields(),
        vec![field("alac.data.len()", Some(48))]
    );
}

#[test]
fn mp3_and_lpcm_have_no_extension_fields() {
    assert!(AudioCodec::MP3.extension_fields().is_empty());
    assert!(AudioCodec::LPCM.extension_fields().is_empty());
}

#[test]
fn extension_fields_are_the_same_on_every_call() {
    let vpx = VideoCodec::VPx { bit_depth: 8, colour_primaries: 2, chroma_subsampling: 3 };
    assert_eq!(vpx.extension_fields(), vpx.extension_fields());
}
