//! Decoding of an MP4 buffer into track records.
//!
//! The parsing itself is mp4parse's. `parse_outcome` names what it makes of
//! a buffer, and `context_tracks` what a container that it returns holds.
//! This module makes the call and reads the container, field by field, into
//! `RawTrack` records; each read says which part of the container it is.

use vstd::prelude::*;
use mp4parse::AudioCodecSpecific;
use mp4parse::SampleEntry;
use mp4parse::VideoCodecSpecific;
use crate::codec::AudioCodec;
use crate::codec::VideoCodec;
use crate::track::RawTrack;
use crate::track::SampleDescription;
use crate::track::TrackHeader;
use crate::track::TrackKind;

verus! {

/// mp4parse's parsed container. It is carried as it is; what is read from
/// it is read by the functions below.
#[verifier::external_type_specification]
#[verifier::external_body]
pub struct ExMediaContext(mp4parse::MediaContext);

/// Why a buffer could not be parsed as an MP4 container.
#[derive(Clone, Copy, Debug, PartialEq, Eq, Structural)]
pub enum ParseError {
    /// The data is corrupt or malformed.
    InvalidData,
    /// The data uses something that the parser does not support.
    Unsupported,
    /// The data ends before a box does.
    UnexpectedEOF,
    /// Reading the buffer failed.
    Io,
    /// The data holds no movie box.
    MoovMissing,
    /// The parser ran out of memory.
    OutOfMemory,
}

impl ParseError {
    /// Whether the error tells of memory that ran out, not of the data. A
    /// buffer in memory is read without fail, so `Io` tells of nothing else.
    pub open spec fn memory_ran_out(self) -> bool {
        self == ParseError::OutOfMemory || self == ParseError::Io
    }
}

/// The identifier and timing of a track, each part absent where the
/// container leaves it out.
struct Timing {
    track_id: Option<u32>,
    duration: Option<u64>,
    empty_duration: Option<u64>,
    media_time: Option<u64>,
    timescale: Option<u64>,
}

/// What a parsed container holds: the items of `MediaContext::tracks`, in
/// their order, each as the record of what this library reads from it.
///
/// The kind stands for the item's `track_type`. The identifier and the four
/// times are its `track_id`, `duration`, `empty_duration`, `media_time` and
/// `timescale`, a scaled time or a timescale taken as its count. The header
/// is its `tkhd`. The sample entry is the first item of the `descriptions`
/// of its `stsd`, with the sample rate in whole hertz.
pub uninterp spec fn context_tracks(context: mp4parse::MediaContext) -> Seq<RawTrack>;

/// What the parser makes of a buffer, memory permitting: the records of the
/// container that it finds there, or the kind of error that the data gives
/// rise to. It depends on the bytes alone.
pub uninterp spec fn parse_outcome(bytes: Seq<u8>) -> Result<Seq<RawTrack>, ParseError>;

/// The view of a decoding result.
pub open spec fn decoded_view(r: Result<Vec<RawTrack>, ParseError>) -> Result<
    Seq<RawTrack>,
    ParseError,
> {
    match r {
        Ok(raws) => Ok(raws@),
        Err(e) => Err(e),
    }
}

/// The dimensions of a video sample entry; none for any other entry.
pub open spec fn video_size_of(entry: Option<SampleDescription>) -> Option<(u16, u16)> {
    match entry {
        Some(SampleDescription::Video { width, height, .. }) => Some((width, height)),
        _ => None,
    }
}

/// The codec of a video sample entry; none for any other entry.
pub open spec fn video_codec_of(entry: Option<SampleDescription>) -> Option<VideoCodec> {
    match entry {
        Some(SampleDescription::Video { codec, .. }) => Some(codec),
        _ => None,
    }
}

/// The channel count, sample size and sample rate of an audio sample entry;
/// none for any other entry.
pub open spec fn audio_format_of(entry: Option<SampleDescription>) -> Option<(u32, u16, u32)> {
    match entry {
        Some(SampleDescription::Audio { channel_count, sample_size, sample_rate, .. }) => Some(
            (channel_count, sample_size, sample_rate),
        ),
        _ => None,
    }
}

/// The codec of an audio sample entry; none for any other entry.
pub open spec fn audio_codec_of(entry: Option<SampleDescription>) -> Option<AudioCodec> {
    match entry {
        Some(SampleDescription::Audio { codec, .. }) => Some(codec),
        _ => None,
    }
}

/// Calls `mp4parse::read_mp4` on a cursor over the whole buffer and tells
/// the variants of its error apart, dropping what they carry.
///
/// Trusted: the parser reads nothing but the buffer, so what it returns is
/// what `parse_outcome` names for these bytes: a container that holds those
/// records, or that kind of error. The one thing that the bytes do not
/// decide is whether memory suffices: where it does not, the parser fails
/// with `OutOfMemory`, or with `Io` from a read into memory that could not
/// be reserved, and of such a failure nothing is claimed.
#[verifier::external_body]
fn read_container(bytes: &Vec<u8>) -> (r: Result<mp4parse::MediaContext, ParseError>)
    ensures
        match r {
            Ok(context) => parse_outcome(bytes@) == Ok::<Seq<RawTrack>, ParseError>(
                context_tracks(context),
            ),
            Err(e) => e.memory_ran_out() || parse_outcome(bytes@) == Err::<
                Seq<RawTrack>,
                ParseError,
            >(e),
        },
{
    match mp4parse::read_mp4(&mut std::io::Cursor::new(bytes)) {
        Ok(context) => Ok(context),
        Err(mp4parse::Error::InvalidData(_)) => Err(ParseError::InvalidData),
        Err(mp4parse::Error::Unsupported(_)) => Err(ParseError::Unsupported),
        Err(mp4parse::Error::UnexpectedEOF) => Err(ParseError::UnexpectedEOF),
        Err(mp4parse::Error::Io(_)) => Err(ParseError::Io),
        Err(mp4parse::Error::MoovMissing) => Err(ParseError::MoovMissing),
        Err(mp4parse::Error::OutOfMemory) => Err(ParseError::OutOfMemory),
    }
}

/// Reads the length of `MediaContext::tracks`. Trusted: it is the number of
/// records that the container holds.
#[verifier::external_body]
fn count_tracks(context: &mp4parse::MediaContext) -> (n: usize)
    ensures
        n == context_tracks(*context).len(),
{
    context.tracks.len()
}

/// Tells the variants of `track_type` apart, for the item of
/// `MediaContext::tracks` at `index`. Trusted: the result is the kind of the
/// record at `index`.
#[verifier::external_body]
fn track_kind(context: &mp4parse::MediaContext, index: usize) -> (k: TrackKind)
    requires
        index < context_tracks(*context).len(),
    ensures
        k == context_tracks(*context)[index as int].kind,
{
    match context.tracks[index].track_type {
        mp4parse::TrackType::Video => TrackKind::Video,
        mp4parse::TrackType::Audio => TrackKind::Audio,
        mp4parse::TrackType::Picture => TrackKind::Picture,
        mp4parse::TrackType::AuxiliaryVideo => TrackKind::AuxiliaryVideo,
        mp4parse::TrackType::Metadata => TrackKind::Metadata,
        mp4parse::TrackType::Unknown => TrackKind::Unknown,
    }
}

/// Reads `track_id`, `duration`, `empty_duration`, `media_time` and
/// `timescale` of the item of `MediaContext::tracks` at `index`; of a scaled
/// time or a timescale, the count itself. Trusted: these are the identifier
/// and the times of the record at `index`.
#[verifier::external_body]
fn track_timing(context: &mp4parse::MediaContext, index: usize) -> (t: Timing)
    requires
        index < context_tracks(*context).len(),
    ensures
        t.track_id == context_tracks(*context)[index as int].track_id,
        t.duration == context_tracks(*context)[index as int].duration,
        t.empty_duration == context_tracks(*context)[index as int].empty_duration,
        t.media_time == context_tracks(*context)[index as int].media_time,
        t.timescale == context_tracks(*context)[index as int].timescale,
{
    let track = &context.tracks[index];
    Timing {
        track_id: track.track_id,
        duration: track.duration.map(|d| d.0),
        empty_duration: track.empty_duration.map(|d| d.0),
        media_time: track.media_time.map(|d| d.0),
        timescale: track.timescale.map(|d| d.0),
    }
}

/// Reads `disabled`, `duration`, `width` and `height` of the `tkhd` of the
/// item of `MediaContext::tracks` at `index`, where it has that box.
/// Trusted: the result is the header of the record at `index`.
#[verifier::external_body]
fn track_header(context: &mp4parse::MediaContext, index: usize) -> (h: Option<TrackHeader>)
    requires
        index < context_tracks(*context).len(),
    ensures
        h == context_tracks(*context)[index as int].header,
{
    match &context.tracks[index].tkhd {
        Some(h) => Some(
            TrackHeader { disabled: h.disabled, duration: h.duration, width: h.width, height: h.height },
        ),
        None => None,
    }
}

/// Looks whether the item of `MediaContext::tracks` at `index` has an `stsd`
/// whose `descriptions` have a first item. Trusted: that is so exactly where
/// the record at `index` has a sample entry.
#[verifier::external_body]
fn entry_present(context: &mp4parse::MediaContext, index: usize) -> (b: bool)
    requires
        index < context_tracks(*context).len(),
    ensures
        b == (context_tracks(*context)[index as int].sample_entry is Some),
{
    match &context.tracks[index].stsd {
        Some(stsd) => stsd.descriptions.first().is_some(),
        None => false,
    }
}

/// Reads `width` and `height` of the first sample entry of the item of
/// `MediaContext::tracks` at `index`, where that entry is a
/// `SampleEntry::Video`. Trusted: the result is the dimensions of the sample
/// entry of the record at `index`, where that is a video entry.
#[verifier::external_body]
fn video_size(context: &mp4parse::MediaContext, index: usize) -> (size: Option<(u16, u16)>)
    requires
        index < context_tracks(*context).len(),
    ensures
        size == video_size_of(context_tracks(*context)[index as int].sample_entry),
{
    match context.tracks[index].stsd.as_ref()?.descriptions.first()? {
        SampleEntry::Video(video) => Some((video.width, video.height)),
        _ => None,
    }
}

/// Tells the variants of `codec_specific` apart for the first sample entry
/// of the item of `MediaContext::tracks` at `index`, where that entry is a
/// `SampleEntry::Video`; of a `VPxConfigBox` it reads `bit_depth`,
/// `colour_primaries` and `chroma_subsampling`. Trusted: the result is the
/// codec of the sample entry of the record at `index`, where that is a video
/// entry.
#[verifier::external_body]
fn video_codec(context: &mp4parse::MediaContext, index: usize) -> (c: Option<VideoCodec>)
    requires
        index < context_tracks(*context).len(),
    ensures
        c == video_codec_of(context_tracks(*context)[index as int].sample_entry),
{
    match context.tracks[index].stsd.as_ref()?.descriptions.first()? {
        SampleEntry::Video(video) => Some(match &video.codec_specific {
            VideoCodecSpecific::AVCConfig(_) => VideoCodec::AVC,
            VideoCodecSpecific::AV1Config(_) => VideoCodec::AV1,
            VideoCodecSpecific::H263Config(_) => VideoCodec::H263,
            VideoCodecSpecific::ESDSConfig(_) => VideoCodec::MP4V,
            VideoCodecSpecific::VPxConfig(vpx) => VideoCodec::VPx {
                bit_depth: vpx.bit_depth,
                colour_primaries: vpx.colour_primaries,
                chroma_subsampling: vpx.chroma_subsampling,
            },
        }),
        _ => None,
    }
}

/// Reads `channelcount`, `samplesize` and `samplerate` of the first sample
/// entry of the item of `MediaContext::tracks` at `index`, where that entry
/// is a `SampleEntry::Audio`. The sample rate, which mp4parse holds as a
/// floating point number, is cast to whole hertz. Trusted: the result is the
/// format of the sample entry of the record at `index`, where that is an
/// audio entry.
#[verifier::external_body]
fn audio_format(context: &mp4parse::MediaContext, index: usize) -> (format: Option<(u32, u16, u32)>)
    requires
        index < context_tracks(*context).len(),
    ensures
        format == audio_format_of(context_tracks(*context)[index as int].sample_entry),
{
    match context.tracks[index].stsd.as_ref()?.descriptions.first()? {
        SampleEntry::Audio(audio) => Some(
            (audio.channelcount, audio.samplesize, audio.samplerate as u32),
        ),
        _ => None,
    }
}

/// Tells the variants of `codec_specific` apart for the first sample entry
/// of the item of `MediaContext::tracks` at `index`, where that entry is a
/// `SampleEntry::Audio`, and reads the fields that the codec variants of
/// this library hold; of a FLAC box, those of the first metadata block,
/// where there is one. Trusted: the result is the codec of the sample entry
/// of the record at `index`, where that is an audio entry.
#[verifier::external_body]
fn audio_codec(context: &mp4parse::MediaContext, index: usize) -> (c: Option<AudioCodec>)
    requires
        index < context_tracks(*context).len(),
    ensures
        c == audio_codec_of(context_tracks(*context)[index as int].sample_entry),
{
    match context.tracks[index].stsd.as_ref()?.descriptions.first()? {
        SampleEntry::Audio(audio) => Some(match &audio.codec_specific {
            AudioCodecSpecific::ES_Descriptor(es) => AudioCodec::ES { audio_sample_rate: es.audio_sample_rate, audio_object_type: es.audio_object_type },
            AudioCodecSpecific::FLACSpecificBox(flac) => AudioCodec::FLAC { block_type: flac.blocks.first().map(|b| b.block_type), block_data_length: flac.blocks.first().map(|b| b.data.len() as u64) },
            AudioCodecSpecific::OpusSpecificBox(opus) => AudioCodec::Opus { version: opus.version },
            AudioCodecSpecific::ALACSpecificBox(alac) => AudioCodec::ALAC { data_length: alac.data.len() as u64 },
            AudioCodecSpecific::MP3 => AudioCodec::MP3,
            AudioCodecSpecific::LPCM => AudioCodec::LPCM,
        }),
        _ => None,
    }
}

fn decode_entry(context: &mp4parse::MediaContext, index: usize) -> (e: Option<SampleDescription>)
    requires
        index < context_tracks(*context).len(),
    ensures
        e == context_tracks(*context)[index as int].sample_entry,
{
    match video_size(context, index) {
        Some((width, height)) => {
            let codec: VideoCodec = video_codec(context, index).unwrap();
            Some(SampleDescription::Video { width, height, codec })
        },
        None => match audio_format(context, index) {
            Some((channel_count, sample_size, sample_rate)) => {
                let codec: AudioCodec = audio_codec(context, index).unwrap();
                Some(SampleDescription::Audio { channel_count, sample_size, sample_rate, codec })
            },
            None => if entry_present(context, index) {
                Some(SampleDescription::Unknown)
            } else {
                None
            },
        },
    }
}

fn decode_track(context: &mp4parse::MediaContext, index: usize) -> (raw: RawTrack)
    requires
        index < context_tracks(*context).len(),
    ensures
        raw == context_tracks(*context)[index as int],
{
    let timing: Timing = track_timing(context, index);
    RawTrack {
        kind: track_kind(context, index),
        track_id: timing.track_id,
        duration: timing.duration,
        empty_duration: timing.empty_duration,
        media_time: timing.media_time,
        timescale: timing.timescale,
        header: track_header(context, index),
        sample_entry: decode_entry(context, index),
    }
}

/// Reads every record out of a parsed container, in container order.
fn records(context: &mp4parse::MediaContext) -> (raws: Vec<RawTrack>)
    ensures
        raws@ == context_tracks(*context),
{
    let count: usize = count_tracks(context);
    let mut raws: Vec<RawTrack> = Vec::new();
    let mut i: usize = 0;
    while i < count
        invariant
            i <= count,
            count == context_tracks(*context).len(),
            raws@ == context_tracks(*context).take(i as int),
        decreases count - i,
    {
        raws.push(decode_track(context, i));
        i = i + 1;
    }
    raws
}

/// Parses a whole MP4 file held in memory and returns one record per track,
/// in container order, or the reason why the buffer is no MP4 container.
///
/// The result is what the parser makes of exactly these bytes: the records
/// of the container found in them, or the kind of error that they give rise
/// to. Apart from that the call can only fail for want of memory.
pub fn decode(bytes: &Vec<u8>) -> (r: Result<Vec<RawTrack>, ParseError>)
    ensures
        r matches Ok(raws) ==> parse_outcome(bytes@) == Ok::<Seq<RawTrack>, ParseError>(raws@),
        r matches Err(e) ==> e.memory_ran_out() || parse_outcome(bytes@) == Err::<
            Seq<RawTrack>,
            ParseError,
        >(e),
{
    match read_container(bytes) {
        Err(e) => Err(e),
        Ok(context) => Ok(records(&context)),
    }
}

} // verus!
