//! Classification of decoded track records by media category.

use vstd::prelude::*;
use crate::codec::AudioCodec;
use crate::codec::VideoCodec;

verus! {

/// The track type that a container declares for a track.
#[derive(Clone, Copy, Debug, PartialEq, Eq, Structural)]
pub enum TrackKind {
    Video,
    Audio,
    Picture,
    AuxiliaryVideo,
    Metadata,
    Unknown,
}

/// What a track's header box declares.
#[derive(Clone, Copy, Debug, PartialEq, Eq, Structural)]
pub struct TrackHeader {
    pub disabled: bool,
    pub duration: u64,
    pub width: u32,
    pub height: u32,
}

/// The first entry of a track's sample description.
#[allow(inconsistent_fields)]
#[derive(Clone, Copy, Debug, PartialEq, Eq)]
pub enum SampleDescription {
    Video { width: u16, height: u16, codec: VideoCodec },
    Audio { channel_count: u32, sample_size: u16, sample_rate: u32, codec: AudioCodec },
    /// An entry that describes neither video nor audio samples.
    Unknown,
}

/// One track as a container parser decoded it, before classification. Any
/// part may be missing, and the sample entry need not fit the declared kind.
#[derive(Clone, Copy, Debug, PartialEq, Eq)]
pub struct RawTrack {
    pub kind: TrackKind,
    pub track_id: Option<u32>,
    /// In units of the track's own timescale.
    pub duration: Option<u64>,
    /// The time before the first sample, in units of the movie's timescale.
    pub empty_duration: Option<u64>,
    /// In units of the track's own timescale.
    pub media_time: Option<u64>,
    /// Ticks per second.
    pub timescale: Option<u64>,
    pub header: Option<TrackHeader>,
    pub sample_entry: Option<SampleDescription>,
}

/// The media category of a classified track, with the attributes that are
/// inspected for it. The last four categories are recognised but not
/// inspected any further.
#[allow(inconsistent_fields)]
#[derive(Clone, Copy, Debug, PartialEq, Eq)]
pub enum Category {
    Video { width: u16, height: u16, codec: VideoCodec },
    Audio { channel_count: u32, sample_size: u16, sample_rate: u32, codec: AudioCodec },
    Picture,
    AuxiliaryVideo,
    Metadata,
    Unknown,
}

/// A classified track.
#[derive(Clone, Copy, Debug, PartialEq, Eq)]
pub struct ClassifiedTrack {
    pub track_id: Option<u32>,
    pub duration: Option<u64>,
    pub empty_duration: Option<u64>,
    pub media_time: Option<u64>,
    pub timescale: Option<u64>,
    pub header: Option<TrackHeader>,
    pub category: Category,
}

/// Why a video or audio track could not be classified.
#[derive(Clone, Copy, Debug, PartialEq, Eq, Structural)]
pub enum TrackError {
    /// The track has no sample entry of its declared kind.
    MissingSampleEntry,
    /// The track has no header.
    MissingTrackHeader,
}

/// A track that could not be classified: its declared kind and the reason.
#[derive(Clone, Copy, Debug, PartialEq, Eq, Structural)]
pub struct TrackFailure {
    pub kind: TrackKind,
    pub error: TrackError,
}

impl Category {
    /// The track kind that the category stands for.
    pub open spec fn kind(self) -> TrackKind {
        match self {
            Category::Video { .. } => TrackKind::Video,
            Category::Audio { .. } => TrackKind::Audio,
            Category::Picture => TrackKind::Picture,
            Category::AuxiliaryVideo => TrackKind::AuxiliaryVideo,
            Category::Metadata => TrackKind::Metadata,
            Category::Unknown => TrackKind::Unknown,
        }
    }

    /// The track kind that the category stands for.
    pub fn track_kind(&self) -> (k: TrackKind)
        ensures
            k == self.kind(),
    {
        match self {
            Category::Video { .. } => TrackKind::Video,
            Category::Audio { .. } => TrackKind::Audio,
            Category::Picture => TrackKind::Picture,
            Category::AuxiliaryVideo => TrackKind::AuxiliaryVideo,
            Category::Metadata => TrackKind::Metadata,
            Category::Unknown => TrackKind::Unknown,
        }
    }
}

impl TrackKind {
    /// Whether tracks of this kind are inspected in depth, and so must have a
    /// header and a sample entry of their kind.
    pub open spec fn inspected(self) -> bool {
        self == TrackKind::Video || self == TrackKind::Audio
    }
}

impl ClassifiedTrack {
    /// A video or audio track always has its header.
    pub open spec fn wf(self) -> bool {
        self.category.kind().inspected() ==> self.header is Some
    }
}

impl RawTrack {
    /// The category that the record's sample entry gives for its declared
    /// kind: for video and audio only an entry of the same kind gives one;
    /// the other kinds need no entry.
    pub open spec fn category(self) -> Option<Category> {
        match self.kind {
            TrackKind::Video => match self.sample_entry {
                Some(SampleDescription::Video { width, height, codec }) => Some(
                    Category::Video { width, height, codec },
                ),
                _ => None,
            },
            TrackKind::Audio => match self.sample_entry {
                Some(SampleDescription::Audio { channel_count, sample_size, sample_rate, codec }) => Some(
                    Category::Audio { channel_count, sample_size, sample_rate, codec },
                ),
                _ => None,
            },
            TrackKind::Picture => Some(Category::Picture),
            TrackKind::AuxiliaryVideo => Some(Category::AuxiliaryVideo),
            TrackKind::Metadata => Some(Category::Metadata),
            TrackKind::Unknown => Some(Category::Unknown),
        }
    }

    /// The outcome of classifying the record. A video or audio record without
    /// a header fails with `MissingTrackHeader`; one with a header but
    /// without a sample entry of its kind fails with `MissingSampleEntry`.
    /// Every other record yields a track that carries the record's timing and
    /// header unchanged.
    pub open spec fn classified(self) -> Result<ClassifiedTrack, TrackFailure> {
        if self.kind.inspected() && self.header is None {
            Err(TrackFailure { kind: self.kind, error: TrackError::MissingTrackHeader })
        } else {
            match self.category() {
                None => Err(
                    TrackFailure { kind: self.kind, error: TrackError::MissingSampleEntry },
                ),
                Some(category) => Ok(
                    ClassifiedTrack {
                        track_id: self.track_id,
                        duration: self.duration,
                        empty_duration: self.empty_duration,
                        media_time: self.media_time,
                        timescale: self.timescale,
                        header: self.header,
                        category,
                    },
                ),
            }
        }
    }
}

/// The declared kind of a classification outcome.
pub open spec fn outcome_kind(outcome: Result<ClassifiedTrack, TrackFailure>) -> TrackKind {
    match outcome {
        Ok(t) => t.category.kind(),
        Err(f) => f.kind,
    }
}

fn is_inspected(kind: TrackKind) -> (b: bool)
    ensures
        b == kind.inspected(),
{
    match kind {
        TrackKind::Video => true,
        TrackKind::Audio => true,
        _ => false,
    }
}

fn category_of(raw: &RawTrack) -> (c: Option<Category>)
    ensures
        c == raw.category(),
{
    match raw.kind {
        TrackKind::Video => match raw.sample_entry {
            Some(SampleDescription::Video { width, height, codec }) => Some(
                Category::Video { width, height, codec },
            ),
            _ => None,
        },
        TrackKind::Audio => match raw.sample_entry {
            Some(SampleDescription::Audio { channel_count, sample_size, sample_rate, codec }) => Some(
                Category::Audio { channel_count, sample_size, sample_rate, codec },
            ),
            _ => None,
        },
        TrackKind::Picture => Some(Category::Picture),
        TrackKind::AuxiliaryVideo => Some(Category::AuxiliaryVideo),
        TrackKind::Metadata => Some(Category::Metadata),
        TrackKind::Unknown => Some(Category::Unknown),
    }
}

/// Classifies one decoded track record.
///
/// The declared kind selects the category. A video or audio record must have
/// a header and a sample entry of its own kind; the header is looked for
/// first. Records of the other kinds always classify, with no attributes
/// extracted beyond the timing and the header, if there is one.
pub fn classify(raw: &RawTrack) -> (r: Result<ClassifiedTrack, TrackFailure>)
    ensures
        r == raw.classified(),
        r is Ok <==> (raw.kind.inspected() ==> raw.header is Some && raw.category() is Some),
        r matches Err(f) ==> f.kind == raw.kind,
        r matches Err(f) ==> (f.error == TrackError::MissingTrackHeader <==> raw.header is None),
        r matches Err(f) ==> (f.error == TrackError::MissingSampleEntry <==> raw.header is Some),
        r matches Ok(t) ==> t.wf() && t.category.kind() == raw.kind,
{
    if is_inspected(raw.kind) && raw.header.is_none() {
        return Err(TrackFailure { kind: raw.kind, error: TrackError::MissingTrackHeader });
    }
    match category_of(raw) {
        None => Err(TrackFailure { kind: raw.kind, error: TrackError::MissingSampleEntry }),
        Some(category) => Ok(
            ClassifiedTrack {
                track_id: raw.track_id,
                duration: raw.duration,
                empty_duration: raw.empty_duration,
                media_time: raw.media_time,
                timescale: raw.timescale,
                header: raw.header,
                category,
            },
        ),
    }
}

/// The outcomes of classifying each record of a list, in order.
pub open spec fn classified_all(raws: Seq<RawTrack>) -> Seq<Result<ClassifiedTrack, TrackFailure>> {
    raws.map_values(|raw: RawTrack| raw.classified())
}

/// Classifies every record of a container, in container order. A record that
/// fails does not stop the ones after it.
pub fn classify_all(raws: &Vec<RawTrack>) -> (r: Vec<Result<ClassifiedTrack, TrackFailure>>)
    ensures
        r@ == classified_all(raws@),
{
    let mut r: Vec<Result<ClassifiedTrack, TrackFailure>> = Vec::new();
    let mut i: usize = 0;
    while i < raws.len()
        invariant
            i <= raws.len(),
            r@ == classified_all(raws@.take(i as int)),
        decreases raws.len() - i,
    {
        r.push(classify(&raws[i]));
        i = i + 1;
    }
    r
}

/// Every track that classification yields is well formed, of the kind its
/// record declared, and every failure names that kind.
pub proof fn lemma_classified_kind(raw: RawTrack)
    ensures
        outcome_kind(raw.classified()) == raw.kind,
        raw.classified() matches Ok(t) ==> t.wf(),
{
}

} // verus!
