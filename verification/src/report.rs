//! The report: an ordered sequence of titled sections of key/value fields,
//! and its line-oriented text.

use vstd::prelude::*;
use vstd::string::StringExecFns;
use crate::codec::ExtensionField;
use crate::codec::fields_view;
use crate::codec::widen32;
use crate::media::Media;
use crate::media::MediaView;
use crate::text::bool_string;
use crate::text::bool_text;
use crate::text::decimal;
use crate::text::decimal_string;
use crate::text::optional_decimal;
use crate::text::optional_decimal_string;
use crate::text::quote;
use crate::text::quoted;
use crate::timestamp::timestamp_string;
use crate::timestamp::timestamp_text;
use crate::track::Category;
use crate::track::ClassifiedTrack;
use crate::track::TrackError;
use crate::track::TrackFailure;
use crate::track::TrackHeader;
use crate::track::TrackKind;
use crate::track::outcome_kind;

verus! {

/// One line of a section: a field name and its rendered value.
#[derive(Clone, Debug, PartialEq, Eq)]
pub struct Field {
    pub key: String,
    pub value: String,
}

impl View for Field {
    type V = (Seq<char>, Seq<char>);

    open spec fn view(&self) -> (Seq<char>, Seq<char>) {
        (self.key@, self.value@)
    }
}

/// A titled group of fields, in the order in which they are shown.
#[derive(Clone, Debug, PartialEq, Eq)]
pub struct ReportSection {
    pub title: String,
    pub fields: Vec<Field>,
}

/// The mathematical content of a section.
pub ghost struct SectionView {
    pub title: Seq<char>,
    pub fields: Seq<(Seq<char>, Seq<char>)>,
}

/// The views of a list of fields, in order.
pub open spec fn field_views(fields: Seq<Field>) -> Seq<(Seq<char>, Seq<char>)> {
    fields.map_values(|f: Field| f@)
}

impl View for ReportSection {
    type V = SectionView;

    open spec fn view(&self) -> SectionView {
        SectionView { title: self.title@, fields: field_views(self.fields@) }
    }
}

/// The views of a list of sections, in order.
pub open spec fn section_views(sections: Seq<ReportSection>) -> Seq<SectionView> {
    sections.map_values(|s: ReportSection| s@)
}

/// The section that describes the file itself.
pub open spec fn file_section_of(media: MediaView) -> SectionView {
    SectionView {
        title: "media"@,
        fields: seq![
            ("uri"@, quote(media.filename)),
            ("bytes"@, decimal(media.size as nat)),
            ("modified"@, timestamp_text(media.last_modified_time)),
            ("created"@, timestamp_text(media.creation_time)),
            ("accessed"@, timestamp_text(media.last_accessed_time)),
        ],
    }
}

/// The title of the leading section of a track of the given kind.
pub open spec fn kind_title(kind: TrackKind) -> Seq<char> {
    match kind {
        TrackKind::Video => "media.track.video"@,
        TrackKind::Audio => "media.track.audio"@,
        TrackKind::Picture => "media.track.picture"@,
        TrackKind::AuxiliaryVideo => "media.track.auxiliaryvideo"@,
        TrackKind::Metadata => "media.track.metadata"@,
        TrackKind::Unknown => "media.track.unknown"@,
    }
}

/// The title of a track's header section.
pub open spec fn header_title(kind: TrackKind) -> Seq<char> {
    kind_title(kind) + ".header"@
}

/// The title of a track's sample entry section.
pub open spec fn entry_title(kind: TrackKind) -> Seq<char> {
    kind_title(kind) + ".sample.entry"@
}

/// The title of a track's codec section.
pub open spec fn codec_title(kind: TrackKind) -> Seq<char> {
    kind_title(kind) + ".codec"@
}

/// The leading section of an inspected track: its identifier and timing.
pub open spec fn timing_section_of(kind: TrackKind, track: ClassifiedTrack) -> SectionView {
    SectionView {
        title: kind_title(kind),
        fields: seq![
            ("track_id"@, optional_decimal(widen32(track.track_id))),
            ("duration"@, optional_decimal(track.duration)),
            ("empty_duration"@, optional_decimal(track.empty_duration)),
            ("media_time"@, optional_decimal(track.media_time)),
            ("timescale"@, optional_decimal(track.timescale)),
        ],
    }
}

/// The section of what a track's header declares.
pub open spec fn header_section_of(kind: TrackKind, header: TrackHeader) -> SectionView {
    SectionView {
        title: header_title(kind),
        fields: seq![
            ("disabled"@, bool_text(header.disabled)),
            ("duration"@, decimal(header.duration as nat)),
            ("width"@, decimal(header.width as nat)),
            ("height"@, decimal(header.height as nat)),
        ],
    }
}

/// The section of the dimensions that a video sample entry declares.
pub open spec fn video_entry_section_of(width: u16, height: u16) -> SectionView {
    SectionView {
        title: entry_title(TrackKind::Video),
        fields: seq![("width"@, decimal(width as nat)), ("height"@, decimal(height as nat))],
    }
}

/// The section of the format that an audio sample entry declares.
pub open spec fn audio_entry_section_of(
    channel_count: u32,
    sample_size: u16,
    sample_rate: u32,
) -> SectionView {
    SectionView {
        title: entry_title(TrackKind::Audio),
        fields: seq![
            ("channelcount"@, decimal(channel_count as nat)),
            ("samplesize"@, decimal(sample_size as nat)),
            ("samplerate"@, decimal(sample_rate as nat)),
        ],
    }
}

/// An extension field as a section line.
pub open spec fn extension_line(f: (Seq<char>, Option<u64>)) -> (Seq<char>, Seq<char>) {
    (f.0, optional_decimal(f.1))
}

/// The codec section: the codec's name, then its extension fields in their
/// own order.
pub open spec fn codec_section_of(
    kind: TrackKind,
    name: Seq<char>,
    extension: Seq<(Seq<char>, Option<u64>)>,
) -> SectionView {
    SectionView {
        title: codec_title(kind),
        fields: seq![("codec_name"@, quote(name))] + extension.map_values(
            |f: (Seq<char>, Option<u64>)| extension_line(f),
        ),
    }
}

/// A section that holds nothing but a notice, under the key `error`.
pub open spec fn notice_section_of(kind: TrackKind, notice: Seq<char>) -> SectionView {
    SectionView { title: kind_title(kind), fields: seq![("error"@, quote(notice))] }
}

/// The notice for a track that could not be classified.
pub open spec fn failure_notice(error: TrackError) -> Seq<char> {
    match error {
        TrackError::MissingTrackHeader => "TrackHeaderBox missing, the track cannot be reported."@,
        TrackError::MissingSampleEntry => "SampleEntry missing, the track cannot be reported."@,
    }
}

/// The sections of a track that could not be classified: one section under
/// the title of its kind, with the notice of what is missing.
pub open spec fn sections_of_failure(failure: TrackFailure) -> Seq<SectionView> {
    seq![notice_section_of(failure.kind, failure_notice(failure.error))]
}

/// The sections of one track, in order.
///
/// A video or audio track has four: identifier and timing, header, sample
/// entry, codec. A track of an unsupported category has one, with a notice in
/// place of data. A track that failed classification has one, with the notice
/// of what is missing; a video or audio track without its header is shown the
/// same way.
pub open spec fn sections_of_track(entry: Result<ClassifiedTrack, TrackFailure>) -> Seq<SectionView> {
    match entry {
        Err(failure) => sections_of_failure(failure),
        Ok(track) => match track.category {
            Category::Video { width, height, codec } => match track.header {
                None => sections_of_failure(
                    TrackFailure { kind: TrackKind::Video, error: TrackError::MissingTrackHeader },
                ),
                Some(header) => seq![
                    timing_section_of(TrackKind::Video, track),
                    header_section_of(TrackKind::Video, header),
                    video_entry_section_of(width, height),
                    codec_section_of(TrackKind::Video, codec.name_text(), codec.fields()),
                ],
            },
            Category::Audio { channel_count, sample_size, sample_rate, codec } => match track.header {
                None => sections_of_failure(
                    TrackFailure { kind: TrackKind::Audio, error: TrackError::MissingTrackHeader },
                ),
                Some(header) => seq![
                    timing_section_of(TrackKind::Audio, track),
                    header_section_of(TrackKind::Audio, header),
                    audio_entry_section_of(channel_count, sample_size, sample_rate),
                    codec_section_of(TrackKind::Audio, codec.name_text(), codec.fields()),
                ],
            },
            Category::Picture => seq![
                notice_section_of(
                    TrackKind::Picture,
                    "TrackType::Picture found, but not supported by this application."@,
                ),
            ],
            Category::AuxiliaryVideo => seq![
                notice_section_of(
                    TrackKind::AuxiliaryVideo,
                    "TrackType::AuxiliaryVideo found, but not supported by this application."@,
                ),
            ],
            Category::Metadata => seq![
                notice_section_of(
                    TrackKind::Metadata,
                    "TrackType::Metadata found, but not supported by this application."@,
                ),
            ],
            Category::Unknown => seq![notice_section_of(TrackKind::Unknown, "TrackType::Unknown."@)],
        },
    }
}

/// The sections of all tracks: those of each track, in track order.
pub open spec fn sections_of_tracks(entries: Seq<Result<ClassifiedTrack, TrackFailure>>) -> Seq<SectionView>
    decreases entries.len(),
{
    if entries.len() == 0 {
        Seq::empty()
    } else {
        sections_of_tracks(entries.drop_last()) + sections_of_track(entries.last())
    }
}

/// The sections of a whole report: the file section, then the tracks.
pub open spec fn sections_of_report(
    media: MediaView,
    entries: Seq<Result<ClassifiedTrack, TrackFailure>>,
) -> Seq<SectionView> {
    seq![file_section_of(media)] + sections_of_tracks(entries)
}

fn field(key: &str, value: String) -> (f: Field)
    ensures
        f@ == (key@, value@),
{
    Field { key: String::from_str(key), value }
}

fn kind_title_str(kind: TrackKind) -> (s: &'static str)
    ensures
        s@ == kind_title(kind),
{
    match kind {
        TrackKind::Video => "media.track.video",
        TrackKind::Audio => "media.track.audio",
        TrackKind::Picture => "media.track.picture",
        TrackKind::AuxiliaryVideo => "media.track.auxiliaryvideo",
        TrackKind::Metadata => "media.track.metadata",
        TrackKind::Unknown => "media.track.unknown",
    }
}

fn sub_title(kind: TrackKind, suffix: &str) -> (s: String)
    ensures
        s@ == kind_title(kind) + suffix@,
{
    let mut s: String = String::from_str(kind_title_str(kind));
    s.append(suffix);
    s
}

/// Builds the section that describes the file itself: its name, its size in
/// bytes and its three timestamps, each shown as UTC time or as a notice.
pub fn file_section(media: &Media) -> (s: ReportSection)
    ensures
        s@ == file_section_of(media@),
{
    let mut fields: Vec<Field> = Vec::new();
    fields.push(field("uri", quoted(media.filename.as_str())));
    fields.push(field("bytes", decimal_string(media.size)));
    fields.push(field("modified", timestamp_string(media.last_modified_time)));
    fields.push(field("created", timestamp_string(media.creation_time)));
    fields.push(field("accessed", timestamp_string(media.last_accessed_time)));
    assert(field_views(fields@) =~= file_section_of(media@).fields);
    ReportSection { title: String::from_str("media"), fields }
}

fn timing_section(kind: TrackKind, track: &ClassifiedTrack) -> (s: ReportSection)
    ensures
        s@ == timing_section_of(kind, *track),
{
    let track_id: Option<u64> = match track.track_id {
        Some(n) => Some(n as u64),
        None => None,
    };
    let mut fields: Vec<Field> = Vec::new();
    fields.push(field("track_id", optional_decimal_string(track_id)));
    fields.push(field("duration", optional_decimal_string(track.duration)));
    fields.push(field("empty_duration", optional_decimal_string(track.empty_duration)));
    fields.push(field("media_time", optional_decimal_string(track.media_time)));
    fields.push(field("timescale", optional_decimal_string(track.timescale)));
    assert(field_views(fields@) =~= timing_section_of(kind, *track).fields);
    ReportSection { title: String::from_str(kind_title_str(kind)), fields }
}

fn header_section(kind: TrackKind, header: &TrackHeader) -> (s: ReportSection)
    ensures
        s@ == header_section_of(kind, *header),
{
    let mut fields: Vec<Field> = Vec::new();
    fields.push(field("disabled", bool_string(header.disabled)));
    fields.push(field("duration", decimal_string(header.duration)));
    fields.push(field("width", decimal_string(header.width as u64)));
    fields.push(field("height", decimal_string(header.height as u64)));
    assert(field_views(fields@) =~= header_section_of(kind, *header).fields);
    ReportSection { title: sub_title(kind, ".header"), fields }
}

fn video_entry_section(width: u16, height: u16) -> (s: ReportSection)
    ensures
        s@ == video_entry_section_of(width, height),
{
    let mut fields: Vec<Field> = Vec::new();
    fields.push(field("width", decimal_string(width as u64)));
    fields.push(field("height", decimal_string(height as u64)));
    assert(field_views(fields@) =~= video_entry_section_of(width, height).fields);
    ReportSection { title: sub_title(TrackKind::Video, ".sample.entry"), fields }
}

fn audio_entry_section(channel_count: u32, sample_size: u16, sample_rate: u32) -> (s:
    ReportSection)
    ensures
        s@ == audio_entry_section_of(channel_count, sample_size, sample_rate),
{
    let mut fields: Vec<Field> = Vec::new();
    fields.push(field("channelcount", decimal_string(channel_count as u64)));
    fields.push(field("samplesize", decimal_string(sample_size as u64)));
    fields.push(field("samplerate", decimal_string(sample_rate as u64)));
    assert(field_views(fields@) =~= audio_entry_section_of(
        channel_count,
        sample_size,
        sample_rate,
    ).fields);
    ReportSection { title: sub_title(TrackKind::Audio, ".sample.entry"), fields }
}

/// Builds a codec section from the codec's name and extension fields: the
/// name first, quoted, then one line per extension field, in the given
/// order. An extension value that is absent is shown by the absence marker.
pub fn codec_section(kind: TrackKind, name: &str, extension: &Vec<ExtensionField>) -> (s:
    ReportSection)
    ensures
        s@ == codec_section_of(kind, name@, fields_view(extension@)),
{
    let ghost lines = fields_view(extension@).map_values(
        |f: (Seq<char>, Option<u64>)| extension_line(f),
    );
    let mut fields: Vec<Field> = Vec::new();
    fields.push(field("codec_name", quoted(name)));
    let mut i: usize = 0;
    while i < extension.len()
        invariant
            i <= extension.len(),
            lines == fields_view(extension@).map_values(
                |f: (Seq<char>, Option<u64>)| extension_line(f),
            ),
            field_views(fields@) =~= seq![("codec_name"@, quote(name@))] + lines.take(i as int),
        decreases extension.len() - i,
    {
        let f: &ExtensionField = &extension[i];
        let ghost before = fields@;
        fields.push(field(f.name.as_str(), optional_decimal_string(f.value)));
        assert(field_views(fields@) =~= field_views(before).push(
            (f.name@, optional_decimal(f.value)),
        ));
        i = i + 1;
    }
    assert(lines.take(i as int) =~= lines);
    ReportSection { title: sub_title(kind, ".codec"), fields }
}

fn notice_section(kind: TrackKind, notice: &str) -> (s: ReportSection)
    ensures
        s@ == notice_section_of(kind, notice@),
{
    let mut fields: Vec<Field> = Vec::new();
    fields.push(field("error", quoted(notice)));
    assert(field_views(fields@) =~= notice_section_of(kind, notice@).fields);
    ReportSection { title: String::from_str(kind_title_str(kind)), fields }
}

fn failure_notice_str(error: TrackError) -> (s: &'static str)
    ensures
        s@ == failure_notice(error),
{
    match error {
        TrackError::MissingTrackHeader => "TrackHeaderBox missing, the track cannot be reported.",
        TrackError::MissingSampleEntry => "SampleEntry missing, the track cannot be reported.",
    }
}

fn failure_sections(kind: TrackKind, error: TrackError) -> (r: Vec<ReportSection>)
    ensures
        section_views(r@) == sections_of_failure(TrackFailure { kind, error }),
{
    let mut r: Vec<ReportSection> = Vec::new();
    r.push(notice_section(kind, failure_notice_str(error)));
    r
}

fn single_notice(kind: TrackKind, notice: &str) -> (r: Vec<ReportSection>)
    ensures
        section_views(r@) == seq![notice_section_of(kind, notice@)],
{
    let mut r: Vec<ReportSection> = Vec::new();
    r.push(notice_section(kind, notice));
    r
}

/// Builds the sections of one track, classified or failed.
pub fn track_sections(entry: &Result<ClassifiedTrack, TrackFailure>) -> (r: Vec<ReportSection>)
    ensures
        section_views(r@) == sections_of_track(*entry),
{
    match entry {
        Err(failure) => failure_sections(failure.kind, failure.error),
        Ok(track) => match track.category {
            Category::Video { width, height, codec } => match track.header {
                None => failure_sections(TrackKind::Video, TrackError::MissingTrackHeader),
                Some(header) => {
                    let extension = codec.extension_fields();
                    let mut r: Vec<ReportSection> = Vec::new();
                    r.push(timing_section(TrackKind::Video, track));
                    r.push(header_section(TrackKind::Video, &header));
                    r.push(video_entry_section(width, height));
                    r.push(codec_section(TrackKind::Video, codec.name(), &extension));
                    r
                },
            },
            Category::Audio { channel_count, sample_size, sample_rate, codec } => match track.header {
                None => failure_sections(TrackKind::Audio, TrackError::MissingTrackHeader),
                Some(header) => {
                    let extension = codec.extension_fields();
                    let mut r: Vec<ReportSection> = Vec::new();
                    r.push(timing_section(TrackKind::Audio, track));
                    r.push(header_section(TrackKind::Audio, &header));
                    r.push(audio_entry_section(channel_count, sample_size, sample_rate));
                    r.push(codec_section(TrackKind::Audio, codec.name(), &extension));
                    r
                },
            },
            Category::Picture => single_notice(
                TrackKind::Picture,
                "TrackType::Picture found, but not supported by this application.",
            ),
            Category::AuxiliaryVideo => single_notice(
                TrackKind::AuxiliaryVideo,
                "TrackType::AuxiliaryVideo found, but not supported by this application.",
            ),
            Category::Metadata => single_notice(
                TrackKind::Metadata,
                "TrackType::Metadata found, but not supported by this application.",
            ),
            Category::Unknown => single_notice(TrackKind::Unknown, "TrackType::Unknown."),
        },
    }
}

/// Builds the sections of all tracks, track by track in the given order.
pub fn tracks_sections(entries: &Vec<Result<ClassifiedTrack, TrackFailure>>) -> (r: Vec<ReportSection>)
    ensures
        section_views(r@) == sections_of_tracks(entries@),
{
    let mut r: Vec<ReportSection> = Vec::new();
    let mut i: usize = 0;
    while i < entries.len()
        invariant
            i <= entries.len(),
            section_views(r@) == sections_of_tracks(entries@.take(i as int)),
        decreases entries.len() - i,
    {
        let mut next: Vec<ReportSection> = track_sections(&entries[i]);
        assert(entries@.take(i as int + 1).drop_last() =~= entries@.take(i as int));
        r.append(&mut next);
        i = i + 1;
    }
    assert(entries@.take(i as int) =~= entries@);
    r
}

/// Builds the sections of a report: the file section first, then the
/// sections of each track in container order.
pub fn report_sections(media: &Media, entries: &Vec<Result<ClassifiedTrack, TrackFailure>>) -> (r: Vec<
    ReportSection,
>)
    ensures
        section_views(r@) == sections_of_report(media@, entries@),
{
    let mut r: Vec<ReportSection> = Vec::new();
    r.push(file_section(media));
    let mut rest: Vec<ReportSection> = tracks_sections(entries);
    r.append(&mut rest);
    r
}

/// Whether a track is shown with its data: it is classified as video or
/// audio and has its header.
pub open spec fn shown_in_full(entry: Result<ClassifiedTrack, TrackFailure>) -> bool {
    entry matches Ok(track) && track.category.kind().inspected() && track.header is Some
}

/// A track that is shown with its data has four sections, and their titles
/// are the title of its kind followed by nothing, `.header`, `.sample.entry`
/// and `.codec`. Every other track has one section, titled by its kind.
pub proof fn lemma_sections_of_one_track(entry: Result<ClassifiedTrack, TrackFailure>)
    ensures
        shown_in_full(entry) ==> {
            &&& sections_of_track(entry).len() == 4
            &&& sections_of_track(entry)[0].title == kind_title(outcome_kind(entry))
            &&& sections_of_track(entry)[1].title == header_title(outcome_kind(entry))
            &&& sections_of_track(entry)[2].title == entry_title(outcome_kind(entry))
            &&& sections_of_track(entry)[3].title == codec_title(outcome_kind(entry))
        },
        !shown_in_full(entry) ==> {
            &&& sections_of_track(entry).len() == 1
            &&& sections_of_track(entry)[0].title == kind_title(outcome_kind(entry))
        },
{
}

/// Sections follow the order of the tracks: the sections of one list of
/// tracks followed by another are the sections of the first list followed by
/// those of the second.
pub proof fn lemma_sections_follow_track_order(
    first: Seq<Result<ClassifiedTrack, TrackFailure>>,
    second: Seq<Result<ClassifiedTrack, TrackFailure>>,
)
    ensures
        sections_of_tracks(first + second) == sections_of_tracks(first) + sections_of_tracks(
            second,
        ),
    decreases second.len(),
{
    if second.len() == 0 {
        assert(first + second =~= first);
    } else {
        lemma_sections_follow_track_order(first, second.drop_last());
        assert((first + second).drop_last() =~= first + second.drop_last());
        assert((first + second).last() == second.last());
    }
}

/// Whether a section title is that of an audio track or of one of its
/// sub-sections.
pub open spec fn is_audio_title(title: Seq<char>) -> bool {
    kind_title(TrackKind::Audio).is_prefix_of(title)
}

proof fn lemma_other_kind_title(kind: TrackKind, suffix: Seq<char>)
    requires
        kind != TrackKind::Audio,
    ensures
        !is_audio_title(kind_title(kind) + suffix),
{
    reveal_strlit("media.track.video");
    reveal_strlit("media.track.audio");
    reveal_strlit("media.track.picture");
    reveal_strlit("media.track.auxiliaryvideo");
    reveal_strlit("media.track.metadata");
    reveal_strlit("media.track.unknown");
    let audio = kind_title(TrackKind::Audio);
    let title = kind_title(kind) + suffix;
    let at: int = if kind == TrackKind::AuxiliaryVideo {
        14
    } else {
        12
    };
    // The two titles differ at `at`, which lies within the audio title.
    assert(title[at] == kind_title(kind)[at]);
    assert(audio[at] != kind_title(kind)[at]);
    if audio.is_prefix_of(title) {
        assert(title.subrange(0, audio.len() as int)[at] == title[at]);
    }
}

proof fn lemma_track_without_audio(entry: Result<ClassifiedTrack, TrackFailure>)
    requires
        outcome_kind(entry) != TrackKind::Audio,
    ensures
        forall|j: int|
            0 <= j < sections_of_track(entry).len() ==> !is_audio_title(
                #[trigger] sections_of_track(entry)[j].title,
            ),
{
    let kind = outcome_kind(entry);
    lemma_other_kind_title(kind, Seq::empty());
    lemma_other_kind_title(kind, ".header"@);
    lemma_other_kind_title(kind, ".sample.entry"@);
    lemma_other_kind_title(kind, ".codec"@);
}

proof fn lemma_tracks_without_audio(entries: Seq<Result<ClassifiedTrack, TrackFailure>>)
    requires
        forall|i: int| 0 <= i < entries.len() ==> outcome_kind(#[trigger] entries[i]) != TrackKind::Audio,
    ensures
        forall|j: int|
            0 <= j < sections_of_tracks(entries).len() ==> !is_audio_title(
                #[trigger] sections_of_tracks(entries)[j].title,
            ),
    decreases entries.len(),
{
    if entries.len() > 0 {
        lemma_tracks_without_audio(entries.drop_last());
        lemma_track_without_audio(entries.last());
        let before = sections_of_tracks(entries.drop_last());
        let last = sections_of_track(entries.last());
        assert forall|j: int| 0 <= j < sections_of_tracks(entries).len() implies !is_audio_title(
            #[trigger] sections_of_tracks(entries)[j].title,
        ) by {
            if j < before.len() {
                assert(sections_of_tracks(entries)[j] == before[j]);
            } else {
                assert(sections_of_tracks(entries)[j] == last[j - before.len()]);
            }
        }
    }
}

/// A report of tracks none of which is an audio track has no audio section:
/// no section of it is titled `media.track.audio`, nor by a title below that
/// one.
pub proof fn lemma_no_audio_section(media: MediaView, entries: Seq<Result<ClassifiedTrack, TrackFailure>>)
    requires
        forall|i: int| 0 <= i < entries.len() ==> outcome_kind(#[trigger] entries[i]) != TrackKind::Audio,
    ensures
        forall|j: int|
            0 <= j < sections_of_report(media, entries).len() ==> !is_audio_title(
                #[trigger] sections_of_report(media, entries)[j].title,
            ),
{
    reveal_strlit("media");
    reveal_strlit("media.track.audio");
    lemma_tracks_without_audio(entries);
    let tracks = sections_of_tracks(entries);
    assert forall|j: int| 0 <= j < sections_of_report(media, entries).len() implies !is_audio_title(
        #[trigger] sections_of_report(media, entries)[j].title,
    ) by {
        if j > 0 {
            assert(sections_of_report(media, entries)[j] == tracks[j - 1]);
        }
    }
}

} // verus!
